//! The Telegram parser of the asynchronous front end; reading files
//! asynchronously is left to the caller.

use vstd::prelude::*;

use crate::config::{TelegramConfig, telegram_config_default};
use crate::message::{Message, msg_views};
use crate::parsing::telegram::{TelegramExport, parse_telegram_messages, telegram_messages};

verus! {

/// Telegram parser for asynchronous callers.
pub struct AsyncTelegramParser {
    config: TelegramConfig,
}

impl AsyncTelegramParser {
    /// The configuration.
    pub closed spec fn config_spec(&self) -> TelegramConfig {
        self.config
    }

    /// A parser with the default configuration.
    pub fn new() -> (p: AsyncTelegramParser)
        ensures
            p.config_spec() == telegram_config_default(),
    {
        AsyncTelegramParser { config: TelegramConfig::new() }
    }

    /// A parser with the given configuration.
    pub fn with_config(config: TelegramConfig) -> (p: AsyncTelegramParser)
        ensures
            p.config_spec() == config,
    {
        AsyncTelegramParser { config }
    }

    /// The parser's name.
    pub fn name(&self) -> (s: &'static str)
        ensures
            s@ == "Telegram (Async)"@,
    {
        "Telegram (Async)"
    }

    /// The messages of a decoded export, in order.
    pub fn parse_export(&self, export: &TelegramExport) -> (r: Vec<Message>)
        ensures
            msg_views(r@) == telegram_messages(export.messages@),
    {
        parse_telegram_messages(export.messages.as_slice())
    }
}

impl Default for AsyncTelegramParser {
    fn default() -> (p: AsyncTelegramParser)
        ensures
            p.config_spec() == telegram_config_default(),
    {
        AsyncTelegramParser::new()
    }
}

} // verus!
