//! Parser for Telegram Desktop JSON exports (`result.json` from "Export
//! chat history").
//!
//! Text messages (plain and formatted), replies and edits are kept; service
//! records (joins, pins, ...) and messages with blank text are dropped.

use vstd::prelude::*;

use crate::config::{TelegramConfig, telegram_config_default};
use crate::message::{Message, msg_views};
use crate::parser::Platform;
use crate::parsing::telegram::{TelegramExport, parse_telegram_messages, telegram_messages};

verus! {

/// Parser for Telegram Desktop JSON exports.
pub struct TelegramParser {
    config: TelegramConfig,
}

impl TelegramParser {
    /// The configuration.
    pub closed spec fn config_spec(&self) -> TelegramConfig {
        self.config
    }

    /// A parser with the default configuration.
    pub fn new() -> (p: TelegramParser)
        ensures
            p.config_spec() == telegram_config_default(),
    {
        TelegramParser { config: TelegramConfig::new() }
    }

    /// A parser with the given configuration.
    pub fn with_config(config: TelegramConfig) -> (p: TelegramParser)
        ensures
            p.config_spec() == config,
    {
        TelegramParser { config }
    }

    /// A parser configured for streaming large files.
    pub fn with_streaming() -> (p: TelegramParser)
        ensures
            p.config_spec() == (TelegramConfig {
                streaming: true,
                buffer_size: 262_144usize,
                ..telegram_config_default()
            }),
    {
        TelegramParser { config: TelegramConfig::streaming() }
    }

    /// The configuration.
    pub fn config(&self) -> (c: &TelegramConfig)
        ensures
            *c == self.config_spec(),
    {
        &self.config
    }

    /// The parser's name.
    pub fn name(&self) -> (s: &'static str)
        ensures
            s@ == "Telegram"@,
    {
        "Telegram"
    }

    /// The platform parsed.
    pub fn platform(&self) -> (p: Platform)
        ensures
            p == Platform::Telegram,
    {
        Platform::Telegram
    }

    /// Whether streaming is configured.
    pub fn supports_streaming(&self) -> (b: bool)
        ensures
            b == self.config_spec().streaming,
    {
        self.config.streaming
    }

    /// The configured streaming buffer size.
    pub fn recommended_buffer_size(&self) -> (n: usize)
        ensures
            n == self.config_spec().buffer_size,
    {
        self.config.buffer_size
    }

    /// The messages of a decoded export, in order.
    pub fn parse_export(&self, export: &TelegramExport) -> (r: Vec<Message>)
        ensures
            msg_views(r@) == telegram_messages(export.messages@),
    {
        parse_telegram_messages(export.messages.as_slice())
    }
}

impl Default for TelegramParser {
    fn default() -> (p: TelegramParser)
        ensures
            p.config_spec() == telegram_config_default(),
    {
        TelegramParser::new()
    }
}

} // verus!
