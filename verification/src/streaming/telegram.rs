//! Streaming reader settings for Telegram exports.

use vstd::prelude::*;

use crate::streaming::traits::{StreamingConfig, streaming_config_default};

verus! {

/// Streaming parser for Telegram exports.
pub struct TelegramStreamingParser {
    config: StreamingConfig,
}

impl TelegramStreamingParser {
    /// The configuration.
    pub closed spec fn config_spec(&self) -> StreamingConfig {
        self.config
    }

    /// A parser with default settings.
    pub fn new() -> (p: TelegramStreamingParser)
        ensures
            p.config_spec() == streaming_config_default(),
    {
        TelegramStreamingParser { config: StreamingConfig::new() }
    }

    /// A parser with the given settings.
    pub fn with_config(config: StreamingConfig) -> (p: TelegramStreamingParser)
        ensures
            p.config_spec() == config,
    {
        TelegramStreamingParser { config }
    }

    /// The settings.
    pub fn config(&self) -> (c: StreamingConfig)
        ensures
            c == self.config_spec(),
    {
        self.config
    }

    /// The parser's name.
    pub fn name(&self) -> (s: &'static str)
        ensures
            s@ == "Telegram (Streaming)"@,
    {
        "Telegram (Streaming)"
    }

    /// The configured read buffer size.
    pub fn recommended_buffer_size(&self) -> (n: usize)
        ensures
            n == self.config_spec().buffer_size,
    {
        self.config.buffer_size
    }
}

impl Default for TelegramStreamingParser {
    fn default() -> (p: TelegramStreamingParser)
        ensures
            p.config_spec() == streaming_config_default(),
    {
        TelegramStreamingParser::new()
    }
}

} // verus!
