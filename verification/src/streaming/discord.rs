//! Streaming reader rules for Discord exports: JSON Lines files are read
//! line by line, other JSON files object by object.

use vstd::prelude::*;

use crate::message::{Message, MessageView};
use crate::parsing::discord::{
    DiscordStreamMessage, author_name, opt_rfc3339, parse_discord_stream_message, rfc3339_spec,
};
use crate::text::{all_ws, chars_of, contains_seq, contains_str, has_prefix_str, parse_u64_spec, starts_with, string_of, trim, trimmed};
use crate::streaming::traits::{StreamingConfig, streaming_config_default};

verus! {

/// A first line of a JSON Lines export.
pub open spec fn is_jsonl_spec(first_line: Seq<char>) -> bool {
    let t = trim(first_line);
    starts_with(t, "{"@) && !contains_seq(t, "\"messages\""@) && !contains_seq(t, "\"guild\""@)
}

/// The message of one JSON Lines record: none when its text is blank; the
/// reply reference is not read from this format.
pub open spec fn jsonl_message_spec(m: DiscordStreamMessage) -> Option<MessageView> {
    if all_ws(m.content@) {
        None
    } else {
        Some(
            MessageView {
                sender: author_name(m.author),
                content: m.content@,
                timestamp: rfc3339_spec(m.timestamp@),
                id: parse_u64_spec(m.id@),
                reply_to: None,
                edited: opt_rfc3339(m.timestamp_edited),
            },
        )
    }
}

/// The message of one JSON Lines record; `None` when its text is blank.
pub fn jsonl_record_message(msg: &DiscordStreamMessage) -> (r: Option<Message>)
    ensures
        match r {
            Some(m) => jsonl_message_spec(*msg) == Some(m@),
            None => jsonl_message_spec(*msg) is None,
        },
{
    match parse_discord_stream_message(msg) {
        Some(m) => Some(Message { reply_to: None, ..m }),
        None => None,
    }
}

/// The text of a JSON Lines line to decode: the line trimmed, or `None`
/// for a blank line, which holds no record.
pub fn jsonl_record_text(line: &str) -> (r: Option<String>)
    ensures
        match r {
            Some(t) => t@ == trim(line@) && t@.len() > 0,
            None => trim(line@).len() == 0,
        },
{
    let t = trimmed(&chars_of(line));
    if t.len() == 0 {
        None
    } else {
        Some(string_of(&t))
    }
}

/// Streaming parser for Discord exports.
pub struct DiscordStreamingParser {
    config: StreamingConfig,
}

impl DiscordStreamingParser {
    /// The configuration.
    pub closed spec fn config_spec(&self) -> StreamingConfig {
        self.config
    }

    /// A parser with default settings.
    pub fn new() -> (p: DiscordStreamingParser)
        ensures
            p.config_spec() == streaming_config_default(),
    {
        DiscordStreamingParser { config: StreamingConfig::new() }
    }

    /// A parser with the given settings.
    pub fn with_config(config: StreamingConfig) -> (p: DiscordStreamingParser)
        ensures
            p.config_spec() == config,
    {
        DiscordStreamingParser { config }
    }

    /// The settings.
    pub fn config(&self) -> (c: StreamingConfig)
        ensures
            c == self.config_spec(),
    {
        self.config
    }

    /// The parser's name.
    pub fn name(&self) -> (s: &'static str)
        ensures
            s@ == "Discord (Streaming)"@,
    {
        "Discord (Streaming)"
    }

    /// The recommended read buffer size: 64 KiB, whatever the settings.
    pub fn recommended_buffer_size(&self) -> (n: usize)
        ensures
            n == 65_536,
    {
        65_536
    }

    /// Whether a file whose first line is `first_line` is JSON Lines: the
    /// trimmed line opens an object that is neither the export wrapper
    /// (`"messages"`) nor its guild header (`"guild"`).
    pub fn is_jsonl(first_line: &str) -> (b: bool)
        ensures
            b == is_jsonl_spec(first_line@),
    {
        let t = trimmed(&chars_of(first_line));
        has_prefix_str(&t, "{") && !contains_str(&t, "\"messages\"") && !contains_str(&t, "\"guild\"")
    }
}

impl Default for DiscordStreamingParser {
    fn default() -> (p: DiscordStreamingParser)
        ensures
            p.config_spec() == streaming_config_default(),
    {
        DiscordStreamingParser::new()
    }
}

} // verus!
