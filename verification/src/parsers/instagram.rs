//! Parser for Instagram JSON exports ("Download Your Data").
//!
//! Meta writes UTF-8 text as if it were ISO-8859-1, so non-ASCII text
//! arrives garbled; the parser repairs it when configured to. Exports list
//! messages newest first; the parser returns them oldest first.

use vstd::prelude::*;

use crate::config::{InstagramConfig, instagram_config_default};
use crate::message::{Message, msg_views};
use crate::parser::Platform;
use crate::parsing::instagram::{InstagramExport, instagram_messages, parse_instagram_messages};

verus! {

/// Parser for Instagram JSON exports.
pub struct InstagramParser {
    config: InstagramConfig,
}

impl InstagramParser {
    /// The configuration.
    pub closed spec fn config_spec(&self) -> InstagramConfig {
        self.config
    }

    /// A parser with the default configuration.
    pub fn new() -> (p: InstagramParser)
        ensures
            p.config_spec() == instagram_config_default(),
    {
        InstagramParser { config: InstagramConfig::new() }
    }

    /// A parser with the given configuration.
    pub fn with_config(config: InstagramConfig) -> (p: InstagramParser)
        ensures
            p.config_spec() == config,
    {
        InstagramParser { config }
    }

    /// A parser configured for streaming large files.
    pub fn with_streaming() -> (p: InstagramParser)
        ensures
            p.config_spec() == (InstagramConfig {
                streaming: true,
                buffer_size: 262_144usize,
                ..instagram_config_default()
            }),
    {
        InstagramParser { config: InstagramConfig::streaming() }
    }

    /// The configuration.
    pub fn config(&self) -> (c: &InstagramConfig)
        ensures
            *c == self.config_spec(),
    {
        &self.config
    }

    /// The parser's name.
    pub fn name(&self) -> (s: &'static str)
        ensures
            s@ == "Instagram"@,
    {
        "Instagram"
    }

    /// The platform parsed.
    pub fn platform(&self) -> (p: Platform)
        ensures
            p == Platform::Instagram,
    {
        Platform::Instagram
    }

    /// Whether streaming is configured.
    pub fn supports_streaming(&self) -> (b: bool)
        ensures
            b == self.config_spec().streaming,
    {
        self.config.streaming
    }

    /// The configured streaming buffer size.
    pub fn recommended_buffer_size(&self) -> (n: usize)
        ensures
            n == self.config_spec().buffer_size,
    {
        self.config.buffer_size
    }

    /// The messages of a decoded export, oldest first, repaired when the
    /// configuration says so.
    pub fn parse_export(&self, export: &InstagramExport) -> (r: Vec<Message>)
        ensures
            msg_views(r@) == instagram_messages(export.messages@, self.config_spec().fix_encoding).reverse(),
    {
        let mut rest = parse_instagram_messages(export.messages.as_slice(), self.config.fix_encoding);
        let ghost v = msg_views(rest@);
        let mut out: Vec<Message> = Vec::new();
        assert(v.subrange(v.len() as int, v.len() as int).reverse() =~= msg_views(out@));
        while rest.len() > 0
            invariant
                rest@.len() <= v.len(),
                msg_views(rest@) == v.subrange(0, rest@.len() as int),
                msg_views(out@) == v.subrange(rest@.len() as int, v.len() as int).reverse(),
            decreases rest@.len(),
        {
            let ghost before = rest@;
            let m = rest.pop().unwrap();
            assert(m == before.last());
            assert(rest@ == before.drop_last());
            assert(msg_views(before)[before.len() - 1] == m@);
            assert(m@ == v[rest@.len() as int]);
            let ghost old_out = out@;
            out.push(m);
            assert(msg_views(out@) =~= msg_views(old_out).push(m@));
            assert(msg_views(rest@) =~= v.subrange(0, rest@.len() as int));
            assert(msg_views(out@) =~= v.subrange(rest@.len() as int, v.len() as int).reverse());
        }
        assert(v.subrange(0, v.len() as int) =~= v);
        out
    }
}

impl Default for InstagramParser {
    fn default() -> (p: InstagramParser)
        ensures
            p.config_spec() == instagram_config_default(),
    {
        InstagramParser::new()
    }
}

} // verus!
