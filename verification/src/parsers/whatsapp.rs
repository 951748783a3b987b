//! Parser for WhatsApp TXT exports.
//!
//! The export layout varies by locale; it is detected from the first 20
//! lines. Supported layouts:
//! - US: `[1/15/24, 10:30:45 AM] Sender: Message`
//! - EU: `[15.01.24, 10:30:45] Sender: Message`
//! - EU2: `15/01/2024, 10:30 - Sender: Message`
//! - RU: `15.01.2024, 10:30 - Sender: Message`

use vstd::prelude::*;

use crate::config::{WhatsAppConfig, whatsapp_config_default};
use crate::error::ChatpackError;
use crate::message::{Message, MessageView, msg_views};
use crate::parser::Platform;
use crate::parsing::whatsapp::{
    DateFormat, detect_spec, detect_whatsapp_format_owned, is_best_format, is_system_notice,
    is_whatsapp_system_message, lemma_score_needs_valid, parse_whatsapp_timestamp, pattern_text,
    whatsapp_timestamp,
};
use crate::pattern::{LinePattern, group_of, group_text, opt_view, regex_captures};
use crate::text::{
    all_ws, chars_of, is_blank, lines, push_all, split_lines, string_of, trim, trimmed, views,
};

verus! {

/// Parser for WhatsApp TXT exports.
pub struct WhatsAppParser {
    config: WhatsAppConfig,
}

/// How one line changes the messages read so far under layout `f`: blank
/// lines are skipped; a message line starts a new message (unless it is a
/// system notice and those are skipped); any other line continues the last
/// message after a newline, and is dropped when there is none yet.
pub open spec fn whatsapp_step(
    f: DateFormat,
    skip_system: bool,
    msgs: Seq<MessageView>,
    line: Seq<char>,
) -> Seq<MessageView> {
    if all_ws(line) {
        msgs
    } else {
        match regex_captures(pattern_text(f), line) {
            Some(g) => {
                let sender = trim(group_text(g, 3));
                let body = group_text(g, 4);
                if skip_system && is_system_notice(sender, body) {
                    msgs
                } else {
                    msgs.push(
                        MessageView {
                            sender,
                            content: body,
                            timestamp: whatsapp_timestamp(group_text(g, 1), group_text(g, 2), f),
                            id: None,
                            reply_to: None,
                            edited: None,
                        },
                    )
                }
            },
            None => if msgs.len() > 0 {
                let last = msgs.last();
                msgs.update(
                    msgs.len() - 1,
                    MessageView { content: last.content + seq!['\n'] + line, ..last },
                )
            } else {
                msgs
            },
        }
    }
}

/// The messages read from `lines` under layout `f`.
pub open spec fn whatsapp_messages(f: DateFormat, skip_system: bool, lines: Seq<Seq<char>>) -> Seq<
    MessageView,
>
    decreases lines.len(),
{
    if lines.len() == 0 {
        Seq::empty()
    } else {
        whatsapp_step(f, skip_system, whatsapp_messages(f, skip_system, lines.drop_last()), lines.last())
    }
}

/// The lines the layout is detected from: the first 20.
pub open spec fn whatsapp_sample(lines: Seq<Seq<char>>) -> Seq<Seq<char>> {
    if lines.len() < 20 {
        lines
    } else {
        lines.take(20)
    }
}

/// The message of the error for an export whose layout is not recognised.
pub open spec fn undetected_text() -> Seq<char> {
    "Could not detect WhatsApp export format. Make sure the file is a valid WhatsApp chat export."@
}

/// What parsing `content` gives: no messages for empty content, an
/// `InvalidFormat` error when no layout is detected, else the messages read
/// under the detected layout.
pub open spec fn whatsapp_parse_result(
    content: Seq<char>,
    skip_system: bool,
    r: Result<Vec<Message>, ChatpackError>,
) -> bool {
    let ls = lines(content);
    if ls.len() == 0 {
        r matches Ok(v) && v@.len() == 0
    } else {
        match detect_spec(whatsapp_sample(ls)) {
            None => r matches Err(ChatpackError::InvalidFormat { format, message })
                && format@ == "WhatsApp"@ && message@ == undetected_text(),
            Some(f) => r matches Ok(v) && msg_views(v@) == whatsapp_messages(f, skip_system, ls),
        }
    }
}

impl WhatsAppParser {
    /// The configuration.
    pub closed spec fn config_spec(&self) -> WhatsAppConfig {
        self.config
    }

    /// A parser with the default configuration.
    pub fn new() -> (p: WhatsAppParser)
        ensures
            p.config_spec() == whatsapp_config_default(),
    {
        WhatsAppParser { config: WhatsAppConfig::new() }
    }

    /// A parser with the given configuration.
    pub fn with_config(config: WhatsAppConfig) -> (p: WhatsAppParser)
        ensures
            p.config_spec() == config,
    {
        WhatsAppParser { config }
    }

    /// A parser configured for streaming large files.
    pub fn with_streaming() -> (p: WhatsAppParser)
        ensures
            p.config_spec() == (WhatsAppConfig {
                streaming: true,
                buffer_size: 262_144usize,
                ..whatsapp_config_default()
            }),
    {
        WhatsAppParser { config: WhatsAppConfig::streaming() }
    }

    /// The configuration.
    pub fn config(&self) -> (c: &WhatsAppConfig)
        ensures
            *c == self.config_spec(),
    {
        &self.config
    }

    /// The parser's name.
    pub fn name(&self) -> (s: &'static str)
        ensures
            s@ == "WhatsApp"@,
    {
        "WhatsApp"
    }

    /// The platform parsed.
    pub fn platform(&self) -> (p: Platform)
        ensures
            p == Platform::WhatsApp,
    {
        Platform::WhatsApp
    }

    /// Whether streaming is configured.
    pub fn supports_streaming(&self) -> (b: bool)
        ensures
            b == self.config_spec().streaming,
    {
        self.config.streaming
    }

    /// The configured streaming buffer size.
    pub fn recommended_buffer_size(&self) -> (n: usize)
        ensures
            n == self.config_spec().buffer_size,
    {
        self.config.buffer_size
    }

    /// Parses the text of a WhatsApp export.
    pub fn parse_str(&self, content: &str) -> (r: Result<Vec<Message>, ChatpackError>)
        ensures
            whatsapp_parse_result(content@, self.config_spec().skip_system_messages, r),
    {
        let skip = self.config.skip_system_messages;
        let cs = chars_of(content);
        let ls = split_lines(&cs);
        let ghost lv = views(ls@);
        if ls.len() == 0 {
            return Ok(Vec::new());
        }
        let n: usize = if ls.len() < 20 {
            ls.len()
        } else {
            20
        };
        let mut sample: Vec<String> = Vec::new();
        let mut i: usize = 0;
        while i < n
            invariant
                lv == views(ls@),
                n <= ls@.len(),
                0 <= i <= n,
                sample@.map_values(|s: String| s@) == lv.take(i as int),
            decreases n - i,
        {
            let s = string_of(&ls[i]);
            let ghost before = sample@;
            sample.push(s);
            assert(sample@.map_values(|s: String| s@) =~= before.map_values(|s: String| s@).push(
                lv[i as int],
            ));
            assert(lv.take(i + 1) =~= lv.take(i as int).push(lv[i as int]));
            i = i + 1;
        }
        assert(lv.take(n as int) =~= whatsapp_sample(lv));
        let format = match detect_whatsapp_format_owned(sample.as_slice()) {
            Some(f) => f,
            None => {
                return Err(
                    ChatpackError::invalid_format(
                        "WhatsApp",
                        String::from_str(
                            "Could not detect WhatsApp export format. Make sure the file is a valid WhatsApp chat export.",
                        ),
                    ),
                );
            },
        };
        proof {
            let c = choose|h: DateFormat| is_best_format(whatsapp_sample(lv), h);
            assert(is_best_format(whatsapp_sample(lv), c));
            lemma_score_needs_valid(format, whatsapp_sample(lv));
        }
        let re = match LinePattern::compile(format.pattern()) {
            Ok(p) => p,
            Err(_) => vstd::pervasive::unreached(),
        };
        let mut messages: Vec<Message> = Vec::new();
        let mut i: usize = 0;
        while i < ls.len()
            invariant
                lv == views(ls@),
                0 <= i <= ls@.len(),
                re.pattern() == pattern_text(format),
                msg_views(messages@) == whatsapp_messages(format, skip, lv.take(i as int)),
            decreases ls@.len() - i,
        {
            let line = &ls[i];
            let ghost prev = msg_views(messages@);
            assert(lv.take(i + 1).drop_last() =~= lv.take(i as int));
            assert(lv.take(i + 1).last() == line@);
            if !is_blank(line) {
                let line_s = string_of(line);
                match re.captures(line_s.as_str()) {
                    Some(groups) => {
                        let ghost g = groups@.map_values(|o: Option<String>| opt_view(o));
                        assert(regex_captures(pattern_text(format), line@) == Some(g));
                        let date = group_of(&groups, 1);
                        let time = group_of(&groups, 2);
                        let sender_raw = group_of(&groups, 3);
                        let sender = string_of(&trimmed(&chars_of(sender_raw.as_str())));
                        let body = group_of(&groups, 4);
                        if !(skip && is_whatsapp_system_message(sender.as_str(), body.as_str())) {
                            let ts = parse_whatsapp_timestamp(date.as_str(), time.as_str(), format);
                            let m = Message::with_metadata(sender, body, ts, None, None, None);
                            messages.push(m);
                            assert(msg_views(messages@) =~= prev.push(m@));
                        }
                    },
                    None => {
                        if messages.len() > 0 {
                            let ghost before = messages@;
                            let mut last = messages.pop().unwrap();
                            assert(last == before.last());
                            assert(messages@ == before.drop_last());
                            let mut c = chars_of(last.content.as_str());
                            c.push('\n');
                            push_all(&mut c, line);
                            last.content = string_of(&c);
                            assert(last@ == MessageView { content: prev.last().content + seq!['\n'] + line@, ..prev.last() });
                            messages.push(last);
                            assert(messages@ == before.drop_last().push(last));
                            assert(msg_views(messages@) =~= prev.update(
                                prev.len() - 1,
                                MessageView { content: prev.last().content + seq!['\n'] + line@, ..prev.last() },
                            ));
                        }
                    },
                }
            }
            i = i + 1;
        }
        assert(lv.take(ls@.len() as int) =~= lv);
        Ok(messages)
    }
}

impl Default for WhatsAppParser {
    fn default() -> (p: WhatsAppParser)
        ensures
            p.config_spec() == whatsapp_config_default(),
    {
        WhatsAppParser::new()
    }
}

} // verus!
