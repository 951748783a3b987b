//! Reading WhatsApp exports line by line: the layout is detected from the
//! first 20 lines, and a message is complete when the next message line (or
//! the end of the input) arrives. System notices are always dropped.

use vstd::prelude::*;

use crate::message::{Message, MessageView, msg_views};
use crate::parsing::whatsapp::{
    DateFormat, detect_spec, detect_whatsapp_format_owned, is_best_format, is_system_notice,
    is_whatsapp_system_message, lemma_score_needs_valid, parse_whatsapp_timestamp, pattern_text,
    whatsapp_timestamp,
};
use crate::pattern::{LinePattern, group_of, group_text, opt_view, regex_captures, regex_is_match};
use crate::text::{all_ws, chars_of, is_blank, push_all, str_is_blank, string_of, trim, trim_end, trimmed, trimmed_end};
use crate::streaming::traits::{StreamingConfig, streaming_config_default};
use crate::timestamp::Timestamp;

verus! {

/// The message being read: its sender (empty when there is none), text
/// and timestamp.
pub struct PendingView {
    pub sender: Seq<char>,
    pub content: Seq<char>,
    pub timestamp: Option<Timestamp>,
}

/// No message being read.
pub open spec fn no_pending() -> PendingView {
    PendingView { sender: Seq::empty(), content: Seq::empty(), timestamp: None }
}

/// The message a pending one becomes when complete: none without a sender,
/// with blank text, or for a system notice; the text is trimmed.
pub open spec fn pending_message(p: PendingView) -> Option<MessageView> {
    if p.sender.len() == 0 || all_ws(p.content) || is_system_notice(p.sender, p.content) {
        None
    } else {
        Some(
            MessageView {
                sender: p.sender,
                content: trim(p.content),
                timestamp: p.timestamp,
                id: None,
                reply_to: None,
                edited: None,
            },
        )
    }
}

/// The state of a line reader: the pending message, the completed messages
/// not yet handed out, whether the input has ended, and the layout.
pub struct WhatsAppStreamView {
    pub pending: PendingView,
    pub queue: Seq<MessageView>,
    pub finished: bool,
    pub format: Option<DateFormat>,
}

/// A line continues the pending message (after a newline, trailing
/// whitespace removed); without a pending message it is dropped.
pub open spec fn continue_pending(s: WhatsAppStreamView, line: Seq<char>) -> WhatsAppStreamView {
    if s.pending.sender.len() > 0 {
        WhatsAppStreamView {
            pending: PendingView {
                content: s.pending.content + seq!['\n'] + trim_end(line),
                ..s.pending
            },
            ..s
        }
    } else {
        s
    }
}

/// How one line changes the state: blank lines are skipped; a message line
/// queues the pending message (when it gives one) and starts a new one;
/// any other line continues the pending message.
pub open spec fn stream_line(s: WhatsAppStreamView, line: Seq<char>) -> WhatsAppStreamView {
    if all_ws(line) {
        s
    } else {
        match s.format {
            Some(f) => match regex_captures(pattern_text(f), line) {
                Some(g) => {
                    let queue = if s.pending.sender.len() > 0 {
                        match pending_message(s.pending) {
                            Some(m) => s.queue.push(m),
                            None => s.queue,
                        }
                    } else {
                        s.queue
                    };
                    WhatsAppStreamView {
                        queue,
                        pending: PendingView {
                            sender: trim(group_text(g, 3)),
                            content: group_text(g, 4),
                            timestamp: whatsapp_timestamp(group_text(g, 1), group_text(g, 2), f),
                        },
                        ..s
                    }
                },
                None => continue_pending(s, line),
            },
            None => continue_pending(s, line),
        }
    }
}

/// The state after reading `lines` from `s`.
pub open spec fn stream_lines(s: WhatsAppStreamView, lines: Seq<Seq<char>>) -> WhatsAppStreamView
    decreases lines.len(),
{
    if lines.len() == 0 {
        s
    } else {
        stream_line(stream_lines(s, lines.drop_last()), lines.last())
    }
}

/// The state after the sample lines: layout detected from them, then each
/// of them read.
pub open spec fn stream_start(sample: Seq<Seq<char>>) -> WhatsAppStreamView {
    stream_lines(
        WhatsAppStreamView { pending: no_pending(), queue: Seq::empty(), finished: false, format: detect_spec(sample) },
        sample,
    )
}

/// What the reader asks for next.
#[derive(Debug, Clone, PartialEq)]
pub enum StreamStep {
    /// A completed message.
    Yield(Message),
    /// Another line of input.
    NeedLine,
    /// Nothing more.
    Done,
}

/// The line-handling rules of a streaming WhatsApp reader; the lines
/// themselves are supplied by the caller.
pub struct WhatsAppLineReader {
    sender: String,
    content: Vec<char>,
    timestamp: Option<Timestamp>,
    queued: Vec<Message>,
    finished: bool,
    format: Option<DateFormat>,
    pattern: Option<LinePattern>,
}

impl View for WhatsAppLineReader {
    type V = WhatsAppStreamView;

    closed spec fn view(&self) -> WhatsAppStreamView {
        WhatsAppStreamView {
            pending: PendingView { sender: self.sender@, content: self.content@, timestamp: self.timestamp },
            queue: msg_views(self.queued@),
            finished: self.finished,
            format: self.format,
        }
    }
}

fn pending_into_message(sender: String, content: Vec<char>, timestamp: Option<Timestamp>) -> (r: Option<Message>)
    ensures
        match pending_message(PendingView { sender: sender@, content: content@, timestamp }) {
            Some(v) => r matches Some(m) && m@ == v,
            None => r is None,
        },
{
    if sender.as_str().is_empty() || is_blank(&content) {
        return None;
    }
    let text = string_of(&content);
    if is_whatsapp_system_message(sender.as_str(), text.as_str()) {
        return None;
    }
    Some(Message::with_metadata(sender, string_of(&trimmed(&content)), timestamp, None, None, None))
}

impl WhatsAppLineReader {
    #[verifier::type_invariant]
    spec fn well_formed(self) -> bool {
        match self.format {
            Some(f) => self.pattern matches Some(p) && p.pattern() == pattern_text(f),
            None => self.pattern is None,
        }
    }

    /// A reader that has detected the layout from the sample lines (the
    /// first lines of the input, at most 20) and read them.
    pub fn new(sample_lines: &[String]) -> (r: WhatsAppLineReader)
        ensures
            r@ == stream_start(sample_lines@.map_values(|s: String| s@)),
    {
        let ghost sv = sample_lines@.map_values(|s: String| s@);
        let format = detect_whatsapp_format_owned(sample_lines);
        let pattern = match format {
            Some(f) => {
                proof {
                    let c = choose|h: DateFormat| is_best_format(sv, h);
                    assert(is_best_format(sv, c));
                    lemma_score_needs_valid(f, sv);
                }
                match LinePattern::compile(f.pattern()) {
                    Ok(p) => Some(p),
                    Err(_) => vstd::pervasive::unreached(),
                }
            },
            None => None,
        };
        let mut r = WhatsAppLineReader {
            sender: String::new(),
            content: Vec::new(),
            timestamp: None,
            queued: Vec::new(),
            finished: false,
            format,
            pattern,
        };
        let ghost start = r@;
        assert(start.pending =~= no_pending());
        assert(start.queue =~= Seq::<MessageView>::empty());
        let mut i: usize = 0;
        while i < sample_lines.len()
            invariant
                0 <= i <= sample_lines@.len(),
                sv == sample_lines@.map_values(|s: String| s@),
                start == (WhatsAppStreamView {
                    pending: no_pending(),
                    queue: Seq::empty(),
                    finished: false,
                    format: detect_spec(sv),
                }),
                r@ == stream_lines(start, sv.take(i as int)),
            decreases sample_lines@.len() - i,
        {
            assert(sv.take(i + 1).drop_last() =~= sv.take(i as int));
            assert(sv.take(i + 1).last() == sample_lines@[i as int]@);
            r.process_line(sample_lines[i].as_str());
            i = i + 1;
        }
        assert(sv.take(sample_lines@.len() as int) =~= sv);
        r
    }

    /// Reads one line into the state (`stream_line`).
    pub fn process_line(&mut self, line: &str)
        ensures
            final(self)@ == stream_line(old(self)@, line@),
    {
        proof {
            use_type_invariant(&*self);
        }
        if str_is_blank(line) {
            return;
        }
        let captured = match &self.pattern {
            Some(p) => p.captures(line),
            None => None,
        };
        match captured {
            Some(groups) => {
                let ghost g = groups@.map_values(|o: Option<String>| opt_view(o));
                let ghost f = self.format->0;
                assert(regex_captures(pattern_text(f), line@) == Some(g));
                let format = match self.format {
                    Some(f) => f,
                    None => vstd::pervasive::unreached(),
                };
                if !self.sender.as_str().is_empty() {
                    let mut sender = String::new();
                    let mut content: Vec<char> = Vec::new();
                    std::mem::swap(&mut sender, &mut self.sender);
                    std::mem::swap(&mut content, &mut self.content);
                    match pending_into_message(sender, content, self.timestamp) {
                        Some(m) => {
                            let mut q: Vec<Message> = Vec::new();
                            std::mem::swap(&mut q, &mut self.queued);
                            let ghost prev = q@;
                            q.push(m);
                            assert(msg_views(q@) =~= msg_views(prev).push(m@));
                            std::mem::swap(&mut q, &mut self.queued);
                        },
                        None => {},
                    }
                }
                let date = group_of(&groups, 1);
                let time = group_of(&groups, 2);
                let sender_raw = group_of(&groups, 3);
                self.sender = string_of(&trimmed(&chars_of(sender_raw.as_str())));
                self.content = chars_of(group_of(&groups, 4).as_str());
                self.timestamp = parse_whatsapp_timestamp(date.as_str(), time.as_str(), format);
            },
            None => {
                proof {
                    if self.format is Some {
                        assert(regex_captures(pattern_text(self.format->0), line@) is None);
                    }
                }
                if !self.sender.as_str().is_empty() {
                    let mut c: Vec<char> = Vec::new();
                    std::mem::swap(&mut c, &mut self.content);
                    c.push('\n');
                    push_all(&mut c, &trimmed_end(&chars_of(line)));
                    assert(c@ =~= old(self).content@ + seq!['\n'] + trim_end(line@));
                    std::mem::swap(&mut c, &mut self.content);
                }
            },
        }
    }

    /// What to do next: hand out a queued message, stop when the input has
    /// ended with nothing pending or no layout was detected, else read a
    /// line.
    pub fn next_step(&mut self) -> (s: StreamStep)
        ensures
            old(self)@.queue.len() > 0 ==> (s matches StreamStep::Yield(m) && m@ == old(self)@.queue[0]
                && final(self)@ == (WhatsAppStreamView { queue: old(self)@.queue.drop_first(), ..old(self)@ })),
            old(self)@.queue.len() == 0 && old(self)@.finished && old(self)@.pending.sender.len() == 0
                ==> s is Done && final(self)@ == old(self)@,
            old(self)@.queue.len() == 0 && !(old(self)@.finished && old(self)@.pending.sender.len() == 0)
                && old(self)@.format is None ==> s is Done && final(self)@ == (WhatsAppStreamView {
                finished: true,
                ..old(self)@
            }),
            old(self)@.queue.len() == 0 && !(old(self)@.finished && old(self)@.pending.sender.len() == 0)
                && old(self)@.format is Some ==> s is NeedLine && final(self)@ == old(self)@,
    {
        proof {
            use_type_invariant(&*self);
        }
        if self.queued.len() > 0 {
            let mut q: Vec<Message> = Vec::new();
            std::mem::swap(&mut q, &mut self.queued);
            let ghost prev = q@;
            let m = q.remove(0);
            assert(msg_views(q@) =~= msg_views(prev).drop_first());
            std::mem::swap(&mut q, &mut self.queued);
            return StreamStep::Yield(m);
        }
        if self.finished && self.sender.as_str().is_empty() {
            return StreamStep::Done;
        }
        if self.format.is_none() {
            self.finished = true;
            return StreamStep::Done;
        }
        StreamStep::NeedLine
    }

    /// Reads a line supplied after [`Self::next_step`] asked for one: a
    /// message line completes the pending message, which is returned when
    /// it gives one.
    pub fn on_line(&mut self, line: &str) -> (r: Option<Message>)
        ensures
            match old(self)@.format {
                Some(f) => if regex_is_match(pattern_text(f), line@) {
                    final(self)@ == stream_line(
                        WhatsAppStreamView { pending: no_pending(), ..old(self)@ },
                        line@,
                    ) && match pending_message(old(self)@.pending) {
                        Some(v) => r matches Some(m) && m@ == v,
                        None => r is None,
                    }
                } else {
                    final(self)@ == stream_line(old(self)@, line@) && r is None
                },
                None => final(self)@ == stream_line(old(self)@, line@) && r is None,
            },
    {
        proof {
            use_type_invariant(&*self);
        }
        let starts_message = match &self.pattern {
            Some(p) => p.is_match(line),
            None => false,
        };
        if starts_message {
            let mut sender = String::new();
            let mut content: Vec<char> = Vec::new();
            std::mem::swap(&mut sender, &mut self.sender);
            std::mem::swap(&mut content, &mut self.content);
            let timestamp = self.timestamp;
            self.timestamp = None;
            assert(self@.pending =~= no_pending());
            assert(self@ == (WhatsAppStreamView { pending: no_pending(), ..old(self)@ }));
            self.process_line(line);
            pending_into_message(sender, content, timestamp)
        } else {
            self.process_line(line);
            None
        }
    }

    /// The input has ended: the pending message is returned when it gives
    /// one.
    pub fn on_eof(&mut self) -> (r: Option<Message>)
        ensures
            final(self)@ == (WhatsAppStreamView { finished: true, pending: no_pending(), ..old(self)@ }),
            match pending_message(old(self)@.pending) {
                Some(v) => r matches Some(m) && m@ == v,
                None => r is None,
            },
    {
        proof {
            use_type_invariant(&*self);
        }
        self.finished = true;
        let mut sender = String::new();
        let mut content: Vec<char> = Vec::new();
        std::mem::swap(&mut sender, &mut self.sender);
        std::mem::swap(&mut content, &mut self.content);
        let timestamp = self.timestamp;
        self.timestamp = None;
        assert(self@.pending =~= no_pending());
        pending_into_message(sender, content, timestamp)
    }
}

/// Streaming parser for WhatsApp exports.
pub struct WhatsAppStreamingParser {
    config: StreamingConfig,
}

impl WhatsAppStreamingParser {
    /// The configuration.
    pub closed spec fn config_spec(&self) -> StreamingConfig {
        self.config
    }

    /// A parser with default settings.
    pub fn new() -> (p: WhatsAppStreamingParser)
        ensures
            p.config_spec() == streaming_config_default(),
    {
        WhatsAppStreamingParser { config: StreamingConfig::new() }
    }

    /// A parser with the given settings.
    pub fn with_config(config: StreamingConfig) -> (p: WhatsAppStreamingParser)
        ensures
            p.config_spec() == config,
    {
        WhatsAppStreamingParser { config }
    }

    /// The settings.
    pub fn config(&self) -> (c: StreamingConfig)
        ensures
            c == self.config_spec(),
    {
        self.config
    }

    /// The parser's name.
    pub fn name(&self) -> (s: &'static str)
        ensures
            s@ == "WhatsApp (Streaming)"@,
    {
        "WhatsApp (Streaming)"
    }

    /// The configured read buffer size.
    pub fn recommended_buffer_size(&self) -> (n: usize)
        ensures
            n == self.config_spec().buffer_size,
    {
        self.config.buffer_size
    }
}

impl Default for WhatsAppStreamingParser {
    fn default() -> (p: WhatsAppStreamingParser)
        ensures
            p.config_spec() == streaming_config_default(),
    {
        WhatsAppStreamingParser::new()
    }
}

} // verus!
