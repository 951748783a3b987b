//! Parser for DiscordChatExporter exports, in JSON, TXT or CSV.

use vstd::prelude::*;

use crate::error::{ChatpackError, ParseErrorKind};
use crate::message::{Message, MessageView, msg_views};
use crate::parsing::discord::{
    DiscordExport, append_line, attachment_label, discord_messages, parse_discord_messages,
    push_line, rfc3339_spec, sticker_label,
};
use crate::pattern::{LinePattern, group_of, group_text, opt_view, regex_captures, regex_compile_error};
use crate::text::{
    after_last, after_last_of, all_ws, chars_eq_str, chars_of, contains_seq, contains_str,
    eq_ignore_ascii_case, eq_ignore_case, has_prefix_str, is_blank, lines, push_all,
    push_str_chars, split_lines, split_on, split_on_char, starts_with, string_of, trim, trimmed,
    views,
};
use crate::timestamp::{
    Timestamp, chrono_naive_datetime, first_layout_timestamp, lemma_first_naive_parse_at, parse_first_layout,
    parse_rfc3339, reading_instant,
};

verus! {

/// The three DiscordChatExporter export formats.
#[derive(Debug, Clone, Copy, PartialEq, Eq, Structural)]
pub enum DiscordFormat {
    Json,
    Txt,
    Csv,
}

/// What `std::path::Path::extension` returns for the path: the part of the
/// file name after its final `.`, if any.
pub uninterp spec fn std_path_extension(path: Seq<char>) -> Option<Seq<char>>;

/// Calls `Path::new(path).extension()`.
#[verifier::external_body]
fn path_extension(path: &str) -> (r: Option<String>)
    ensures
        opt_view(r) == std_path_extension(path@),
{
    match std::path::Path::new(path).extension() {
        Some(e) => e.to_str().map(String::from),
        None => None,
    }
}

/// What the `csv` crate reads from the bytes with headers on and flexible
/// record lengths: every record after the header row as its fields, or the
/// text of the first error.
pub uninterp spec fn csv_read(bytes: Seq<u8>) -> Result<Seq<Seq<Seq<char>>>, Seq<char>>;

/// The character views of records of string fields.
pub open spec fn record_views(v: Seq<Vec<String>>) -> Seq<Seq<Seq<char>>> {
    v.map_values(|r: Vec<String>| r@.map_values(|f: String| f@))
}

/// Calls `csv::ReaderBuilder` (headers, flexible) on the bytes and collects
/// the records' fields, stopping at the first error.
#[verifier::external_body]
fn csv_read_records(bytes: &[u8]) -> (r: Result<Vec<Vec<String>>, String>)
    ensures
        match csv_read(bytes@) {
            Ok(recs) => r matches Ok(v) && record_views(v@) == recs,
            Err(e) => r matches Err(m) && m@ == e,
        },
{
    let mut reader = csv::ReaderBuilder::new().has_headers(true).flexible(true).from_reader(bytes);
    reader.records().map(|rec| rec.map(|rec| rec.iter().map(String::from).collect())).collect::<
        Result<Vec<Vec<String>>, csv::Error>,
    >().map_err(|e| e.to_string())
}

/// The format of an export: by the path's extension (`json`, `csv`, `txt`,
/// in any ASCII case), else by content: JSON when the trimmed text starts
/// with `{`, CSV when it starts with `AuthorID,` or contains `","`, TXT
/// otherwise.
pub open spec fn discord_format_spec(path: Seq<char>, content: Seq<char>) -> DiscordFormat {
    let by_ext = match std_path_extension(path) {
        Some(e) => if eq_ignore_ascii_case(e, "json"@) {
            Some(DiscordFormat::Json)
        } else if eq_ignore_ascii_case(e, "csv"@) {
            Some(DiscordFormat::Csv)
        } else if eq_ignore_ascii_case(e, "txt"@) {
            Some(DiscordFormat::Txt)
        } else {
            None
        },
        None => None,
    };
    match by_ext {
        Some(f) => f,
        None => {
            let t = trim(content);
            if starts_with(t, "{"@) {
                DiscordFormat::Json
            } else if starts_with(t, "AuthorID,"@) || contains_seq(t, "\",\""@) {
                DiscordFormat::Csv
            } else {
                DiscordFormat::Txt
            }
        },
    }
}

/// The pattern of a TXT message header, `[M/D/YYYY H:MM AM] sender`; group 1
/// is the date and time, group 2 the sender.
pub open spec fn txt_header_pattern() -> Seq<char> {
    r"^\[(\d{1,2}/\d{1,2}/\d{4}\s+\d{1,2}:\d{2}(?::\d{2})?\s*(?:AM|PM)?)\]\s+(.+)$"@
}

/// The chrono layouts tried, in order, on a TXT header's date and time.
pub open spec fn txt_layouts() -> Seq<Seq<char>> {
    seq!["%m/%d/%Y %I:%M %p"@, "%m/%d/%Y %I:%M:%S %p"@, "%m/%d/%Y %H:%M"@, "%m/%d/%Y %H:%M:%S"@]
}

/// The instant of a TXT header's date and time (trimmed).
pub open spec fn txt_timestamp_spec(s: Seq<char>) -> Option<Timestamp> {
    first_layout_timestamp(trim(s), txt_layouts())
}

/// A TXT header time is read on the 12-hour clock when it has one: whenever
/// chrono reads the trimmed date and time as a 12-hour time with AM/PM
/// (`%I ... %p`, so `11:59 PM` is 23:59), that reading is the timestamp,
/// minutes-only first; the 24-hour layouts count only when no 12-hour one
/// reads the text.
pub proof fn lemma_txt_twelve_hour_clock(s: Seq<char>)
    ensures
        ({
            let t = trim(s);
            let h12 = chrono_naive_datetime(t, "%m/%d/%Y %I:%M %p"@);
            let h12s = chrono_naive_datetime(t, "%m/%d/%Y %I:%M:%S %p"@);
            let h24 = chrono_naive_datetime(t, "%m/%d/%Y %H:%M"@);
            let h24s = chrono_naive_datetime(t, "%m/%d/%Y %H:%M:%S"@);
            &&& h12 is Some ==> txt_timestamp_spec(s) == reading_instant(h12)
            &&& h12 is None && h12s is Some ==> txt_timestamp_spec(s) == reading_instant(h12s)
            &&& h12 is None && h12s is None && h24 is Some ==> txt_timestamp_spec(s) == reading_instant(h24)
            &&& h12 is None && h12s is None && h24 is None && h24s is Some ==> txt_timestamp_spec(s)
                == reading_instant(h24s)
        }),
{
    let t = trim(s);
    let fmts = txt_layouts();
    if chrono_naive_datetime(t, fmts[0]) is Some {
        lemma_first_naive_parse_at(t, fmts, 0);
    } else if chrono_naive_datetime(t, fmts[1]) is Some {
        lemma_first_naive_parse_at(t, fmts, 1);
    } else if chrono_naive_datetime(t, fmts[2]) is Some {
        lemma_first_naive_parse_at(t, fmts, 2);
    } else if chrono_naive_datetime(t, fmts[3]) is Some {
        lemma_first_naive_parse_at(t, fmts, 3);
    }
}

/// Reading state of a TXT export: the messages done, and the message being
/// read with the section (attachments, stickers) its lines belong to.
pub struct TxtState {
    pub msgs: Seq<MessageView>,
    pub sender: Option<Seq<char>>,
    pub timestamp: Option<Timestamp>,
    pub content: Seq<char>,
    pub in_attachments: bool,
    pub in_stickers: bool,
}

/// The state before the first line.
pub open spec fn txt_start() -> TxtState {
    TxtState {
        msgs: Seq::empty(),
        sender: None,
        timestamp: None,
        content: Seq::empty(),
        in_attachments: false,
        in_stickers: false,
    }
}

/// The messages once the message being read is closed: it is kept, with
/// its text trimmed, when its text is not blank.
pub open spec fn txt_flush(st: TxtState) -> Seq<MessageView> {
    match st.sender {
        Some(s) => if all_ws(st.content) {
            st.msgs
        } else {
            st.msgs.push(
                MessageView {
                    sender: s,
                    content: trim(st.content),
                    timestamp: st.timestamp,
                    id: None,
                    reply_to: None,
                    edited: None,
                },
            )
        },
        None => st.msgs,
    }
}

/// The name shown for an attachment or sticker line: the last path segment
/// of a URL (text starting with `http`), else the text itself.
pub open spec fn txt_item_name(t: Seq<char>) -> Seq<char> {
    if starts_with(t, "http"@) {
        after_last(t, '/')
    } else {
        t
    }
}

/// How one TXT line changes the reading state: a header closes the current
/// message and opens a new one; `{Attachments}` and `{Stickers}` switch
/// sections; in a section each non-blank line adds a label; otherwise the
/// line is message text. Lines before the first header are ignored.
pub open spec fn txt_step(st: TxtState, line: Seq<char>) -> TxtState {
    txt_step_with(st, line, regex_captures(txt_header_pattern(), line))
}

/// [`txt_step`] with the header pattern's captures on the line given: the
/// groups when the line is a message header, `None` otherwise.
pub open spec fn txt_step_with(st: TxtState, line: Seq<char>, caps: Option<Seq<Option<Seq<char>>>>) -> TxtState {
    match caps {
        Some(g) => TxtState {
            msgs: txt_flush(st),
            sender: Some(group_text(g, 2)),
            timestamp: txt_timestamp_spec(group_text(g, 1)),
            content: Seq::empty(),
            in_attachments: false,
            in_stickers: false,
        },
        None => if st.sender is None {
            st
        } else if line == "{Attachments}"@ {
            TxtState { in_attachments: true, in_stickers: false, ..st }
        } else if line == "{Stickers}"@ {
            TxtState { in_stickers: true, in_attachments: false, ..st }
        } else if st.in_attachments || st.in_stickers {
            let t = trim(line);
            if t.len() == 0 {
                st
            } else {
                let name = txt_item_name(t);
                let label = if st.in_attachments {
                    attachment_label(name)
                } else {
                    sticker_label(name)
                };
                TxtState { content: append_line(st.content, label), ..st }
            }
        } else {
            TxtState { content: append_line(st.content, line), ..st }
        },
    }
}

/// The reading state after the given lines.
pub open spec fn txt_state(ls: Seq<Seq<char>>) -> TxtState
    decreases ls.len(),
{
    if ls.len() == 0 {
        txt_start()
    } else {
        txt_step(txt_state(ls.drop_last()), ls.last())
    }
}

/// The messages of a TXT export.
pub open spec fn discord_txt_messages(content: Seq<char>) -> Seq<MessageView> {
    txt_flush(txt_state(lines(content)))
}

/// A CSV field by position; empty when the record is shorter.
pub open spec fn csv_field(rec: Seq<Seq<char>>, i: int) -> Seq<char> {
    if 0 <= i < rec.len() {
        rec[i]
    } else {
        Seq::empty()
    }
}

/// `text` followed by one attachment label per non-blank comma-separated
/// URL of `pieces`, named by the URL's last path segment.
pub open spec fn csv_with_attachments(text: Seq<char>, pieces: Seq<Seq<char>>) -> Seq<char>
    decreases pieces.len(),
{
    if pieces.len() == 0 {
        text
    } else {
        let prev = csv_with_attachments(text, pieces.drop_last());
        let u = trim(pieces.last());
        if u.len() == 0 {
            prev
        } else {
            append_line(prev, attachment_label(after_last(u, '/')))
        }
    }
}

/// The message of a CSV record (columns AuthorID, Author, Date, Content,
/// Attachments, ...): none when both content and attachments are blank.
pub open spec fn csv_record_message(rec: Seq<Seq<char>>) -> Option<MessageView> {
    let content = csv_field(rec, 3);
    let atts = csv_field(rec, 4);
    if all_ws(content) && all_ws(atts) {
        None
    } else {
        Some(
            MessageView {
                sender: csv_field(rec, 1),
                content: csv_with_attachments(content, split_on(atts, ',')),
                timestamp: rfc3339_spec(csv_field(rec, 2)),
                id: None,
                reply_to: None,
                edited: None,
            },
        )
    }
}

/// The messages of CSV records, in order.
pub open spec fn csv_messages(recs: Seq<Seq<Seq<char>>>) -> Seq<MessageView>
    decreases recs.len(),
{
    if recs.len() == 0 {
        Seq::empty()
    } else {
        let prev = csv_messages(recs.drop_last());
        match csv_record_message(recs.last()) {
            Some(v) => prev.push(v),
            None => prev,
        }
    }
}

/// Parser for DiscordChatExporter exports.
pub struct DiscordParser;

fn flush(msgs: &mut Vec<Message>, sender: Option<String>, timestamp: Option<Timestamp>, content: &Vec<char>)
    ensures
        msg_views(final(msgs)@) == txt_flush(
            TxtState {
                msgs: msg_views(old(msgs)@),
                sender: opt_view(sender),
                timestamp,
                content: content@,
                in_attachments: false,
                in_stickers: false,
            },
        ),
{
    match sender {
        Some(s) => {
            if !is_blank(content) {
                let ghost prev = msgs@;
                let m = Message::with_metadata(s, string_of(&trimmed(content)), timestamp, None, None, None);
                msgs.push(m);
                assert(msg_views(msgs@) =~= msg_views(prev).push(m@));
            }
        },
        None => {},
    }
}

fn cell(rec: &Vec<String>, i: usize) -> (s: Vec<char>)
    ensures
        s@ == csv_field(rec@.map_values(|f: String| f@), i as int),
{
    if i < rec.len() {
        chars_of(rec[i].as_str())
    } else {
        Vec::new()
    }
}

/// The character views of optional regex captures.
pub open spec fn caps_view(caps: Option<Vec<Option<String>>>) -> Option<Seq<Option<Seq<char>>>> {
    match caps {
        Some(v) => Some(v@.map_values(|g: Option<String>| opt_view(g))),
        None => None,
    }
}

/// The state of reading a TXT export line by line (see [`TxtState`]).
pub struct TxtReader {
    /// The messages done.
    pub msgs: Vec<Message>,
    /// Sender of the message being read, once a header has been seen.
    pub sender: Option<String>,
    /// Instant of the message being read.
    pub timestamp: Option<Timestamp>,
    /// Text of the message being read.
    pub text: Vec<char>,
    /// Whether the lines belong to an `{Attachments}` section.
    pub in_attachments: bool,
    /// Whether the lines belong to a `{Stickers}` section.
    pub in_stickers: bool,
}

impl TxtReader {
    /// The reading state this reader holds.
    pub open spec fn state(&self) -> TxtState {
        TxtState {
            msgs: msg_views(self.msgs@),
            sender: opt_view(self.sender),
            timestamp: self.timestamp,
            content: self.text@,
            in_attachments: self.in_attachments,
            in_stickers: self.in_stickers,
        }
    }

    /// The state before the first line.
    pub fn new() -> (r: TxtReader)
        ensures
            r.state() == txt_start(),
    {
        let r = TxtReader {
            msgs: Vec::new(),
            sender: None,
            timestamp: None,
            text: Vec::new(),
            in_attachments: false,
            in_stickers: false,
        };
        assert(msg_views(r.msgs@) =~= Seq::<MessageView>::empty());
        assert(r.text@ =~= Seq::<char>::empty());
        r
    }

    /// Reads one line, given the header pattern's captures on it (`None`
    /// when the line is not a message header).
    pub fn step(&mut self, line: &[char], caps: Option<Vec<Option<String>>>)
        ensures
            final(self).state() == txt_step_with(old(self).state(), line@, caps_view(caps)),
    {
        match caps {
            Some(groups) => {
                let mut prev_sender: Option<String> = None;
                std::mem::swap(&mut prev_sender, &mut self.sender);
                flush(&mut self.msgs, prev_sender, self.timestamp, &self.text);
                let when = group_of(&groups, 1);
                self.timestamp = DiscordParser::parse_txt_timestamp(when.as_str());
                self.sender = Some(group_of(&groups, 2));
                self.text = Vec::new();
                self.in_attachments = false;
                self.in_stickers = false;
                assert(self.text@ =~= Seq::<char>::empty());
            },
            None => {
                if self.sender.is_some() {
                    if chars_eq_str(line, "{Attachments}") {
                        self.in_attachments = true;
                        self.in_stickers = false;
                    } else if chars_eq_str(line, "{Stickers}") {
                        self.in_stickers = true;
                        self.in_attachments = false;
                    } else if self.in_attachments || self.in_stickers {
                        let t = trimmed(line);
                        if t.len() > 0 {
                            let name = if has_prefix_str(&t, "http") {
                                after_last_of(&t, '/')
                            } else {
                                t
                            };
                            let mut label: Vec<char> = Vec::new();
                            if self.in_attachments {
                                push_str_chars(&mut label, "[Attachment: ");
                            } else {
                                push_str_chars(&mut label, "[Sticker: ");
                            }
                            push_all(&mut label, &name);
                            push_str_chars(&mut label, "]");
                            push_line(&mut self.text, &label);
                        }
                    } else {
                        push_line(&mut self.text, line);
                    }
                }
            },
        }
    }

    /// Closes the message being read and returns all messages.
    pub fn finish(self) -> (v: Vec<Message>)
        ensures
            msg_views(v@) == txt_flush(self.state()),
    {
        let mut msgs = self.msgs;
        flush(&mut msgs, self.sender, self.timestamp, &self.text);
        msgs
    }
}

impl DiscordParser {
    /// A parser.
    pub fn new() -> (p: DiscordParser) {
        DiscordParser
    }

    /// The parser's name.
    pub fn name(&self) -> (s: &'static str)
        ensures
            s@ == "Discord"@,
    {
        "Discord"
    }

    /// Decides the format of an export from its path and, when the extension
    /// does not tell, its content.
    pub fn detect_format(file_path: &str, content: &str) -> (f: DiscordFormat)
        ensures
            f == discord_format_spec(file_path@, content@),
    {
        match path_extension(file_path) {
            Some(ext) => {
                let e = chars_of(ext.as_str());
                if eq_ignore_case(&e, &chars_of("json")) {
                    return DiscordFormat::Json;
                }
                if eq_ignore_case(&e, &chars_of("csv")) {
                    return DiscordFormat::Csv;
                }
                if eq_ignore_case(&e, &chars_of("txt")) {
                    return DiscordFormat::Txt;
                }
            },
            None => {},
        }
        let t = trimmed(&chars_of(content));
        if has_prefix_str(&t, "{") {
            DiscordFormat::Json
        } else if has_prefix_str(&t, "AuthorID,") || contains_str(&t, "\",\"") {
            DiscordFormat::Csv
        } else {
            DiscordFormat::Txt
        }
    }

    /// The messages of a decoded JSON export, in order.
    pub fn parse_export(&self, export: &DiscordExport) -> (r: Vec<Message>)
        ensures
            msg_views(r@) == discord_messages(export.messages@),
    {
        parse_discord_messages(export.messages.as_slice())
    }

    /// Reads the date and time of a TXT header (`M/D/YYYY H:MM AM` and
    /// variants).
    pub fn parse_txt_timestamp(s: &str) -> (r: Option<Timestamp>)
        ensures
            r == txt_timestamp_spec(s@),
    {
        let t = string_of(&trimmed(&chars_of(s)));
        let layouts = vec!["%m/%d/%Y %I:%M %p", "%m/%d/%Y %I:%M:%S %p", "%m/%d/%Y %H:%M", "%m/%d/%Y %H:%M:%S"];
        assert(layouts@.map_values(|f: &'static str| f@) =~= txt_layouts());
        parse_first_layout(t.as_str(), layouts.as_slice())
    }

    /// Parses a TXT export.
    pub fn parse_txt(&self, content: &str) -> (r: Result<Vec<Message>, ChatpackError>)
        ensures
            match regex_compile_error(txt_header_pattern()) {
                None => r matches Ok(v) && msg_views(v@) == discord_txt_messages(content@),
                Some(e) => r matches Err(ChatpackError::Parse { format, source: ParseErrorKind::Pattern(m), path: None })
                    && format@ == "Discord"@ && m@ == e,
            },
    {
        let header = match LinePattern::compile(
            r"^\[(\d{1,2}/\d{1,2}/\d{4}\s+\d{1,2}:\d{2}(?::\d{2})?\s*(?:AM|PM)?)\]\s+(.+)$",
        ) {
            Ok(p) => p,
            Err(e) => {
                return Err(ChatpackError::Parse { format: "Discord", source: ParseErrorKind::Pattern(e), path: None });
            },
        };
        let ls = split_lines(&chars_of(content));
        let ghost lv = views(ls@);
        let mut reader = TxtReader::new();
        let mut i: usize = 0;
        assert(lv.take(0) =~= Seq::<Seq<char>>::empty());
        while i < ls.len()
            invariant
                lv == views(ls@),
                lv == lines(content@),
                0 <= i <= ls@.len(),
                header.pattern() == txt_header_pattern(),
                reader.state() == txt_state(lv.take(i as int)),
            decreases ls@.len() - i,
        {
            let line = &ls[i];
            assert(lv.take(i + 1).drop_last() =~= lv.take(i as int));
            assert(lv.take(i + 1).last() == line@);
            let line_s = string_of(line);
            let caps = header.captures(line_s.as_str());
            proof {
                match regex_captures(txt_header_pattern(), line@) {
                    Some(g) => {
                        assert(caps_view(caps) =~= Some(g));
                    },
                    None => {},
                }
            }
            reader.step(line, caps);
            i = i + 1;
        }
        assert(lv.take(ls@.len() as int) =~= lv);
        Ok(reader.finish())
    }

    /// Parses a CSV export from its bytes; a CSV error when the `csv` crate
    /// rejects them.
    pub fn parse_csv(&self, bytes: &[u8]) -> (r: Result<Vec<Message>, ChatpackError>)
        ensures
            match csv_read(bytes@) {
                Ok(recs) => r matches Ok(v) && msg_views(v@) == csv_messages(recs),
                Err(e) => r matches Err(ChatpackError::Csv(m)) && m@ == e,
            },
    {
        let recs = match csv_read_records(bytes) {
            Ok(v) => v,
            Err(e) => return Err(ChatpackError::Csv(e)),
        };
        Ok(DiscordParser::csv_records_messages(&recs))
    }

    /// The messages of CSV records as the `csv` crate reads them (header
    /// row left out): one per record whose content or attachments are not
    /// blank.
    pub fn csv_records_messages(recs: &Vec<Vec<String>>) -> (v: Vec<Message>)
        ensures
            msg_views(v@) == csv_messages(record_views(recs@)),
    {
        let ghost rv = record_views(recs@);
        let mut msgs: Vec<Message> = Vec::new();
        let mut i: usize = 0;
        while i < recs.len()
            invariant
                rv == record_views(recs@),
                0 <= i <= recs@.len(),
                msg_views(msgs@) == csv_messages(rv.take(i as int)),
            decreases recs@.len() - i,
        {
            assert(rv.take(i + 1).drop_last() =~= rv.take(i as int));
            let rec = &recs[i];
            assert(rv.take(i + 1).last() == rec@.map_values(|f: String| f@));
            let sender = cell(rec, 1);
            let when = cell(rec, 2);
            let mut content = cell(rec, 3);
            let atts = cell(rec, 4);
            if !(is_blank(&content) && is_blank(&atts)) {
                let pieces = split_on_char(&atts, ',');
                let ghost pv = views(pieces@);
                let ghost start = content@;
                let mut k: usize = 0;
                while k < pieces.len()
                    invariant
                        pv == views(pieces@),
                        0 <= k <= pieces@.len(),
                        content@ == csv_with_attachments(start, pv.take(k as int)),
                    decreases pieces@.len() - k,
                {
                    assert(pv.take(k + 1).drop_last() =~= pv.take(k as int));
                    let u = trimmed(&pieces[k]);
                    if u.len() > 0 {
                        let file = after_last_of(&u, '/');
                        let mut label: Vec<char> = Vec::new();
                        push_str_chars(&mut label, "[Attachment: ");
                        push_all(&mut label, &file);
                        push_str_chars(&mut label, "]");
                        push_line(&mut content, &label);
                    }
                    k = k + 1;
                }
                assert(pv.take(pieces@.len() as int) =~= pv);
                let ts = match parse_rfc3339(string_of(&when).as_str()) {
                    Some(p) => Some(Timestamp { secs: p.0, nanos: p.1 }),
                    None => None,
                };
                let ghost prev = msgs@;
                let m = Message::with_metadata(string_of(&sender), string_of(&content), ts, None, None, None);
                msgs.push(m);
                assert(msg_views(msgs@) =~= msg_views(prev).push(m@));
            }
            i = i + 1;
        }
        assert(rv.take(recs@.len() as int) =~= rv);
        msgs
    }
}

impl Default for DiscordParser {
    fn default() -> (p: DiscordParser) {
        DiscordParser::new()
    }
}

} // verus!
