//! Output encodings: CSV (`;`-delimited), pretty JSON array, and JSON Lines.
//!
//! Field quoting of CSV is done by the `csv` crate and string escaping of JSON
//! by `serde_json`; the layout of records and documents is built here.

use vstd::prelude::*;

use crate::error::ChatpackError;
use crate::message::{Message, MessageView, msg_views};
use crate::processing::models::OutputConfig;
use crate::text::{chars_of, decimal, digit_char, lines, lines_state, push_all, push_decimal, push_str_chars, string_of, strip_cr};
use crate::timestamp::{Timestamp, chrono_format, csv_layout, format_utc, iso_layout};

verus! {

// ---------------------------------------------------------------------------
// Calls into `csv` and `serde_json`
// ---------------------------------------------------------------------------

/// Characters that force a CSV field into quotes: the delimiter `;`, the
/// quote `"`, and the record terminators `\r` and `\n`.
pub open spec fn csv_special(c: char) -> bool {
    c == ';' || c == '"' || c == '\r' || c == '\n'
}

/// Whether a field holds a character that forces quotes.
pub open spec fn csv_needs_quotes(f: Seq<char>) -> bool {
    exists|i: int| 0 <= i < f.len() && csv_special(#[trigger] f[i])
}

/// The field with every `"` doubled.
pub open spec fn csv_doubled(f: Seq<char>) -> Seq<char>
    decreases f.len(),
{
    if f.len() == 0 {
        Seq::empty()
    } else {
        csv_doubled(f.drop_last()) + (if f.last() == '"' { seq!['"', '"'] } else { seq![f.last()] })
    }
}

/// One field as written: in quotes, with quotes doubled, when it holds a
/// special character; as it is otherwise.
pub open spec fn csv_written_field(f: Seq<char>) -> Seq<char> {
    if csv_needs_quotes(f) {
        seq!['"'] + csv_doubled(f) + seq!['"']
    } else {
        f
    }
}

/// The written fields separated by `;`.
pub open spec fn csv_joined(fields: Seq<Seq<char>>) -> Seq<char>
    decreases fields.len(),
{
    if fields.len() == 0 {
        Seq::empty()
    } else if fields.len() == 1 {
        csv_written_field(fields[0])
    } else {
        csv_joined(fields.drop_last()) + seq![';'] + csv_written_field(fields.last())
    }
}

/// What a `csv::Writer` with delimiter `;` and otherwise default settings
/// (quotes only where necessary, quotes escaped by doubling, `\n` record
/// terminator) writes for one record: the joined fields, or `""` when they
/// are empty, then `\n`.
pub open spec fn csv_record(fields: Seq<Seq<char>>) -> Seq<char> {
    (if csv_joined(fields).len() == 0 { seq!['"', '"'] } else { csv_joined(fields) }) + seq!['\n']
}

/// The character views of a vector of strings.
pub open spec fn string_views(v: Seq<String>) -> Seq<Seq<char>> {
    v.map_values(|s: String| s@)
}

/// Encodes one record with a fresh `csv::Writer` writing into memory
/// (delimiter `;`, other settings default), as the `csv` documentation of
/// `QuoteStyle::Necessary`, `double_quote` and `terminator` describes. Writing
/// into a `Vec` cannot fail, a writer's first record cannot have a wrong
/// field count, and the bytes written are the fields' UTF-8 with ASCII
/// quotes, delimiters and terminator added, so the error arms of the body
/// are not taken.
#[verifier::external_body]
fn csv_encode_record(fields: &Vec<String>) -> (r: String)
    ensures
        r@ == csv_record(string_views(fields@)),
{
    let mut w = csv::WriterBuilder::new().delimiter(b';').from_writer(Vec::new());
    if w.write_record(fields).is_err() {
        return String::new();
    }
    match w.into_inner() {
        Ok(bytes) => String::from_utf8(bytes).unwrap_or_default(),
        Err(_) => String::new(),
    }
}

pub open spec fn hex_digit(d: nat) -> char {
    if d < 10 {
        ((d + 48) as u32) as char
    } else {
        ((d + 87) as u32) as char
    }
}

/// How `serde_json` writes one character inside a JSON string: `"` and `\`
/// and the ASCII control characters are escaped (short forms for backspace,
/// tab, line feed, form feed and carriage return, `\u00XX` with lowercase
/// hex otherwise); every other character is written as is.
pub open spec fn json_escape_char(c: char) -> Seq<char> {
    let u = c as u32;
    if c == '"' {
        seq!['\\', '"']
    } else if c == '\\' {
        seq!['\\', '\\']
    } else if u == 0x08 {
        seq!['\\', 'b']
    } else if u == 0x09 {
        seq!['\\', 't']
    } else if u == 0x0A {
        seq!['\\', 'n']
    } else if u == 0x0C {
        seq!['\\', 'f']
    } else if u == 0x0D {
        seq!['\\', 'r']
    } else if u < 0x20 {
        seq!['\\', 'u', '0', '0', hex_digit((u / 16) as nat), hex_digit((u % 16) as nat)]
    } else {
        seq![c]
    }
}

/// The escaped body of a JSON string.
pub open spec fn json_escaped(s: Seq<char>) -> Seq<char>
    decreases s.len(),
{
    if s.len() == 0 {
        Seq::empty()
    } else {
        json_escaped(s.drop_last()) + json_escape_char(s.last())
    }
}

/// A JSON string literal for `s`, as `serde_json` writes it.
pub open spec fn json_quoted(s: Seq<char>) -> Seq<char> {
    seq!['"'] + json_escaped(s) + seq!['"']
}

/// Calls `serde_json::to_string` on a string: the text in double quotes with
/// the escapes of [`json_escape_char`] (serde_json's escape table).
/// Serializing a string cannot fail.
#[verifier::external_body]
pub(crate) fn json_quote(s: &str) -> (r: String)
    ensures
        r@ == json_quoted(s@),
{
    match serde_json::to_string(s) {
        Ok(t) => t,
        Err(_) => String::new(),
    }
}

// ---------------------------------------------------------------------------
// Shared pieces of records
// ---------------------------------------------------------------------------

/// Decimal text of an optional id, empty when absent.
pub open spec fn opt_decimal(v: Option<u64>) -> Seq<char> {
    match v {
        Some(n) => decimal(n as nat),
        None => Seq::empty(),
    }
}

/// Formatted optional instant, empty when absent.
pub open spec fn opt_time(t: Option<Timestamp>, layout: Seq<char>) -> Seq<char> {
    match t {
        Some(ts) => chrono_format(ts.secs, ts.nanos, layout),
        None => Seq::empty(),
    }
}

fn opt_decimal_string(v: Option<u64>) -> (s: String)
    ensures
        s@ == opt_decimal(v),
{
    let mut out: Vec<char> = Vec::new();
    match v {
        Some(n) => push_decimal(&mut out, n),
        None => {},
    }
    assert(out@ =~= opt_decimal(v));
    string_of(&out)
}

fn csv_time_string(t: Option<Timestamp>) -> (s: String)
    ensures
        s@ == opt_time(t, csv_layout()),
{
    match t {
        Some(ts) => {
            let layout = "%Y-%m-%d %H:%M:%S";
            proof {
                reveal_strlit("%Y-%m-%d %H:%M:%S");
            }
            assert(layout@ == csv_layout());
            format_utc(ts.secs, ts.nanos, layout)
        },
        None => String::new(),
    }
}

fn iso_time_string(ts: Timestamp) -> (s: String)
    ensures
        s@ == chrono_format(ts.secs, ts.nanos, iso_layout()),
{
    let layout = "%Y-%m-%dT%H:%M:%SZ";
    proof {
        reveal_strlit("%Y-%m-%dT%H:%M:%SZ");
    }
    assert(layout@ == iso_layout());
    format_utc(ts.secs, ts.nanos, layout)
}

// ---------------------------------------------------------------------------
// CSV
// ---------------------------------------------------------------------------

/// Column names of the CSV header for a configuration.
pub open spec fn csv_header_spec(c: OutputConfig) -> Seq<Seq<char>> {
    (if c.include_ids { seq!["ID"@] } else { Seq::empty() })
        + (if c.include_timestamps { seq!["Timestamp"@] } else { Seq::empty() })
        + seq!["Sender"@, "Content"@]
        + (if c.include_replies { seq!["ReplyTo"@] } else { Seq::empty() })
        + (if c.include_edited { seq!["Edited"@] } else { Seq::empty() })
}

/// CSV fields of one message for a configuration, in header order.
pub open spec fn csv_record_spec(m: MessageView, c: OutputConfig) -> Seq<Seq<char>> {
    (if c.include_ids { seq![opt_decimal(m.id)] } else { Seq::empty() })
        + (if c.include_timestamps { seq![opt_time(m.timestamp, csv_layout())] } else { Seq::empty() })
        + seq![m.sender, m.content]
        + (if c.include_replies { seq![opt_decimal(m.reply_to)] } else { Seq::empty() })
        + (if c.include_edited { seq![opt_time(m.edited, csv_layout())] } else { Seq::empty() })
}

/// The rows of a CSV document: the header, then one record per message.
pub open spec fn csv_rows(ms: Seq<MessageView>, c: OutputConfig) -> Seq<Seq<Seq<char>>> {
    seq![csv_header_spec(c)] + ms.map_values(|m: MessageView| csv_record_spec(m, c))
}

/// The encodings of the rows, concatenated.
pub open spec fn csv_lines(rows: Seq<Seq<Seq<char>>>) -> Seq<char>
    decreases rows.len(),
{
    if rows.len() == 0 {
        Seq::empty()
    } else {
        csv_lines(rows.drop_last()) + csv_record(rows.last())
    }
}

/// Builds the CSV header for a configuration.
pub fn build_header(config: &OutputConfig) -> (h: Vec<&'static str>)
    ensures
        h@.map_values(|s: &'static str| s@) == csv_header_spec(*config),
{
    let mut header: Vec<&'static str> = Vec::new();
    if config.include_ids {
        header.push("ID");
    }
    if config.include_timestamps {
        header.push("Timestamp");
    }
    header.push("Sender");
    header.push("Content");
    if config.include_replies {
        header.push("ReplyTo");
    }
    if config.include_edited {
        header.push("Edited");
    }
    assert(header@.map_values(|s: &'static str| s@) =~= csv_header_spec(*config));
    header
}

fn header_strings(config: &OutputConfig) -> (h: Vec<String>)
    ensures
        string_views(h@) == csv_header_spec(*config),
{
    let names = build_header(config);
    let mut h: Vec<String> = Vec::new();
    let mut i: usize = 0;
    while i < names.len()
        invariant
            0 <= i <= names@.len(),
            names@.map_values(|s: &'static str| s@) == csv_header_spec(*config),
            string_views(h@) =~= names@.subrange(0, i as int).map_values(|s: &'static str| s@),
        decreases names@.len() - i,
    {
        h.push(String::from_str(names[i]));
        assert(names@.subrange(0, i + 1).map_values(|s: &'static str| s@) =~= names@.subrange(
            0,
            i as int,
        ).map_values(|s: &'static str| s@).push(names@[i as int]@));
        i = i + 1;
    }
    assert(names@.subrange(0, names@.len() as int) =~= names@);
    h
}

/// Builds the CSV fields of one message.
pub fn build_record(msg: &Message, config: &OutputConfig) -> (r: Vec<String>)
    ensures
        string_views(r@) == csv_record_spec(msg@, *config),
{
    let mut record: Vec<String> = Vec::new();
    if config.include_ids {
        record.push(opt_decimal_string(msg.id));
    }
    if config.include_timestamps {
        record.push(csv_time_string(msg.timestamp));
    }
    record.push(msg.sender.clone());
    record.push(msg.content.clone());
    if config.include_replies {
        record.push(opt_decimal_string(msg.reply_to));
    }
    if config.include_edited {
        record.push(csv_time_string(msg.edited));
    }
    assert(string_views(record@) =~= csv_record_spec(msg@, *config));
    record
}

/// Encodes messages as `;`-delimited CSV: the header, then one record per
/// message.
pub fn to_csv(messages: &[Message], config: &OutputConfig) -> (r: Result<String, ChatpackError>)
    ensures
        r matches Ok(s) && s@ == csv_lines(csv_rows(msg_views(messages@), *config)),
{
    let ghost rows = csv_rows(msg_views(messages@), *config);
    let header = header_strings(config);
    let mut out: Vec<char> = Vec::new();
    let line = csv_encode_record(&header);
    push_str_chars(&mut out, line.as_str());
    proof {
        assert(rows.subrange(0, 1).drop_last() =~= Seq::<Seq<Seq<char>>>::empty());
        assert(rows.subrange(0, 1).last() == rows[0]);
        assert(rows[0] == csv_header_spec(*config));
        assert(csv_lines(Seq::<Seq<Seq<char>>>::empty()) == Seq::<char>::empty());
        assert(csv_lines(rows.subrange(0, 1)) == Seq::<char>::empty() + csv_record(rows[0]));
        assert(Seq::<char>::empty() + line@ =~= out@);
    }
    let mut i: usize = 0;
    while i < messages.len()
        invariant
            0 <= i <= messages@.len(),
            rows == csv_rows(msg_views(messages@), *config),
            rows.len() == messages@.len() + 1,
            csv_lines(rows.subrange(0, i + 1)) == out@,
        decreases messages@.len() - i,
    {
        let fields = build_record(&messages[i], config);
        assert(rows[i + 1] == csv_record_spec(messages@[i as int]@, *config));
        assert(rows.subrange(0, i + 2).drop_last() =~= rows.subrange(0, i + 1));
        let line = csv_encode_record(&fields);
        push_str_chars(&mut out, line.as_str());
        i = i + 1;
    }
    assert(rows.subrange(0, rows.len() as int) =~= rows);
    Ok(string_of(&out))
}

/// The encoding of some rows is a prefix of the encoding of more rows.
proof fn lemma_csv_lines_prefix(rows: Seq<Seq<Seq<char>>>, k: int)
    requires
        0 <= k <= rows.len(),
    ensures
        csv_lines(rows).len() >= csv_lines(rows.subrange(0, k)).len(),
        csv_lines(rows).subrange(0, csv_lines(rows.subrange(0, k)).len() as int) == csv_lines(rows.subrange(0, k)),
    decreases rows.len() - k,
{
    if k == rows.len() {
        assert(rows.subrange(0, k) =~= rows);
        assert(csv_lines(rows).subrange(0, csv_lines(rows).len() as int) =~= csv_lines(rows));
    } else {
        lemma_csv_lines_prefix(rows, k + 1);
        let a = csv_lines(rows.subrange(0, k));
        let b = csv_lines(rows.subrange(0, k + 1));
        assert(rows.subrange(0, k + 1).drop_last() =~= rows.subrange(0, k));
        assert(b == a + csv_record(rows[k]));
        assert(b.subrange(0, a.len() as int) =~= a);
        assert(csv_lines(rows).subrange(0, a.len() as int) =~= csv_lines(rows).subrange(0, b.len() as int).subrange(
            0,
            a.len() as int,
        ));
    }
}

/// A CSV document starts with its header line; with no optional columns
/// that line is `Sender;Content`.
pub proof fn lemma_csv_starts_with_header(ms: Seq<MessageView>, c: OutputConfig)
    ensures
        csv_lines(csv_rows(ms, c)).len() >= csv_record(csv_header_spec(c)).len(),
        csv_lines(csv_rows(ms, c)).subrange(0, csv_record(csv_header_spec(c)).len() as int) == csv_record(
            csv_header_spec(c),
        ),
        csv_record(
            csv_header_spec(
                OutputConfig {
                    include_timestamps: false,
                    include_ids: false,
                    include_replies: false,
                    include_edited: false,
                },
            ),
        ) == "Sender;Content\n"@,
{
    let rows = csv_rows(ms, c);
    lemma_csv_lines_prefix(rows, 1);
    assert(rows.subrange(0, 1).drop_last() =~= Seq::<Seq<Seq<char>>>::empty());
    assert(rows.subrange(0, 1).last() == rows[0]);
    assert(csv_lines(Seq::<Seq<Seq<char>>>::empty()) == Seq::<char>::empty());
    assert(csv_lines(rows.subrange(0, 1)) =~= csv_record(csv_header_spec(c)));
    let plain = OutputConfig {
        include_timestamps: false,
        include_ids: false,
        include_replies: false,
        include_edited: false,
    };
    reveal_strlit("Sender");
    reveal_strlit("Content");
    reveal_strlit("Sender;Content\n");
    let h = csv_header_spec(plain);
    assert(h =~= seq!["Sender"@, "Content"@]);
    assert(!csv_needs_quotes("Sender"@));
    assert(!csv_needs_quotes("Content"@));
    reveal_strlit("Sender;Content");
    assert(h.drop_last() =~= seq!["Sender"@]);
    assert(csv_joined(seq!["Sender"@]) == csv_written_field("Sender"@));
    assert(csv_written_field("Sender"@) == "Sender"@);
    assert(csv_written_field("Content"@) == "Content"@);
    assert(csv_joined(h) == "Sender"@ + seq![';'] + "Content"@);
    assert(csv_joined(h) =~= "Sender;Content"@);
    assert(csv_record(h) =~= "Sender;Content\n"@);
}

// ---------------------------------------------------------------------------
// JSON Lines
// ---------------------------------------------------------------------------

/// The `"key":value` members of a message object, in output order, for the
/// fields the configuration includes and the message has.
pub open spec fn json_members(m: MessageView, c: OutputConfig) -> Seq<(Seq<char>, Seq<char>)> {
    seq![("sender"@, json_quoted(m.sender)), ("content"@, json_quoted(m.content))]
        + (if c.include_timestamps && m.timestamp is Some {
        seq![("timestamp"@, json_quoted(opt_time(m.timestamp, iso_layout())))]
    } else {
        Seq::empty()
    }) + (if c.include_ids && m.id is Some {
        seq![("id"@, opt_decimal(m.id))]
    } else {
        Seq::empty()
    }) + (if c.include_replies && m.reply_to is Some {
        seq![("reply_to"@, opt_decimal(m.reply_to))]
    } else {
        Seq::empty()
    }) + (if c.include_edited && m.edited is Some {
        seq![("edited"@, json_quoted(opt_time(m.edited, iso_layout())))]
    } else {
        Seq::empty()
    })
}

/// The members of a message object: its sender, its text, then one member
/// for each optional field that is asked for and present.
proof fn lemma_json_members_parts(m: MessageView, c: OutputConfig) -> (parts: (
    Seq<(Seq<char>, Seq<char>)>,
    Seq<(Seq<char>, Seq<char>)>,
    Seq<(Seq<char>, Seq<char>)>,
    Seq<(Seq<char>, Seq<char>)>,
))
    ensures
        json_members(m, c) == seq![("sender"@, json_quoted(m.sender)), ("content"@, json_quoted(m.content))]
            + parts.0 + parts.1 + parts.2 + parts.3,
        parts.0.len() <= 1 && parts.1.len() <= 1 && parts.2.len() <= 1 && parts.3.len() <= 1,
        parts.0.len() == 1 <==> c.include_timestamps && m.timestamp is Some,
        parts.0.len() == 1 ==> parts.0[0] == ("timestamp"@, json_quoted(opt_time(m.timestamp, iso_layout()))),
        parts.1.len() == 1 <==> c.include_ids && m.id is Some,
        parts.1.len() == 1 ==> parts.1[0] == ("id"@, opt_decimal(m.id)),
        parts.2.len() == 1 <==> c.include_replies && m.reply_to is Some,
        parts.2.len() == 1 ==> parts.2[0] == ("reply_to"@, opt_decimal(m.reply_to)),
        parts.3.len() == 1 <==> c.include_edited && m.edited is Some,
        parts.3.len() == 1 ==> parts.3[0] == ("edited"@, json_quoted(opt_time(m.edited, iso_layout()))),
{
    let ts: Seq<(Seq<char>, Seq<char>)> = if c.include_timestamps && m.timestamp is Some {
        seq![("timestamp"@, json_quoted(opt_time(m.timestamp, iso_layout())))]
    } else {
        Seq::empty()
    };
    let id: Seq<(Seq<char>, Seq<char>)> = if c.include_ids && m.id is Some {
        seq![("id"@, opt_decimal(m.id))]
    } else {
        Seq::empty()
    };
    let rp: Seq<(Seq<char>, Seq<char>)> = if c.include_replies && m.reply_to is Some {
        seq![("reply_to"@, opt_decimal(m.reply_to))]
    } else {
        Seq::empty()
    };
    let ed: Seq<(Seq<char>, Seq<char>)> = if c.include_edited && m.edited is Some {
        seq![("edited"@, json_quoted(opt_time(m.edited, iso_layout())))]
    } else {
        Seq::empty()
    };
    (ts, id, rp, ed)
}

/// The lengths of the member keys, which tell them apart.
proof fn lemma_member_key_lengths()
    ensures
        "sender"@.len() == 6,
        "content"@.len() == 7,
        "timestamp"@.len() == 9,
        "id"@.len() == 2,
        "reply_to"@.len() == 8,
        "edited"@.len() == 6,
{
    reveal_strlit("sender");
    reveal_strlit("content");
    reveal_strlit("timestamp");
    reveal_strlit("id");
    reveal_strlit("reply_to");
    reveal_strlit("edited");
}

/// What each member of a message object holds: the object starts with the
/// sender and the text; the message's timestamp, id, reply reference and
/// edit time each appear when the configuration asks for them and the
/// message has them, with their own value; a `reply_to` member appears only
/// then and holds the id of the message replied to, and an `id` member only
/// the message's own id.
pub proof fn lemma_json_members_hold_their_fields(m: MessageView, c: OutputConfig)
    ensures
        json_members(m, c)[0] == ("sender"@, json_quoted(m.sender)),
        json_members(m, c)[1] == ("content"@, json_quoted(m.content)),
        c.include_timestamps && m.timestamp is Some ==> json_members(m, c).contains(
            ("timestamp"@, json_quoted(chrono_format(m.timestamp.unwrap().secs, m.timestamp.unwrap().nanos, iso_layout()))),
        ),
        c.include_ids && m.id is Some ==> json_members(m, c).contains(("id"@, decimal(m.id.unwrap() as nat))),
        c.include_replies && m.reply_to is Some ==> json_members(m, c).contains(
            ("reply_to"@, decimal(m.reply_to.unwrap() as nat)),
        ),
        c.include_edited && m.edited is Some ==> json_members(m, c).contains(
            ("edited"@, json_quoted(chrono_format(m.edited.unwrap().secs, m.edited.unwrap().nanos, iso_layout()))),
        ),
        forall|i: int|
            0 <= i < json_members(m, c).len() && (#[trigger] json_members(m, c)[i]).0 == "reply_to"@ ==> c.include_replies
                && m.reply_to is Some && json_members(m, c)[i].1 == decimal(m.reply_to.unwrap() as nat),
        forall|i: int|
            0 <= i < json_members(m, c).len() && (#[trigger] json_members(m, c)[i]).0 == "id"@ ==> c.include_ids
                && m.id is Some && json_members(m, c)[i].1 == decimal(m.id.unwrap() as nat),
{
    let (ts, id, rp, ed) = lemma_json_members_parts(m, c);
    lemma_member_key_lengths();
    let ms = json_members(m, c);
    let k_id = 2 + ts.len();
    let k_rp = k_id + id.len();
    let k_ed = k_rp + rp.len();
    assert(ms.len() == k_ed + ed.len());
    if ts.len() == 1 {
        assert(ms[2] == ts[0]);
    }
    if id.len() == 1 {
        assert(ms[k_id as int] == id[0]);
    }
    if rp.len() == 1 {
        assert(ms[k_rp as int] == rp[0]);
    }
    if ed.len() == 1 {
        assert(ms[k_ed as int] == ed[0]);
    }
    assert forall|i: int| 0 <= i < ms.len() implies {
        ||| i == 0 && ms[i].0 == "sender"@
        ||| i == 1 && ms[i].0 == "content"@
        ||| 2 <= i < k_id && ms[i] == ts[i - 2]
        ||| k_id <= i < k_rp && ms[i] == id[i - k_id]
        ||| k_rp <= i < k_ed && ms[i] == rp[i - k_rp]
        ||| k_ed <= i && ms[i] == ed[i - k_ed]
    } by {}
    assert forall|i: int| 0 <= i < ms.len() && (#[trigger] ms[i]).0 == "reply_to"@ implies c.include_replies
        && m.reply_to is Some && ms[i].1 == decimal(m.reply_to.unwrap() as nat) by {
        assert(ms[i].0.len() == 8);
    }
    assert forall|i: int| 0 <= i < ms.len() && (#[trigger] ms[i]).0 == "id"@ implies c.include_ids && m.id is Some
        && ms[i].1 == decimal(m.id.unwrap() as nat) by {
        assert(ms[i].0.len() == 2);
    }
}

/// Compact object body: members separated by `,`, key and value by `:`.
pub open spec fn compact_members(ms: Seq<(Seq<char>, Seq<char>)>) -> Seq<char>
    decreases ms.len(),
{
    if ms.len() == 0 {
        Seq::empty()
    } else {
        let prefix = compact_members(ms.drop_last());
        let item = json_quoted(ms.last().0) + seq![':'] + ms.last().1;
        if ms.len() == 1 {
            item
        } else {
            prefix + seq![','] + item
        }
    }
}

/// One JSONL line for a message (without the trailing newline), as
/// `serde_json::to_string` writes the message object.
pub open spec fn jsonl_object(m: MessageView, c: OutputConfig) -> Seq<char> {
    seq!['{'] + compact_members(json_members(m, c)) + seq!['}']
}

/// The whole JSONL document: each message's line followed by `\n`.
pub open spec fn jsonl_document(ms: Seq<MessageView>, c: OutputConfig) -> Seq<char>
    decreases ms.len(),
{
    if ms.len() == 0 {
        Seq::empty()
    } else {
        jsonl_document(ms.drop_last(), c) + jsonl_object(ms.last(), c) + seq!['\n']
    }
}

/// Builds the members of a message object.
fn message_members(msg: &Message, config: &OutputConfig) -> (r: Vec<(String, String)>)
    ensures
        r@.map_values(|p: (String, String)| (p.0@, p.1@)) == json_members(msg@, *config),
{
    let mut r: Vec<(String, String)> = Vec::new();
    r.push((String::from_str("sender"), json_quote(msg.sender.as_str())));
    r.push((String::from_str("content"), json_quote(msg.content.as_str())));
    if config.include_timestamps {
        match msg.timestamp {
            Some(ts) => {
                let t = iso_time_string(ts);
                r.push((String::from_str("timestamp"), json_quote(t.as_str())));
            },
            None => {},
        }
    }
    if config.include_ids {
        match msg.id {
            Some(_) => r.push((String::from_str("id"), opt_decimal_string(msg.id))),
            None => {},
        }
    }
    if config.include_replies {
        match msg.reply_to {
            Some(_) => r.push((String::from_str("reply_to"), opt_decimal_string(msg.reply_to))),
            None => {},
        }
    }
    if config.include_edited {
        match msg.edited {
            Some(ts) => {
                let t = iso_time_string(ts);
                r.push((String::from_str("edited"), json_quote(t.as_str())));
            },
            None => {},
        }
    }
    assert(r@.map_values(|p: (String, String)| (p.0@, p.1@)) =~= json_members(msg@, *config));
    r
}

/// Appends the compact JSON object for one message.
fn push_jsonl_object(out: &mut Vec<char>, msg: &Message, config: &OutputConfig)
    ensures
        final(out)@ == old(out)@ + jsonl_object(msg@, *config),
{
    let members = message_members(msg, config);
    let ghost ms = members@.map_values(|p: (String, String)| (p.0@, p.1@));
    let mut body: Vec<char> = Vec::new();
    let mut i: usize = 0;
    while i < members.len()
        invariant
            0 <= i <= members@.len(),
            ms == members@.map_values(|p: (String, String)| (p.0@, p.1@)),
            body@ == compact_members(ms.subrange(0, i as int)),
        decreases members@.len() - i,
    {
        let ghost pre = ms.subrange(0, i as int);
        assert(ms.subrange(0, i + 1).drop_last() =~= pre);
        assert(ms.subrange(0, i + 1).last() == ms[i as int]);
        if i > 0 {
            body.push(',');
        }
        let key = json_quote(members[i].0.as_str());
        push_str_chars(&mut body, key.as_str());
        body.push(':');
        push_str_chars(&mut body, members[i].1.as_str());
        proof {
            let item = json_quoted(ms[i as int].0) + seq![':'] + ms[i as int].1;
            if i == 0 {
                assert(pre =~= Seq::<(Seq<char>, Seq<char>)>::empty());
                assert(body@ =~= item);
            } else {
                assert(body@ =~= compact_members(pre) + seq![','] + item);
            }
        }
        i = i + 1;
    }
    assert(ms.subrange(0, ms.len() as int) =~= ms);
    out.push('{');
    push_all(out, &body);
    out.push('}');
    assert(final(out)@ =~= old(out)@ + jsonl_object(msg@, *config));
}

/// Encodes messages as JSON Lines: one compact JSON object per message, each
/// followed by a newline.
pub fn to_jsonl(messages: &[Message], config: &OutputConfig) -> (r: Result<String, ChatpackError>)
    ensures
        r matches Ok(s) && s@ == jsonl_document(msg_views(messages@), *config),
{
    let ghost ms = msg_views(messages@);
    let mut out: Vec<char> = Vec::new();
    let mut i: usize = 0;
    while i < messages.len()
        invariant
            0 <= i <= messages@.len(),
            ms == msg_views(messages@),
            out@ == jsonl_document(ms.subrange(0, i as int), *config),
        decreases messages@.len() - i,
    {
        assert(ms.subrange(0, i + 1).drop_last() =~= ms.subrange(0, i as int));
        push_jsonl_object(&mut out, &messages[i], config);
        out.push('\n');
        i = i + 1;
    }
    assert(ms.subrange(0, ms.len() as int) =~= ms);
    Ok(string_of(&out))
}

/// `s` holds no line feed.
pub open spec fn no_newline(s: Seq<char>) -> bool {
    forall|i: int| 0 <= i < s.len() ==> s[i] != '\n'
}

proof fn lemma_no_newline_concat(a: Seq<char>, b: Seq<char>)
    requires
        no_newline(a),
        no_newline(b),
    ensures
        no_newline(a + b),
{
    assert forall|i: int| 0 <= i < (a + b).len() implies (a + b)[i] != '\n' by {
        if i < a.len() {
            assert((a + b)[i] == a[i]);
        } else {
            assert((a + b)[i] == b[i - a.len()]);
        }
    }
}

proof fn lemma_decimal_no_newline(n: nat)
    ensures
        no_newline(decimal(n)),
    decreases n,
{
    if n >= 10 {
        lemma_decimal_no_newline(n / 10);
        lemma_no_newline_concat(decimal(n / 10), seq![digit_char(n % 10)]);
        assert(decimal(n / 10).push(digit_char(n % 10)) =~= decimal(n / 10) + seq![digit_char(n % 10)]);
    }
}

proof fn lemma_quoted_no_newline(s: Seq<char>)
    ensures
        no_newline(json_quoted(s)),
{
    lemma_escaped_no_newline(s);
    lemma_no_newline_concat(seq!['"'], json_escaped(s));
    lemma_no_newline_concat(seq!['"'] + json_escaped(s), seq!['"']);
}

proof fn lemma_escaped_no_newline(s: Seq<char>)
    ensures
        no_newline(json_escaped(s)),
    decreases s.len(),
{
    if s.len() > 0 {
        lemma_escaped_no_newline(s.drop_last());
        let c = s.last();
        let u = c as u32;
        assert(no_newline(json_escape_char(c))) by {
            if u < 0x20 && u != 0x08 && u != 0x09 && u != 0x0A && u != 0x0C && u != 0x0D {
                assert(hex_digit((u / 16) as nat) != '\n');
                assert(hex_digit((u % 16) as nat) != '\n');
            }
        }
        lemma_no_newline_concat(json_escaped(s.drop_last()), json_escape_char(c));
    }
}

proof fn lemma_members_no_newline(ms: Seq<(Seq<char>, Seq<char>)>)
    requires
        forall|i: int| 0 <= i < ms.len() ==> no_newline(#[trigger] ms[i].1),
    ensures
        no_newline(compact_members(ms)),
    decreases ms.len(),
{
    if ms.len() > 0 {
        let d = ms.drop_last();
        assert forall|i: int| 0 <= i < d.len() implies no_newline(#[trigger] d[i].1) by {
            assert(d[i] == ms[i]);
        }
        lemma_members_no_newline(d);
        let item = json_quoted(ms.last().0) + seq![':'] + ms.last().1;
        lemma_quoted_no_newline(ms.last().0);
        lemma_no_newline_concat(json_quoted(ms.last().0), seq![':']);
        assert(no_newline(ms.last().1));
        lemma_no_newline_concat(json_quoted(ms.last().0) + seq![':'], ms.last().1);
        if ms.len() > 1 {
            lemma_no_newline_concat(compact_members(d), seq![',']);
            lemma_no_newline_concat(compact_members(d) + seq![','], item);
        }
    }
}

/// A JSONL line holds no line feed and ends with `}`.
proof fn lemma_jsonl_object_one_line(m: MessageView, c: OutputConfig)
    ensures
        no_newline(jsonl_object(m, c)),
        jsonl_object(m, c).len() > 0,
        jsonl_object(m, c).last() == '}',
{
    let ms = json_members(m, c);
    assert forall|i: int| 0 <= i < ms.len() implies no_newline(#[trigger] ms[i].1) by {
        lemma_quoted_no_newline(m.sender);
        lemma_quoted_no_newline(m.content);
        lemma_quoted_no_newline(opt_time(m.timestamp, iso_layout()));
        lemma_quoted_no_newline(opt_time(m.edited, iso_layout()));
        lemma_decimal_no_newline(m.id.unwrap_or(0) as nat);
        lemma_decimal_no_newline(m.reply_to.unwrap_or(0) as nat);
    }
    lemma_members_no_newline(ms);
    lemma_no_newline_concat(seq!['{'], compact_members(ms));
    lemma_no_newline_concat(seq!['{'] + compact_members(ms), seq!['}']);
}

/// Appending text without line feeds extends the open line.
proof fn lemma_lines_state_plain(p: Seq<char>, q: Seq<char>)
    requires
        no_newline(q),
    ensures
        lines_state(p + q) == (lines_state(p).0, lines_state(p).1 + q),
    decreases q.len(),
{
    if q.len() == 0 {
        assert(p + q =~= p);
        assert(lines_state(p).1 + q =~= lines_state(p).1);
    } else {
        let q1 = q.drop_last();
        assert forall|i: int| 0 <= i < q1.len() implies q1[i] != '\n' by {
            assert(q1[i] == q[i]);
        }
        lemma_lines_state_plain(p, q1);
        assert((p + q).drop_last() =~= p + q1);
        assert((p + q).last() == q.last());
        assert(lines_state(p).1 + q1.push(q.last()) =~= lines_state(p).1 + q);
        assert(q1.push(q.last()) =~= q);
    }
}

/// JSON Lines output has one line per message: its lines are the messages'
/// compact JSON objects, in order.
pub proof fn lemma_jsonl_one_line_per_message(ms: Seq<MessageView>, c: OutputConfig)
    ensures
        lines(jsonl_document(ms, c)) == ms.map_values(|m: MessageView| jsonl_object(m, c)),
        lines_state(jsonl_document(ms, c)).1.len() == 0,
    decreases ms.len(),
{
    if ms.len() == 0 {
        assert(jsonl_document(ms, c) =~= Seq::<char>::empty());
        assert(ms.map_values(|m: MessageView| jsonl_object(m, c)) =~= Seq::<Seq<char>>::empty());
    } else {
        let d = ms.drop_last();
        lemma_jsonl_one_line_per_message(d, c);
        let prefix = jsonl_document(d, c);
        let obj = jsonl_object(ms.last(), c);
        lemma_jsonl_object_one_line(ms.last(), c);
        lemma_lines_state_plain(prefix, obj);
        assert(lines_state(prefix).1 + obj =~= obj);
        let doc = jsonl_document(ms, c);
        assert(doc.drop_last() =~= prefix + obj);
        assert(doc.last() == '\n');
        assert(strip_cr(obj) == obj);
        assert(lines(prefix) == lines_state(prefix).0);
        assert(ms.map_values(|m: MessageView| jsonl_object(m, c)) =~= d.map_values(
            |m: MessageView| jsonl_object(m, c),
        ).push(obj));
    }
}

// ---------------------------------------------------------------------------
// Pretty JSON array
// ---------------------------------------------------------------------------

/// Pretty object body at nesting depth one, as `serde_json`'s pretty printer
/// writes it: each member on its own line indented by four spaces, key and
/// value separated by `": "`.
pub open spec fn pretty_members(ms: Seq<(Seq<char>, Seq<char>)>) -> Seq<char>
    decreases ms.len(),
{
    if ms.len() == 0 {
        Seq::empty()
    } else {
        let sep = if ms.len() == 1 { seq!['\n'] } else { seq![',', '\n'] };
        pretty_members(ms.drop_last()) + sep + seq![' ', ' ', ' ', ' ']
            + json_quoted(ms.last().0) + seq![':', ' '] + ms.last().1
    }
}

/// A message object inside the pretty array.
pub open spec fn pretty_object(m: MessageView, c: OutputConfig) -> Seq<char> {
    seq!['{'] + pretty_members(json_members(m, c)) + seq!['\n', ' ', ' ', '}']
}

/// The elements of the pretty array, each on its own line indented by two
/// spaces.
pub open spec fn pretty_elements(ms: Seq<MessageView>, c: OutputConfig) -> Seq<char>
    decreases ms.len(),
{
    if ms.len() == 0 {
        Seq::empty()
    } else {
        let sep = if ms.len() == 1 { seq!['\n'] } else { seq![',', '\n'] };
        pretty_elements(ms.drop_last(), c) + sep + seq![' ', ' '] + pretty_object(ms.last(), c)
    }
}

/// The pretty JSON array, as `serde_json::to_string_pretty` writes it.
pub open spec fn json_document(ms: Seq<MessageView>, c: OutputConfig) -> Seq<char> {
    if ms.len() == 0 {
        seq!['[', ']']
    } else {
        seq!['['] + pretty_elements(ms, c) + seq!['\n', ']']
    }
}

/// Appends the pretty object for one message.
fn push_pretty_object(out: &mut Vec<char>, msg: &Message, config: &OutputConfig)
    ensures
        final(out)@ == old(out)@ + pretty_object(msg@, *config),
{
    let members = message_members(msg, config);
    let ghost ms = members@.map_values(|p: (String, String)| (p.0@, p.1@));
    let mut body: Vec<char> = Vec::new();
    let mut i: usize = 0;
    while i < members.len()
        invariant
            0 <= i <= members@.len(),
            ms == members@.map_values(|p: (String, String)| (p.0@, p.1@)),
            body@ == pretty_members(ms.subrange(0, i as int)),
        decreases members@.len() - i,
    {
        let ghost pre = ms.subrange(0, i as int);
        assert(ms.subrange(0, i + 1).drop_last() =~= pre);
        assert(ms.subrange(0, i + 1).last() == ms[i as int]);
        if i > 0 {
            body.push(',');
        }
        body.push('\n');
        body.push(' ');
        body.push(' ');
        body.push(' ');
        body.push(' ');
        let key = json_quote(members[i].0.as_str());
        push_str_chars(&mut body, key.as_str());
        body.push(':');
        body.push(' ');
        push_str_chars(&mut body, members[i].1.as_str());
        proof {
            let sep = if i == 0 { seq!['\n'] } else { seq![',', '\n'] };
            assert(body@ =~= pretty_members(pre) + sep + seq![' ', ' ', ' ', ' '] + json_quoted(
                ms[i as int].0,
            ) + seq![':', ' '] + ms[i as int].1);
        }
        i = i + 1;
    }
    assert(ms.subrange(0, ms.len() as int) =~= ms);
    out.push('{');
    push_all(out, &body);
    out.push('\n');
    out.push(' ');
    out.push(' ');
    out.push('}');
    assert(final(out)@ =~= old(out)@ + pretty_object(msg@, *config));
}

/// Encodes messages as a pretty-printed JSON array of objects (two-space
/// indentation, `[]` when there are no messages).
pub fn to_json(messages: &[Message], config: &OutputConfig) -> (r: Result<String, ChatpackError>)
    ensures
        r matches Ok(s) && s@ == json_document(msg_views(messages@), *config),
{
    let ghost ms = msg_views(messages@);
    let mut body: Vec<char> = Vec::new();
    let mut i: usize = 0;
    while i < messages.len()
        invariant
            0 <= i <= messages@.len(),
            ms == msg_views(messages@),
            body@ == pretty_elements(ms.subrange(0, i as int), *config),
        decreases messages@.len() - i,
    {
        let ghost pre = ms.subrange(0, i as int);
        assert(ms.subrange(0, i + 1).drop_last() =~= pre);
        let ghost before = body@;
        if i > 0 {
            body.push(',');
        }
        body.push('\n');
        body.push(' ');
        body.push(' ');
        push_pretty_object(&mut body, &messages[i], config);
        proof {
            let sep = if i == 0 { seq!['\n'] } else { seq![',', '\n'] };
            assert(body@ =~= before + sep + seq![' ', ' '] + pretty_object(ms[i as int], *config));
        }
        i = i + 1;
    }
    assert(ms.subrange(0, ms.len() as int) =~= ms);
    let mut out: Vec<char> = Vec::new();
    out.push('[');
    if messages.len() > 0 {
        push_all(&mut out, &body);
        out.push('\n');
    }
    out.push(']');
    assert(out@ =~= json_document(ms, *config));
    Ok(string_of(&out))
}

} // verus!
