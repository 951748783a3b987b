//! Instagram export rules: the raw message record, Meta's mis-encoded text,
//! millisecond timestamps, and which records become messages.

use vstd::prelude::*;

use crate::message::{Message, MessageView, msg_views};
use crate::text::{all_ws, chars_of, is_ascii_text, is_blank, utf8_decode};
use crate::timestamp::{Timestamp, chrono_from_timestamp, utc_from_millis};

verus! {

/// A shared post or link attached to a message.
#[derive(Debug, Clone, PartialEq)]
pub struct InstagramShare {
    pub share_text: Option<String>,
    pub link: Option<String>,
}

/// A photo, video or audio attachment.
#[derive(Debug, Clone, PartialEq)]
pub struct InstagramMedia {
    pub uri: Option<String>,
}

/// A message record of an Instagram export, as read from JSON.
#[derive(Debug, Clone, PartialEq)]
pub struct InstagramRawMessage {
    pub sender_name: String,
    pub timestamp_ms: i64,
    pub content: Option<String>,
    pub share: Option<InstagramShare>,
    pub photos: Option<Vec<InstagramMedia>>,
    pub videos: Option<Vec<InstagramMedia>>,
    pub audio_files: Option<Vec<InstagramMedia>>,
}

/// An Instagram export: its message records, newest first.
#[derive(Debug, Clone, PartialEq)]
pub struct InstagramExport {
    pub messages: Vec<InstagramRawMessage>,
}

/// The low byte of a character's code point (`c as u8`).
pub open spec fn low_byte(c: char) -> u8 {
    ((c as u32) % 256) as u8
}

/// The byte that Windows-1252 shows as the character with code point `u`,
/// for the characters it places at bytes 0x80 to 0x9F (`€`, `‚`, `Ÿ`, ...);
/// `None` for every other code point.
pub open spec fn windows1252_byte(u: u32) -> Option<u8> {
    if u == 0x20AC {
        Some(0x80u8)
    } else if u == 0x201A {
        Some(0x82u8)
    } else if u == 0x0192 {
        Some(0x83u8)
    } else if u == 0x201E {
        Some(0x84u8)
    } else if u == 0x2026 {
        Some(0x85u8)
    } else if u == 0x2020 {
        Some(0x86u8)
    } else if u == 0x2021 {
        Some(0x87u8)
    } else if u == 0x02C6 {
        Some(0x88u8)
    } else if u == 0x2030 {
        Some(0x89u8)
    } else if u == 0x0160 {
        Some(0x8Au8)
    } else if u == 0x2039 {
        Some(0x8Bu8)
    } else if u == 0x0152 {
        Some(0x8Cu8)
    } else if u == 0x017D {
        Some(0x8Eu8)
    } else if u == 0x2018 {
        Some(0x91u8)
    } else if u == 0x2019 {
        Some(0x92u8)
    } else if u == 0x201C {
        Some(0x93u8)
    } else if u == 0x201D {
        Some(0x94u8)
    } else if u == 0x2022 {
        Some(0x95u8)
    } else if u == 0x2013 {
        Some(0x96u8)
    } else if u == 0x2014 {
        Some(0x97u8)
    } else if u == 0x02DC {
        Some(0x98u8)
    } else if u == 0x2122 {
        Some(0x99u8)
    } else if u == 0x0161 {
        Some(0x9Au8)
    } else if u == 0x203A {
        Some(0x9Bu8)
    } else if u == 0x0153 {
        Some(0x9Cu8)
    } else if u == 0x017E {
        Some(0x9Eu8)
    } else if u == 0x0178 {
        Some(0x9Fu8)
    } else {
        None
    }
}

/// The code point that Windows-1252 shows for byte `b`, for the bytes 0x80
/// to 0x9F it assigns; `None` for every other byte.
pub open spec fn windows1252_char(b: u8) -> Option<u32> {
    if b == 0x80 {
        Some(0x20ACu32)
    } else if b == 0x82 {
        Some(0x201Au32)
    } else if b == 0x83 {
        Some(0x0192u32)
    } else if b == 0x84 {
        Some(0x201Eu32)
    } else if b == 0x85 {
        Some(0x2026u32)
    } else if b == 0x86 {
        Some(0x2020u32)
    } else if b == 0x87 {
        Some(0x2021u32)
    } else if b == 0x88 {
        Some(0x02C6u32)
    } else if b == 0x89 {
        Some(0x2030u32)
    } else if b == 0x8A {
        Some(0x0160u32)
    } else if b == 0x8B {
        Some(0x2039u32)
    } else if b == 0x8C {
        Some(0x0152u32)
    } else if b == 0x8E {
        Some(0x017Du32)
    } else if b == 0x91 {
        Some(0x2018u32)
    } else if b == 0x92 {
        Some(0x2019u32)
    } else if b == 0x93 {
        Some(0x201Cu32)
    } else if b == 0x94 {
        Some(0x201Du32)
    } else if b == 0x95 {
        Some(0x2022u32)
    } else if b == 0x96 {
        Some(0x2013u32)
    } else if b == 0x97 {
        Some(0x2014u32)
    } else if b == 0x98 {
        Some(0x02DCu32)
    } else if b == 0x99 {
        Some(0x2122u32)
    } else if b == 0x9A {
        Some(0x0161u32)
    } else if b == 0x9B {
        Some(0x203Au32)
    } else if b == 0x9C {
        Some(0x0153u32)
    } else if b == 0x9E {
        Some(0x017Eu32)
    } else if b == 0x9F {
        Some(0x0178u32)
    } else {
        None
    }
}

/// The byte a mis-decoded character stands for: its Windows-1252 byte when
/// it is one of the characters Windows-1252 places at 0x80 to 0x9F, else the
/// low byte of its code point (the byte itself for ISO-8859-1 text).
pub open spec fn mojibake_byte(c: char) -> u8 {
    match windows1252_byte(c as u32) {
        Some(b) => b,
        None => low_byte(c),
    }
}

/// Meta exports UTF-8 text as if it were ISO-8859-1 or Windows-1252: every
/// UTF-8 byte became one character. The repair turns each character into a
/// byte ([`mojibake_byte`]: the Windows-1252 byte, else the low byte of the
/// code point) and decodes the bytes as UTF-8; text whose bytes are not
/// valid UTF-8 is kept as it is. Text that was never mis-encoded is turned
/// into bytes the same way, so correct non-Latin text can change.
pub open spec fn mojibake_fixed(s: Seq<char>) -> Seq<char> {
    let bytes = s.map_values(|c: char| mojibake_byte(c));
    if vstd::utf8::valid_utf8(bytes) {
        vstd::utf8::decode_utf8(bytes)
    } else {
        s
    }
}

/// Text read as ISO-8859-1: each byte becomes the character with that code.
pub open spec fn latin1_chars(bytes: Seq<u8>) -> Seq<char> {
    bytes.map_values(|b: u8| b as char)
}

/// The repair undoes Meta's mis-encoding: reading the UTF-8 bytes of any
/// text as ISO-8859-1 and repairing the result gives the text back.
pub proof fn lemma_mojibake_roundtrip(s: Seq<char>)
    ensures
        mojibake_fixed(latin1_chars(vstd::utf8::encode_utf8(s))) == s,
{
    let bytes = vstd::utf8::encode_utf8(s);
    let garbled = latin1_chars(bytes);
    assert(garbled.map_values(|c: char| mojibake_byte(c)) =~= bytes) by {
        assert forall|i: int| 0 <= i < bytes.len() implies #[trigger] mojibake_byte(garbled[i]) == bytes[i] by {
            let b = bytes[i];
            assert((b as char) as u32 == b as u32);
        }
    }
    vstd::utf8::encode_utf8_valid_utf8(s);
    vstd::utf8::encode_utf8_decode_utf8(s);
}

/// The character Windows-1252 shows for a byte: the character it assigns
/// to 0x80 to 0x9F, else the character with the byte's code.
pub open spec fn windows1252_shown(b: u8) -> char {
    match windows1252_char(b) {
        Some(u) => u as char,
        None => b as char,
    }
}

/// Text read as Windows-1252: each byte becomes the character shown for it.
pub open spec fn windows1252_chars(bytes: Seq<u8>) -> Seq<char> {
    bytes.map_values(|b: u8| windows1252_shown(b))
}

/// The character shown for a byte stands for that byte.
proof fn lemma_windows1252_byte_back(b: u8)
    ensures
        mojibake_byte(windows1252_shown(b)) == b,
{
    match windows1252_char(b) {
        Some(u) => {
            assert((u as char) as u32 == u);
        },
        None => {
            assert((b as char) as u32 == b as u32);
        },
    }
}

/// The repair also undoes the Windows-1252 form of the mis-encoding:
/// reading the UTF-8 bytes of any text as Windows-1252 and repairing the
/// result gives the text back.
pub proof fn lemma_mojibake_windows1252_roundtrip(s: Seq<char>)
    ensures
        mojibake_fixed(windows1252_chars(vstd::utf8::encode_utf8(s))) == s,
{
    let bytes = vstd::utf8::encode_utf8(s);
    let garbled = windows1252_chars(bytes);
    assert(garbled.map_values(|c: char| mojibake_byte(c)) =~= bytes) by {
        assert forall|i: int| 0 <= i < bytes.len() implies #[trigger] mojibake_byte(garbled[i]) == bytes[i] by {
            lemma_windows1252_byte_back(bytes[i]);
        }
    }
    vstd::utf8::encode_utf8_valid_utf8(s);
    vstd::utf8::encode_utf8_decode_utf8(s);
}

/// The UTF-8 bytes of ASCII text are its character codes.
proof fn lemma_ascii_encoding(s: Seq<char>)
    requires
        is_ascii_text(s),
    ensures
        latin1_chars(vstd::utf8::encode_utf8(s)) == s,
    decreases s.len(),
{
    if s.len() > 0 {
        let rest = s.drop_first();
        assert(is_ascii_text(rest)) by {
            assert forall|i: int| 0 <= i < rest.len() implies (#[trigger] rest[i] as u32) < 0x80 by {
                assert(rest[i] == s[i + 1]);
            }
        }
        lemma_ascii_encoding(rest);
        let c = s[0];
        let u = c as u32;
        assert(u < 0x80);
        assert(u & 0x7F == u) by (bit_vector)
            requires
                u < 0x80,
        ;
        let b = u as u8;
        assert(b as u32 == u) by (bit_vector)
            requires
                u < 0x80,
                b == u as u8,
        ;
        assert(vstd::utf8::encode_scalar(u) == seq![b]);
        vstd::utf8::char_u32_cast(c, u);
        assert((u as char) == c);
        assert((b as char) == c);
        assert(latin1_chars(vstd::utf8::encode_utf8(s)) =~= seq![c] + latin1_chars(vstd::utf8::encode_utf8(rest)));
        assert(seq![c] + rest =~= s);
    } else {
        assert(latin1_chars(vstd::utf8::encode_utf8(s)) =~= s);
    }
}

/// ASCII text passes through the repair unchanged.
pub proof fn lemma_mojibake_ascii(s: Seq<char>)
    requires
        is_ascii_text(s),
    ensures
        mojibake_fixed(s) == s,
{
    lemma_ascii_encoding(s);
    lemma_mojibake_roundtrip(s);
}

/// The byte a mis-decoded character stands for.
fn mojibake_byte_of(c: char) -> (b: u8)
    ensures
        b == mojibake_byte(c),
{
    let u = c as u32;
    if u == 0x20AC {
        0x80u8
    } else if u == 0x201A {
        0x82u8
    } else if u == 0x0192 {
        0x83u8
    } else if u == 0x201E {
        0x84u8
    } else if u == 0x2026 {
        0x85u8
    } else if u == 0x2020 {
        0x86u8
    } else if u == 0x2021 {
        0x87u8
    } else if u == 0x02C6 {
        0x88u8
    } else if u == 0x2030 {
        0x89u8
    } else if u == 0x0160 {
        0x8Au8
    } else if u == 0x2039 {
        0x8Bu8
    } else if u == 0x0152 {
        0x8Cu8
    } else if u == 0x017D {
        0x8Eu8
    } else if u == 0x2018 {
        0x91u8
    } else if u == 0x2019 {
        0x92u8
    } else if u == 0x201C {
        0x93u8
    } else if u == 0x201D {
        0x94u8
    } else if u == 0x2022 {
        0x95u8
    } else if u == 0x2013 {
        0x96u8
    } else if u == 0x2014 {
        0x97u8
    } else if u == 0x02DC {
        0x98u8
    } else if u == 0x2122 {
        0x99u8
    } else if u == 0x0161 {
        0x9Au8
    } else if u == 0x203A {
        0x9Bu8
    } else if u == 0x0153 {
        0x9Cu8
    } else if u == 0x017E {
        0x9Eu8
    } else if u == 0x0178 {
        0x9Fu8
    } else {
        (u % 256) as u8
    }
}

/// Repairs Meta's mis-encoded text, whether it was read as ISO-8859-1 or
/// as Windows-1252 (for example `"ÐŸÑ€Ð¸Ð²ÐµÑ‚"` back to `"Привет"`: `Ÿ`,
/// `€` and `‚` stand for the bytes 0x9F, 0x80 and 0x82); ASCII text is
/// unchanged.
pub fn fix_mojibake_encoding(s: &str) -> (r: String)
    ensures
        r@ == mojibake_fixed(s@),
{
    let cs = chars_of(s);
    let mut bytes: Vec<u8> = Vec::new();
    let mut i: usize = 0;
    while i < cs.len()
        invariant
            0 <= i <= cs@.len(),
            cs@ == s@,
            bytes@ == cs@.take(i as int).map_values(|c: char| mojibake_byte(c)),
        decreases cs@.len() - i,
    {
        let b = mojibake_byte_of(cs[i]);
        bytes.push(b);
        i = i + 1;
        assert(bytes@ =~= cs@.take(i as int).map_values(|c: char| mojibake_byte(c)));
    }
    assert(cs@.take(cs@.len() as int) =~= cs@);
    match utf8_decode(bytes) {
        Some(t) => t,
        None => String::from_str(s),
    }
}

/// The instant of a millisecond Unix time, as chrono reads it.
pub open spec fn ms_timestamp_spec(ms: i64) -> Option<Timestamp> {
    match chrono_from_timestamp((ms / 1000) as i64, ((ms % 1000) * 1_000_000) as u32) {
        Some(p) => Some(Timestamp { secs: p.0, nanos: p.1 }),
        None => None,
    }
}

/// Reads a millisecond Unix time; `None` when chrono cannot represent it.
pub fn parse_ms_timestamp(timestamp_ms: i64) -> (r: Option<Timestamp>)
    ensures
        r == ms_timestamp_spec(timestamp_ms),
        r matches Some(t) ==> t.secs == timestamp_ms / 1000 && t.nanos == (timestamp_ms % 1000) * 1_000_000,
        -8_000_000_000_000_000 <= timestamp_ms <= 8_000_000_000_000_000 ==> r is Some,
{
    match utc_from_millis(timestamp_ms) {
        Some(p) => Some(Timestamp { secs: p.0, nanos: p.1 }),
        None => None,
    }
}

/// The raw text of a record: its `content`, else the text of its shared
/// post.
pub open spec fn raw_content(m: InstagramRawMessage) -> Option<Seq<char>> {
    match m.content {
        Some(c) => Some(c@),
        None => match m.share {
            Some(sh) => match sh.share_text {
                Some(t) => Some(t@),
                None => None,
            },
            None => None,
        },
    }
}

/// `s` repaired when `fix` is set.
pub open spec fn maybe_fixed(s: Seq<char>, fix: bool) -> Seq<char> {
    if fix {
        mojibake_fixed(s)
    } else {
        s
    }
}

/// The message a record gives: records without text, or with blank text,
/// give none; with `fix` set, sender and text are repaired.
pub open spec fn instagram_message_spec(m: InstagramRawMessage, fix: bool) -> Option<MessageView> {
    match raw_content(m) {
        Some(c) => {
            let content = maybe_fixed(c, fix);
            if all_ws(content) {
                None
            } else {
                Some(
                    MessageView {
                        sender: maybe_fixed(m.sender_name@, fix),
                        content,
                        timestamp: ms_timestamp_spec(m.timestamp_ms),
                        id: None,
                        reply_to: None,
                        edited: None,
                    },
                )
            }
        },
        None => None,
    }
}

/// A record's own text comes first: when a record has text, the message
/// (if any) carries that text, repaired when `fix` is set, and the shared
/// post plays no part; a record whose text is blank gives no message, even
/// with a shared post.
pub proof fn lemma_instagram_text_first(m: InstagramRawMessage, fix: bool)
    ensures
        m.content matches Some(c) ==> {
            &&& !all_ws(maybe_fixed(c@, fix)) ==> instagram_message_spec(m, fix) is Some
                && instagram_message_spec(m, fix).unwrap().content == maybe_fixed(c@, fix)
                && instagram_message_spec(m, fix).unwrap().sender == maybe_fixed(m.sender_name@, fix)
            &&& all_ws(maybe_fixed(c@, fix)) ==> instagram_message_spec(m, fix) is None
            &&& instagram_message_spec(m, fix) == instagram_message_spec(InstagramRawMessage { share: None, ..m }, fix)
        },
{
}

/// A record with neither text nor a shared post gives no message. A record
/// without text whose shared post has ASCII, non-blank text gives a message
/// with exactly that text, whether or not the encoding is repaired.
pub proof fn lemma_instagram_share_fallback(m: InstagramRawMessage, fix: bool)
    ensures
        m.content is None && m.share is None ==> instagram_message_spec(m, fix) is None,
        m.content is None && raw_content(m) is Some && is_ascii_text(raw_content(m).unwrap()) && !all_ws(
            raw_content(m).unwrap(),
        ) ==> instagram_message_spec(m, fix) is Some && instagram_message_spec(m, fix).unwrap().content
            == raw_content(m).unwrap(),
{
    if m.content is None {
        if let Some(sh) = m.share {
            if let Some(t) = sh.share_text {
                if is_ascii_text(t@) {
                    lemma_mojibake_ascii(t@);
                }
            }
        }
    }
}

/// The messages of a sequence of records, in record order, records that
/// give no message dropped.
pub open spec fn instagram_messages(ms: Seq<InstagramRawMessage>, fix: bool) -> Seq<MessageView>
    decreases ms.len(),
{
    if ms.len() == 0 {
        Seq::empty()
    } else {
        let prev = instagram_messages(ms.drop_last(), fix);
        match instagram_message_spec(ms.last(), fix) {
            Some(v) => prev.push(v),
            None => prev,
        }
    }
}

fn fixed_if(s: &str, fix: bool) -> (r: String)
    ensures
        r@ == maybe_fixed(s@, fix),
{
    if fix {
        fix_mojibake_encoding(s)
    } else {
        String::from_str(s)
    }
}

/// The message a record gives; `None` when it has no text or its text is
/// blank. With `fix_encoding` set, sender and text are repaired.
pub fn parse_instagram_message(msg: &InstagramRawMessage, fix_encoding: bool) -> (r: Option<Message>)
    ensures
        match r {
            Some(m) => instagram_message_spec(*msg, fix_encoding) == Some(m@),
            None => instagram_message_spec(*msg, fix_encoding) is None,
        },
{
    let raw: Option<&String> = match &msg.content {
        Some(c) => Some(c),
        None => match &msg.share {
            Some(sh) => match &sh.share_text {
                Some(t) => Some(t),
                None => None,
            },
            None => None,
        },
    };
    let raw = match raw {
        Some(c) => c,
        None => return None,
    };
    let content = fixed_if(raw.as_str(), fix_encoding);
    if is_blank(&chars_of(content.as_str())) {
        return None;
    }
    let timestamp = parse_ms_timestamp(msg.timestamp_ms);
    let sender = fixed_if(msg.sender_name.as_str(), fix_encoding);
    Some(Message::with_metadata(sender, content, timestamp, None, None, None))
}

/// The messages of a sequence of records, in record order.
pub fn parse_instagram_messages(records: &[InstagramRawMessage], fix_encoding: bool) -> (r: Vec<Message>)
    ensures
        msg_views(r@) == instagram_messages(records@, fix_encoding),
{
    let mut out: Vec<Message> = Vec::new();
    let mut i: usize = 0;
    while i < records.len()
        invariant
            0 <= i <= records@.len(),
            msg_views(out@) == instagram_messages(records@.take(i as int), fix_encoding),
        decreases records@.len() - i,
    {
        assert(records@.take(i + 1).drop_last() =~= records@.take(i as int));
        let ghost prev = out@;
        match parse_instagram_message(&records[i], fix_encoding) {
            Some(m) => {
                out.push(m);
                assert(msg_views(out@) =~= msg_views(prev).push(m@));
            },
            None => {},
        }
        i = i + 1;
    }
    assert(records@.take(records@.len() as int) =~= records@);
    out
}

} // verus!
