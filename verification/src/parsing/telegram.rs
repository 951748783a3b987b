//! Telegram export rules: the raw message record, its text field, Unix
//! timestamps, and which records become messages.

use vstd::prelude::*;

use crate::message::{Message, MessageView};
use crate::text::{all_ws, chars_eq_str, chars_of, is_blank, parse_i64, parse_i64_spec, push_str_chars, string_of};
use crate::timestamp::{Timestamp, chrono_from_timestamp, utc_from_timestamp};

verus! {

/// One element of a formatted Telegram text array.
#[derive(Debug, Clone, PartialEq)]
pub enum TextPart {
    /// A plain string element.
    Plain(String),
    /// An entity object (link, bold, mention, ...), with its `text` member
    /// when that member is a string.
    Entity(Option<String>),
    /// Any other JSON value.
    Other,
}

/// The `text` field of a Telegram message: a string, or an array of strings
/// and entity objects.
#[derive(Debug, Clone, PartialEq)]
pub enum TelegramText {
    /// A plain string.
    Plain(String),
    /// An array of text parts.
    Parts(Vec<TextPart>),
    /// Any other JSON value.
    Other,
}

/// A message record of a Telegram export, as read from JSON.
#[derive(Debug, Clone, PartialEq)]
pub struct TelegramRawMessage {
    /// Message id.
    pub id: Option<u64>,
    /// Record type; only `"message"` records are chat messages.
    pub msg_type: String,
    /// Unix time of sending, as a decimal string.
    pub date_unixtime: Option<String>,
    /// Sender name.
    pub from: Option<String>,
    /// Message text.
    pub text: Option<TelegramText>,
    /// Id of the message replied to.
    pub reply_to_message_id: Option<u64>,
    /// Unix time of the last edit, as a decimal string.
    pub edited_unixtime: Option<String>,
}

/// A Telegram export: its message records.
#[derive(Debug, Clone, PartialEq)]
pub struct TelegramExport {
    pub messages: Vec<TelegramRawMessage>,
}

/// The text a part contributes: a plain string itself, an entity its
/// string `text` member, anything else nothing.
pub open spec fn part_text(p: TextPart) -> Seq<char> {
    match p {
        TextPart::Plain(s) => s@,
        TextPart::Entity(Some(t)) => t@,
        _ => Seq::empty(),
    }
}

/// The concatenated text of a sequence of parts.
pub open spec fn parts_text(ps: Seq<TextPart>) -> Seq<char>
    decreases ps.len(),
{
    if ps.len() == 0 {
        Seq::empty()
    } else {
        parts_text(ps.drop_last()) + part_text(ps.last())
    }
}

/// The text of a Telegram `text` field: a string as is, an array as the
/// concatenation of its parts' texts, anything else empty.
pub open spec fn telegram_text(t: TelegramText) -> Seq<char> {
    match t {
        TelegramText::Plain(s) => s@,
        TelegramText::Parts(v) => parts_text(v@),
        TelegramText::Other => Seq::empty(),
    }
}

/// The instant of a Unix-seconds string: the `i64` it spells, read by
/// chrono at zero nanoseconds; `None` when either step fails.
pub open spec fn unix_timestamp_spec(s: Seq<char>) -> Option<Timestamp> {
    match parse_i64_spec(s) {
        Some(v) => match chrono_from_timestamp(v, 0) {
            Some(p) => Some(Timestamp { secs: p.0, nanos: p.1 }),
            None => None,
        },
        None => None,
    }
}

/// [`unix_timestamp_spec`] of an optional string.
pub open spec fn opt_unix_timestamp(s: Option<String>) -> Option<Timestamp> {
    match s {
        Some(t) => unix_timestamp_spec(t@),
        None => None,
    }
}

/// The message a record gives: only `"message"` records with a sender, a
/// text field and non-blank text become messages.
pub open spec fn telegram_message_spec(m: TelegramRawMessage) -> Option<MessageView> {
    if m.msg_type@ != "message"@ {
        None
    } else {
        match (m.from, m.text) {
            (Some(sender), Some(t)) => {
                let content = telegram_text(t);
                if all_ws(content) {
                    None
                } else {
                    Some(
                        MessageView {
                            sender: sender@,
                            content,
                            timestamp: opt_unix_timestamp(m.date_unixtime),
                            id: m.id,
                            reply_to: m.reply_to_message_id,
                            edited: opt_unix_timestamp(m.edited_unixtime),
                        },
                    )
                }
            },
            _ => None,
        }
    }
}

/// The messages of a sequence of records, in order, records that give no
/// message dropped.
pub open spec fn telegram_messages(ms: Seq<TelegramRawMessage>) -> Seq<MessageView>
    decreases ms.len(),
{
    if ms.len() == 0 {
        Seq::empty()
    } else {
        let prev = telegram_messages(ms.drop_last());
        match telegram_message_spec(ms.last()) {
            Some(v) => prev.push(v),
            None => prev,
        }
    }
}

/// Every message read from Telegram records has non-blank text and comes
/// from a `"message"` record (service records never become messages).
pub proof fn lemma_telegram_messages_are_chat(ms: Seq<TelegramRawMessage>)
    ensures
        forall|i: int|
            0 <= i < telegram_messages(ms).len() ==> !all_ws(#[trigger] telegram_messages(ms)[i].content),
        telegram_messages(ms).len() <= ms.len(),
        forall|j: int| 0 <= j < ms.len() && (#[trigger] ms[j]).msg_type@ != "message"@ ==> telegram_message_spec(ms[j]) is None,
    decreases ms.len(),
{
    if ms.len() > 0 {
        lemma_telegram_messages_are_chat(ms.drop_last());
        let prev = telegram_messages(ms.drop_last());
        assert forall|i: int| 0 <= i < telegram_messages(ms).len() implies !all_ws(#[trigger] telegram_messages(ms)[i].content) by {
            if i < prev.len() {
                assert(telegram_messages(ms)[i] == prev[i]);
            }
        }
    }
}

/// The text of a Telegram `text` field as one string.
pub fn extract_telegram_text(text_value: &TelegramText) -> (s: String)
    ensures
        s@ == telegram_text(*text_value),
{
    match text_value {
        TelegramText::Plain(s) => s.clone(),
        TelegramText::Parts(parts) => {
            let mut out: Vec<char> = Vec::new();
            let mut i: usize = 0;
            while i < parts.len()
                invariant
                    0 <= i <= parts@.len(),
                    out@ == parts_text(parts@.take(i as int)),
                decreases parts@.len() - i,
            {
                assert(parts@.take(i + 1).drop_last() =~= parts@.take(i as int));
                match &parts[i] {
                    TextPart::Plain(s) => push_str_chars(&mut out, s.as_str()),
                    TextPart::Entity(Some(t)) => push_str_chars(&mut out, t.as_str()),
                    _ => {},
                }
                i = i + 1;
                assert(out@ =~= parts_text(parts@.take(i as int)));
            }
            assert(parts@.take(parts@.len() as int) =~= parts@);
            string_of(&out)
        },
        TelegramText::Other => String::new(),
    }
}

/// Parses a Unix-seconds string (Telegram stores times as strings such as
/// `"1234567890"`).
pub fn parse_unix_timestamp(ts_str: &str) -> (r: Option<Timestamp>)
    ensures
        r == unix_timestamp_spec(ts_str@),
        parse_i64_spec(ts_str@) matches Some(v) ==> (-8_000_000_000_000 <= v <= 8_000_000_000_000
            ==> r == Some(Timestamp { secs: v, nanos: 0 })),
{
    let cs = chars_of(ts_str);
    match parse_i64(&cs) {
        Some(v) => match utc_from_timestamp(v, 0) {
            Some(p) => Some(Timestamp { secs: p.0, nanos: p.1 }),
            None => None,
        },
        None => None,
    }
}

fn opt_parse_unix_timestamp(s: &Option<String>) -> (r: Option<Timestamp>)
    ensures
        r == opt_unix_timestamp(*s),
{
    match s {
        Some(t) => parse_unix_timestamp(t.as_str()),
        None => None,
    }
}

/// The message a record gives; `None` for records that are not of type
/// `"message"`, lack a sender or text, or whose text is blank.
pub fn parse_telegram_message(msg: &TelegramRawMessage) -> (r: Option<Message>)
    ensures
        match r {
            Some(m) => telegram_message_spec(*msg) == Some(m@),
            None => telegram_message_spec(*msg) is None,
        },
{
    if !chars_eq_str(&chars_of(msg.msg_type.as_str()), "message") {
        return None;
    }
    let sender = match &msg.from {
        Some(s) => s,
        None => return None,
    };
    let text_value = match &msg.text {
        Some(t) => t,
        None => return None,
    };
    let content = extract_telegram_text(text_value);
    if is_blank(&chars_of(content.as_str())) {
        return None;
    }
    let timestamp = opt_parse_unix_timestamp(&msg.date_unixtime);
    let edited = opt_parse_unix_timestamp(&msg.edited_unixtime);
    Some(Message::with_metadata(sender.clone(), content, timestamp, msg.id, msg.reply_to_message_id, edited))
}

/// The messages of a sequence of records, in order, records that give no
/// message dropped.
pub fn parse_telegram_messages(records: &[TelegramRawMessage]) -> (r: Vec<Message>)
    ensures
        crate::message::msg_views(r@) == telegram_messages(records@),
{
    let mut out: Vec<Message> = Vec::new();
    let mut i: usize = 0;
    while i < records.len()
        invariant
            0 <= i <= records@.len(),
            crate::message::msg_views(out@) == telegram_messages(records@.take(i as int)),
        decreases records@.len() - i,
    {
        assert(records@.take(i + 1).drop_last() =~= records@.take(i as int));
        let ghost prev = out@;
        match parse_telegram_message(&records[i]) {
            Some(m) => {
                out.push(m);
                assert(crate::message::msg_views(out@) =~= crate::message::msg_views(prev).push(m@));
            },
            None => {},
        }
        i = i + 1;
    }
    assert(records@.take(records@.len() as int) =~= records@);
    out
}

} // verus!
