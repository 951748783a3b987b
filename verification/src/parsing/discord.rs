//! Discord export rules (DiscordChatExporter JSON): the raw message record,
//! attachment and sticker labels, and which records become messages.

use vstd::prelude::*;

use crate::message::{Message, MessageView, msg_views};
use crate::text::{all_ws, contains_seq, occurs_at, chars_of, is_blank, parse_u64, parse_u64_spec, push_str_chars, string_of};
use crate::timestamp::{Timestamp, chrono_rfc3339, parse_rfc3339};

verus! {

/// The author of a Discord message.
#[derive(Debug, Clone, PartialEq)]
pub struct DiscordAuthor {
    pub name: String,
    pub nickname: Option<String>,
}

/// The message a Discord message replies to.
#[derive(Debug, Clone, PartialEq)]
pub struct DiscordReference {
    pub message_id: Option<String>,
}

/// A file attached to a Discord message.
#[derive(Debug, Clone, PartialEq)]
pub struct DiscordAttachment {
    pub file_name: String,
}

/// A sticker sent with a Discord message.
#[derive(Debug, Clone, PartialEq)]
pub struct DiscordSticker {
    pub name: String,
}

/// A message record of a DiscordChatExporter JSON export.
#[derive(Debug, Clone, PartialEq)]
pub struct DiscordRawMessage {
    pub id: String,
    pub timestamp: String,
    pub timestamp_edited: Option<String>,
    pub content: String,
    pub author: DiscordAuthor,
    pub reference: Option<DiscordReference>,
    pub attachments: Option<Vec<DiscordAttachment>>,
    pub stickers: Option<Vec<DiscordSticker>>,
}

/// A DiscordChatExporter JSON export: its message records.
#[derive(Debug, Clone, PartialEq)]
pub struct DiscordExport {
    pub messages: Vec<DiscordRawMessage>,
}

/// A message record as read by the streaming reader, which ignores
/// attachments and stickers.
#[derive(Debug, Clone, PartialEq)]
pub struct DiscordStreamMessage {
    pub id: String,
    pub timestamp: String,
    pub timestamp_edited: Option<String>,
    pub content: String,
    pub author: DiscordAuthor,
    pub reference: Option<DiscordReference>,
}

/// `[Attachment: <name>]`.
pub open spec fn attachment_label(name: Seq<char>) -> Seq<char> {
    "[Attachment: "@ + name + "]"@
}

/// `[Sticker: <name>]`.
pub open spec fn sticker_label(name: Seq<char>) -> Seq<char> {
    "[Sticker: "@ + name + "]"@
}

/// `text` followed by one label: after a newline unless `text` is empty.
pub open spec fn append_line(text: Seq<char>, label: Seq<char>) -> Seq<char> {
    if text.len() > 0 {
        text + seq!['\n'] + label
    } else {
        label
    }
}

/// `text` followed by every label in turn, each as by [`append_line`].
pub open spec fn append_lines(text: Seq<char>, labels: Seq<Seq<char>>) -> Seq<char>
    decreases labels.len(),
{
    if labels.len() == 0 {
        text
    } else {
        append_line(append_lines(text, labels.drop_last()), labels.last())
    }
}

/// The labels of a record's attachments, in order.
pub open spec fn attachment_labels(a: Option<Vec<DiscordAttachment>>) -> Seq<Seq<char>> {
    match a {
        Some(v) => v@.map_values(|x: DiscordAttachment| attachment_label(x.file_name@)),
        None => Seq::empty(),
    }
}

/// The labels of a record's stickers, in order.
pub open spec fn sticker_labels(s: Option<Vec<DiscordSticker>>) -> Seq<Seq<char>> {
    match s {
        Some(v) => v@.map_values(|x: DiscordSticker| sticker_label(x.name@)),
        None => Seq::empty(),
    }
}

/// The shown name of an author: the nickname when there is one.
pub open spec fn author_name(a: DiscordAuthor) -> Seq<char> {
    match a.nickname {
        Some(n) => n@,
        None => a.name@,
    }
}

/// An RFC 3339 instant as chrono reads it, in UTC.
pub open spec fn rfc3339_spec(s: Seq<char>) -> Option<Timestamp> {
    match chrono_rfc3339(s) {
        Some(p) => Some(Timestamp { secs: p.0, nanos: p.1 }),
        None => None,
    }
}

/// [`rfc3339_spec`] of an optional string.
pub open spec fn opt_rfc3339(s: Option<String>) -> Option<Timestamp> {
    match s {
        Some(t) => rfc3339_spec(t@),
        None => None,
    }
}

/// The id a reply reference points to, when it spells a `u64`.
pub open spec fn reply_id(r: Option<DiscordReference>) -> Option<u64> {
    match r {
        Some(DiscordReference { message_id: Some(id) }) => parse_u64_spec(id@),
        _ => None,
    }
}

/// The message a record gives: records with blank text and no attachment
/// or sticker give none; the text is followed by one label line per
/// attachment, then one per sticker.
pub open spec fn discord_message_spec(m: DiscordRawMessage) -> Option<MessageView> {
    let atts = attachment_labels(m.attachments);
    let stks = sticker_labels(m.stickers);
    if all_ws(m.content@) && atts.len() == 0 && stks.len() == 0 {
        None
    } else {
        Some(
            MessageView {
                sender: author_name(m.author),
                content: append_lines(append_lines(m.content@, atts), stks),
                timestamp: rfc3339_spec(m.timestamp@),
                id: parse_u64_spec(m.id@),
                reply_to: reply_id(m.reference),
                edited: opt_rfc3339(m.timestamp_edited),
            },
        )
    }
}

/// Appending a label keeps the text as a prefix.
proof fn lemma_append_line_prefix(text: Seq<char>, label: Seq<char>)
    ensures
        append_line(text, label).subrange(0, text.len() as int) == text,
        occurs_at(append_line(text, label), label, append_line(text, label).len() - label.len()),
{
    let r = append_line(text, label);
    if text.len() > 0 {
        assert(r.subrange(0, text.len() as int) =~= text);
        assert(r.subrange(r.len() - label.len(), r.len() as int) =~= label);
    } else {
        assert(r.subrange(0, 0) =~= text);
        assert(r.subrange(0, r.len() as int) =~= label);
    }
}

/// What occurs in a text still occurs once labels are appended, and every
/// appended label occurs in the result.
proof fn lemma_append_lines_contains(text: Seq<char>, labels: Seq<Seq<char>>)
    ensures
        forall|x: Seq<char>| #[trigger] contains_seq(text, x) ==> contains_seq(append_lines(text, labels), x),
        forall|i: int| 0 <= i < labels.len() ==> contains_seq(append_lines(text, labels), #[trigger] labels[i]),
    decreases labels.len(),
{
    if labels.len() > 0 {
        let prev = append_lines(text, labels.drop_last());
        let r = append_lines(text, labels);
        lemma_append_lines_contains(text, labels.drop_last());
        lemma_append_line_prefix(prev, labels.last());
        assert forall|x: Seq<char>| #[trigger] contains_seq(prev, x) implies contains_seq(r, x) by {
            let k = choose|k: int| occurs_at(prev, x, k);
            assert(r.subrange(k, k + x.len()) =~= prev.subrange(k, k + x.len()));
            assert(occurs_at(r, x, k));
        }
        assert forall|i: int| 0 <= i < labels.len() implies contains_seq(r, #[trigger] labels[i]) by {
            if i < labels.len() - 1 {
                assert(labels.drop_last()[i] == labels[i]);
                assert(contains_seq(prev, labels.drop_last()[i]));
            } else {
                assert(occurs_at(r, labels.last(), r.len() - labels.last().len()));
            }
        }
    }
}

/// A Discord record gives no message exactly when its text is blank and it
/// has no attachment and no sticker. A message is sent under the author's
/// nickname when there is one, and its text holds the record's text and a
/// label for every attachment and every sticker.
pub proof fn lemma_discord_message_shape(m: DiscordRawMessage)
    ensures
        discord_message_spec(m) is None <==> (all_ws(m.content@) && attachment_labels(m.attachments).len() == 0
            && sticker_labels(m.stickers).len() == 0),
        discord_message_spec(m) matches Some(v) ==> {
            &&& m.author.nickname matches Some(n) ==> v.sender == n@
            &&& contains_seq(v.content, m.content@)
            &&& forall|i: int|
                0 <= i < attachment_labels(m.attachments).len() ==> contains_seq(
                    v.content,
                    #[trigger] attachment_labels(m.attachments)[i],
                )
            &&& forall|i: int|
                0 <= i < sticker_labels(m.stickers).len() ==> contains_seq(
                    v.content,
                    #[trigger] sticker_labels(m.stickers)[i],
                )
        },
{
    let atts = attachment_labels(m.attachments);
    let stks = sticker_labels(m.stickers);
    let mid = append_lines(m.content@, atts);
    assert(m.content@.subrange(0, m.content@.len() as int) =~= m.content@);
    assert(occurs_at(m.content@, m.content@, 0));
    lemma_append_lines_contains(m.content@, atts);
    lemma_append_lines_contains(mid, stks);
    assert(contains_seq(m.content@, m.content@));
    assert(contains_seq(mid, m.content@));
    assert(contains_seq(append_lines(mid, stks), m.content@));
    assert forall|i: int| 0 <= i < atts.len() implies contains_seq(append_lines(mid, stks), #[trigger] atts[i]) by {
        assert(contains_seq(mid, atts[i]));
    }
}

/// The message a streamed record gives: none when its text is blank.
pub open spec fn discord_stream_message_spec(m: DiscordStreamMessage) -> Option<MessageView> {
    if all_ws(m.content@) {
        None
    } else {
        Some(
            MessageView {
                sender: author_name(m.author),
                content: m.content@,
                timestamp: rfc3339_spec(m.timestamp@),
                id: parse_u64_spec(m.id@),
                reply_to: reply_id(m.reference),
                edited: opt_rfc3339(m.timestamp_edited),
            },
        )
    }
}

/// The messages of a sequence of records, in order, records that give no
/// message dropped.
pub open spec fn discord_messages(ms: Seq<DiscordRawMessage>) -> Seq<MessageView>
    decreases ms.len(),
{
    if ms.len() == 0 {
        Seq::empty()
    } else {
        let prev = discord_messages(ms.drop_last());
        match discord_message_spec(ms.last()) {
            Some(v) => prev.push(v),
            None => prev,
        }
    }
}

/// Appends `label` to `out` as by [`append_line`].
pub fn push_line(out: &mut Vec<char>, label: &[char])
    ensures
        final(out)@ == append_line(old(out)@, label@),
{
    if out.len() > 0 {
        out.push('\n');
    }
    crate::text::push_all(out, label);
    assert(final(out)@ =~= append_line(old(out)@, label@));
}

fn labelled(prefix: &str, name: &str) -> (v: Vec<char>)
    ensures
        v@ == prefix@ + name@ + "]"@,
{
    let mut v: Vec<char> = Vec::new();
    push_str_chars(&mut v, prefix);
    push_str_chars(&mut v, name);
    push_str_chars(&mut v, "]");
    v
}

fn push_attachment_lines(out: &mut Vec<char>, atts: &Vec<DiscordAttachment>)
    ensures
        final(out)@ == append_lines(old(out)@, attachment_labels(Some(*atts))),
{
    let ghost labels = attachment_labels(Some(*atts));
    let ghost start = out@;
    let mut i: usize = 0;
    while i < atts.len()
        invariant
            0 <= i <= atts@.len(),
            labels == atts@.map_values(|x: DiscordAttachment| attachment_label(x.file_name@)),
            out@ == append_lines(start, labels.take(i as int)),
        decreases atts@.len() - i,
    {
        assert(labels.take(i + 1).drop_last() =~= labels.take(i as int));
        let label = labelled("[Attachment: ", atts[i].file_name.as_str());
        push_line(out, &label);
        i = i + 1;
    }
    assert(labels.take(atts@.len() as int) =~= labels);
}

fn push_sticker_lines(out: &mut Vec<char>, stks: &Vec<DiscordSticker>)
    ensures
        final(out)@ == append_lines(old(out)@, sticker_labels(Some(*stks))),
{
    let ghost labels = sticker_labels(Some(*stks));
    let ghost start = out@;
    let mut i: usize = 0;
    while i < stks.len()
        invariant
            0 <= i <= stks@.len(),
            labels == stks@.map_values(|x: DiscordSticker| sticker_label(x.name@)),
            out@ == append_lines(start, labels.take(i as int)),
        decreases stks@.len() - i,
    {
        assert(labels.take(i + 1).drop_last() =~= labels.take(i as int));
        let label = labelled("[Sticker: ", stks[i].name.as_str());
        push_line(out, &label);
        i = i + 1;
    }
    assert(labels.take(stks@.len() as int) =~= labels);
}

fn author_of(a: &DiscordAuthor) -> (s: String)
    ensures
        s@ == author_name(*a),
{
    match &a.nickname {
        Some(n) => n.clone(),
        None => a.name.clone(),
    }
}

fn rfc3339_of(s: &str) -> (r: Option<Timestamp>)
    ensures
        r == rfc3339_spec(s@),
{
    match parse_rfc3339(s) {
        Some(p) => Some(Timestamp { secs: p.0, nanos: p.1 }),
        None => None,
    }
}

fn opt_rfc3339_of(s: &Option<String>) -> (r: Option<Timestamp>)
    ensures
        r == opt_rfc3339(*s),
{
    match s {
        Some(t) => rfc3339_of(t.as_str()),
        None => None,
    }
}

fn reply_id_of(r: &Option<DiscordReference>) -> (id: Option<u64>)
    ensures
        id == reply_id(*r),
{
    match r {
        Some(DiscordReference { message_id: Some(s) }) => parse_u64(&chars_of(s.as_str())),
        _ => None,
    }
}

/// The message a record gives; `None` for a record with blank text and no
/// attachments or stickers.
pub fn parse_discord_message(msg: &DiscordRawMessage) -> (r: Option<Message>)
    ensures
        match r {
            Some(m) => discord_message_spec(*msg) == Some(m@),
            None => discord_message_spec(*msg) is None,
        },
{
    let no_atts = match &msg.attachments {
        Some(a) => a.len() == 0,
        None => true,
    };
    let no_stks = match &msg.stickers {
        Some(s) => s.len() == 0,
        None => true,
    };
    let text = chars_of(msg.content.as_str());
    if is_blank(&text) && no_atts && no_stks {
        return None;
    }
    let mut content = text;
    match &msg.attachments {
        Some(a) => push_attachment_lines(&mut content, a),
        None => {},
    }
    match &msg.stickers {
        Some(s) => push_sticker_lines(&mut content, s),
        None => {},
    }
    let sender = author_of(&msg.author);
    let timestamp = rfc3339_of(msg.timestamp.as_str());
    let edited = opt_rfc3339_of(&msg.timestamp_edited);
    let id = parse_u64(&chars_of(msg.id.as_str()));
    let reply_to = reply_id_of(&msg.reference);
    Some(Message::with_metadata(sender, string_of(&content), timestamp, id, reply_to, edited))
}

/// The message a streamed record gives; `None` when its text is blank.
pub fn parse_discord_stream_message(msg: &DiscordStreamMessage) -> (r: Option<Message>)
    ensures
        match r {
            Some(m) => discord_stream_message_spec(*msg) == Some(m@),
            None => discord_stream_message_spec(*msg) is None,
        },
{
    if is_blank(&chars_of(msg.content.as_str())) {
        return None;
    }
    let sender = author_of(&msg.author);
    let timestamp = rfc3339_of(msg.timestamp.as_str());
    let edited = opt_rfc3339_of(&msg.timestamp_edited);
    let id = parse_u64(&chars_of(msg.id.as_str()));
    let reply_to = reply_id_of(&msg.reference);
    Some(Message::with_metadata(sender, msg.content.clone(), timestamp, id, reply_to, edited))
}

/// The messages of a sequence of records, in order.
pub fn parse_discord_messages(records: &[DiscordRawMessage]) -> (r: Vec<Message>)
    ensures
        msg_views(r@) == discord_messages(records@),
{
    let mut out: Vec<Message> = Vec::new();
    let mut i: usize = 0;
    while i < records.len()
        invariant
            0 <= i <= records@.len(),
            msg_views(out@) == discord_messages(records@.take(i as int)),
        decreases records@.len() - i,
    {
        assert(records@.take(i + 1).drop_last() =~= records@.take(i as int));
        let ghost prev = out@;
        match parse_discord_message(&records[i]) {
            Some(m) => {
                out.push(m);
                assert(msg_views(out@) =~= msg_views(prev).push(m@));
            },
            None => {},
        }
        i = i + 1;
    }
    assert(records@.take(records@.len() as int) =~= records@);
    out
}

} // verus!
