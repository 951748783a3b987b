//! The platform-independent chat message.

use vstd::prelude::*;

use crate::text::{all_ws, str_is_blank};
use crate::timestamp::Timestamp;

verus! {

/// A chat message with optional metadata.
///
/// `sender` and `content` are always present; `timestamp`, `id`, `reply_to`
/// and `edited` are filled in when the source export has them.
#[derive(Debug, Clone, PartialEq)]
pub struct Message {
    pub sender: String,
    pub content: String,
    pub timestamp: Option<Timestamp>,
    pub id: Option<u64>,
    pub reply_to: Option<u64>,
    pub edited: Option<Timestamp>,
}

/// The mathematical content of a [`Message`]: its texts as character
/// sequences and its metadata.
#[verifier::ext_equal]
pub struct MessageView {
    pub sender: Seq<char>,
    pub content: Seq<char>,
    pub timestamp: Option<Timestamp>,
    pub id: Option<u64>,
    pub reply_to: Option<u64>,
    pub edited: Option<Timestamp>,
}

impl View for Message {
    type V = MessageView;

    open spec fn view(&self) -> MessageView {
        MessageView {
            sender: self.sender@,
            content: self.content@,
            timestamp: self.timestamp,
            id: self.id,
            reply_to: self.reply_to,
            edited: self.edited,
        }
    }
}

/// The views of a sequence of messages.
pub open spec fn msg_views(ms: Seq<Message>) -> Seq<MessageView> {
    ms.map_values(|m: Message| m@)
}

impl Message {
    /// A message with only sender and content.
    pub fn new(sender: &str, content: &str) -> (m: Message)
        ensures
            m.sender@ == sender@,
            m.content@ == content@,
            m.timestamp is None,
            m.id is None,
            m.reply_to is None,
            m.edited is None,
    {
        Message {
            sender: String::from_str(sender),
            content: String::from_str(content),
            timestamp: None,
            id: None,
            reply_to: None,
            edited: None,
        }
    }

    /// A message with every field given.
    pub fn with_metadata(
        sender: String,
        content: String,
        timestamp: Option<Timestamp>,
        id: Option<u64>,
        reply_to: Option<u64>,
        edited: Option<Timestamp>,
    ) -> (m: Message)
        ensures
            m.sender == sender,
            m.content == content,
            m.timestamp == timestamp,
            m.id == id,
            m.reply_to == reply_to,
            m.edited == edited,
    {
        Message { sender, content, timestamp, id, reply_to, edited }
    }

    /// Sets the timestamp.
    pub fn with_timestamp(self, ts: Timestamp) -> (m: Message)
        ensures
            m == (Message { timestamp: Some(ts), ..self }),
    {
        Message { timestamp: Some(ts), ..self }
    }

    /// Sets the message id.
    pub fn with_id(self, id: u64) -> (m: Message)
        ensures
            m == (Message { id: Some(id), ..self }),
    {
        Message { id: Some(id), ..self }
    }

    /// Sets the id of the message replied to.
    pub fn with_reply_to(self, reply_id: u64) -> (m: Message)
        ensures
            m == (Message { reply_to: Some(reply_id), ..self }),
    {
        Message { reply_to: Some(reply_id), ..self }
    }

    /// Sets the edit timestamp.
    pub fn with_edited(self, ts: Timestamp) -> (m: Message)
        ensures
            m == (Message { edited: Some(ts), ..self }),
    {
        Message { edited: Some(ts), ..self }
    }

    /// The sender name.
    pub fn sender(&self) -> (s: &str)
        ensures
            s@ == self.sender@,
    {
        self.sender.as_str()
    }

    /// The message text.
    pub fn content(&self) -> (s: &str)
        ensures
            s@ == self.content@,
    {
        self.content.as_str()
    }

    /// The timestamp, if known.
    pub fn timestamp(&self) -> (t: Option<Timestamp>)
        ensures
            t == self.timestamp,
    {
        self.timestamp
    }

    /// The message id, if known.
    pub fn id(&self) -> (i: Option<u64>)
        ensures
            i == self.id,
    {
        self.id
    }

    /// The id of the message replied to, if known.
    pub fn reply_to(&self) -> (i: Option<u64>)
        ensures
            i == self.reply_to,
    {
        self.reply_to
    }

    /// The edit timestamp, if known.
    pub fn edited(&self) -> (t: Option<Timestamp>)
        ensures
            t == self.edited,
    {
        self.edited
    }

    /// Whether any of timestamp, id, reply reference or edit time is present.
    pub fn has_metadata(&self) -> (b: bool)
        ensures
            b == (self.timestamp is Some || self.id is Some || self.reply_to is Some
                || self.edited is Some),
    {
        self.timestamp.is_some() || self.id.is_some() || self.reply_to.is_some()
            || self.edited.is_some()
    }

    /// Whether the content is empty or whitespace only.
    pub fn is_empty(&self) -> (b: bool)
        ensures
            b == all_ws(self.content@),
    {
        str_is_blank(self.content.as_str())
    }
}

impl Default for Message {
    fn default() -> (m: Message)
        ensures
            m.sender@ == Seq::<char>::empty(),
            m.content@ == Seq::<char>::empty(),
            m.timestamp is None && m.id is None && m.reply_to is None && m.edited is None,
    {
        Message::with_metadata(String::new(), String::new(), None, None, None, None)
    }
}

} // verus!
