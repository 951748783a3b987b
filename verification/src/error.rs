//! Error types for every chatpack operation.
//!
//! Errors that come from I/O or from outside parsers are carried as their
//! message text.

use vstd::prelude::*;

use crate::text::{push_decimal, push_str_chars, string_of, decimal};

verus! {

/// Kinds of parse errors.
#[derive(Debug, Clone, PartialEq, Eq)]
pub enum ParseErrorKind {
    /// JSON parsing error (its message).
    Json(String),
    /// Line-pattern error.
    Pattern(String),
    /// Any other parse error.
    Other(String),
}

/// Kinds of streaming errors.
#[derive(Debug, Clone, PartialEq, Eq)]
pub enum StreamingErrorKind {
    /// I/O error while streaming (its message).
    Io(String),
    /// JSON error while streaming (its message).
    Json(String),
    /// The input does not have the expected structure.
    InvalidFormat(String),
    /// One message is larger than allowed.
    BufferOverflow { max_size: usize, actual_size: usize },
    /// The input ended inside a message.
    UnexpectedEof,
}

/// The error type of all chatpack operations.
#[derive(Debug, Clone, PartialEq, Eq)]
pub enum ChatpackError {
    /// An I/O error (its message).
    Io(String),
    /// The input could not be parsed.
    Parse { format: &'static str, source: ParseErrorKind, path: Option<String> },
    /// The input does not have the structure of the expected format.
    InvalidFormat { format: &'static str, message: String },
    /// A date filter is not in the expected format.
    InvalidDate { input: String, expected: &'static str },
    /// CSV encoding error (its message).
    Csv(String),
    /// Streaming parser error.
    Streaming(StreamingErrorKind),
    /// Text is not valid UTF-8.
    Utf8 { context: String, message: String },
    /// A single message exceeded the allowed size.
    BufferOverflow { max_size: usize, actual_size: usize },
    /// The input ended before parsing was complete.
    UnexpectedEof { context: String },
}

/// `Result` with [`ChatpackError`].
pub type Result<T> = core::result::Result<T, ChatpackError>;

/// The text `"YYYY-MM-DD"`, the expected layout of date filters.
pub open spec fn date_layout_text() -> Seq<char> {
    seq!['Y', 'Y', 'Y', 'Y', '-', 'M', 'M', '-', 'D', 'D']
}

impl ChatpackError {
    /// An invalid-format error for `format`.
    pub fn invalid_format(format: &'static str, message: String) -> (e: ChatpackError)
        ensures
            e == (ChatpackError::InvalidFormat { format, message }),
    {
        ChatpackError::InvalidFormat { format, message }
    }

    /// An invalid-date error for the given input; the expected layout is
    /// `YYYY-MM-DD`.
    pub fn invalid_date(input: &str) -> (e: ChatpackError)
        ensures
            e matches ChatpackError::InvalidDate { input: i, expected: x } && i@ == input@
                && x@ == date_layout_text(),
    {
        let expected = "YYYY-MM-DD";
        proof {
            reveal_strlit("YYYY-MM-DD");
        }
        ChatpackError::InvalidDate { input: String::from_str(input), expected }
    }

    /// A parse error for Telegram JSON, with the JSON error's message.
    pub fn telegram_parse(message: String, path: Option<String>) -> (e: ChatpackError)
        ensures
            e matches ChatpackError::Parse { format: f, source: ParseErrorKind::Json(m), path: p }
                && m == message && p == path && f@ == "Telegram JSON"@,
    {
        ChatpackError::Parse { format: "Telegram JSON", source: ParseErrorKind::Json(message), path }
    }

    /// A parse error for Instagram JSON, with the JSON error's message.
    pub fn instagram_parse(message: String, path: Option<String>) -> (e: ChatpackError)
        ensures
            e matches ChatpackError::Parse { format: f, source: ParseErrorKind::Json(m), path: p }
                && m == message && p == path && f@ == "Instagram JSON"@,
    {
        ChatpackError::Parse { format: "Instagram JSON", source: ParseErrorKind::Json(message), path }
    }

    /// A parse error for Discord JSON, with the JSON error's message.
    pub fn discord_parse(message: String, path: Option<String>) -> (e: ChatpackError)
        ensures
            e matches ChatpackError::Parse { format: f, source: ParseErrorKind::Json(m), path: p }
                && m == message && p == path && f@ == "Discord"@,
    {
        ChatpackError::Parse { format: "Discord", source: ParseErrorKind::Json(message), path }
    }

    /// A parse error for WhatsApp text.
    pub fn whatsapp_parse(message: String, path: Option<String>) -> (e: ChatpackError)
        ensures
            e matches ChatpackError::Parse { format: f, source: ParseErrorKind::Pattern(m), path: p }
                && m == message && p == path && f@ == "WhatsApp TXT"@,
    {
        ChatpackError::Parse { format: "WhatsApp TXT", source: ParseErrorKind::Pattern(message), path }
    }

    /// A streaming error.
    pub fn streaming(kind: StreamingErrorKind) -> (e: ChatpackError)
        ensures
            e == ChatpackError::Streaming(kind),
    {
        ChatpackError::Streaming(kind)
    }

    /// A buffer-overflow error.
    pub fn buffer_overflow(max_size: usize, actual_size: usize) -> (e: ChatpackError)
        ensures
            e == (ChatpackError::BufferOverflow { max_size, actual_size }),
    {
        ChatpackError::BufferOverflow { max_size, actual_size }
    }

    /// An unexpected-end-of-file error.
    pub fn unexpected_eof(context: &str) -> (e: ChatpackError)
        ensures
            e matches ChatpackError::UnexpectedEof { context: c } && c@ == context@,
    {
        ChatpackError::UnexpectedEof { context: String::from_str(context) }
    }

    /// Whether this is an I/O error.
    pub fn is_io(&self) -> (b: bool)
        ensures
            b == (self is Io),
    {
        matches!(self, ChatpackError::Io(_))
    }

    /// Whether this is a parse error.
    pub fn is_parse(&self) -> (b: bool)
        ensures
            b == (self is Parse),
    {
        matches!(self, ChatpackError::Parse { .. })
    }

    /// Whether this is an invalid-format error.
    pub fn is_invalid_format(&self) -> (b: bool)
        ensures
            b == (self is InvalidFormat),
    {
        matches!(self, ChatpackError::InvalidFormat { .. })
    }

    /// Whether this is an invalid-date error.
    pub fn is_invalid_date(&self) -> (b: bool)
        ensures
            b == (self is InvalidDate),
    {
        matches!(self, ChatpackError::InvalidDate { .. })
    }
}

/// Human-readable text of a parse error kind.
pub open spec fn parse_kind_text(k: ParseErrorKind) -> Seq<char> {
    match k {
        ParseErrorKind::Json(m) => m@,
        ParseErrorKind::Pattern(m) => m@,
        ParseErrorKind::Other(m) => m@,
    }
}

/// Human-readable text of a streaming error kind.
pub open spec fn streaming_kind_text(k: StreamingErrorKind) -> Seq<char> {
    match k {
        StreamingErrorKind::Io(m) => "IO error: "@ + m@,
        StreamingErrorKind::Json(m) => "JSON error: "@ + m@,
        StreamingErrorKind::InvalidFormat(m) => "Invalid format: "@ + m@,
        StreamingErrorKind::BufferOverflow { max_size, actual_size } => "Buffer overflow: "@
            + decimal(actual_size as nat) + " bytes (max: "@ + decimal(max_size as nat) + ")"@,
        StreamingErrorKind::UnexpectedEof => "Unexpected end of file"@,
    }
}

/// Human-readable text of an error.
pub open spec fn error_text(e: ChatpackError) -> Seq<char> {
    match e {
        ChatpackError::Io(m) => "IO error: "@ + m@,
        ChatpackError::Parse { format, source, path } => "Failed to parse "@ + format@ + " export"@
            + (match path {
            Some(p) => " (file: "@ + p@ + ")"@,
            None => Seq::<char>::empty(),
        }) + ": "@ + parse_kind_text(source),
        ChatpackError::InvalidFormat { format, message } => "Invalid "@ + format@ + " format: "@
            + message@,
        ChatpackError::InvalidDate { input, expected } => "Invalid date '"@ + input@
            + "'. Expected format: "@ + expected@,
        ChatpackError::Csv(m) => "CSV error: "@ + m@,
        ChatpackError::Streaming(k) => "Streaming error: "@ + streaming_kind_text(k),
        ChatpackError::Utf8 { context, message } => "UTF-8 encoding error in "@ + context@ + ": "@
            + message@,
        ChatpackError::BufferOverflow { max_size, actual_size } => "Message too large: "@ + decimal(
            actual_size as nat,
        ) + " bytes (maximum: "@ + decimal(max_size as nat) + " bytes)"@,
        ChatpackError::UnexpectedEof { context } => "Unexpected end of file while "@ + context@,
    }
}

fn push_streaming_kind(out: &mut Vec<char>, k: &StreamingErrorKind)
    ensures
        final(out)@ == old(out)@ + streaming_kind_text(*k),
{
    match k {
        StreamingErrorKind::Io(m) => {
            push_str_chars(out, "IO error: ");
            push_str_chars(out, m.as_str());
        },
        StreamingErrorKind::Json(m) => {
            push_str_chars(out, "JSON error: ");
            push_str_chars(out, m.as_str());
        },
        StreamingErrorKind::InvalidFormat(m) => {
            push_str_chars(out, "Invalid format: ");
            push_str_chars(out, m.as_str());
        },
        StreamingErrorKind::BufferOverflow { max_size, actual_size } => {
            push_str_chars(out, "Buffer overflow: ");
            push_decimal(out, *actual_size as u64);
            push_str_chars(out, " bytes (max: ");
            push_decimal(out, *max_size as u64);
            push_str_chars(out, ")");
        },
        StreamingErrorKind::UnexpectedEof => {
            push_str_chars(out, "Unexpected end of file");
        },
    }
    assert(final(out)@ =~= old(out)@ + streaming_kind_text(*k));
}

impl StreamingErrorKind {
    /// The human-readable text of this error kind.
    pub fn to_display_string(&self) -> (s: String)
        ensures
            s@ == streaming_kind_text(*self),
    {
        let mut out: Vec<char> = Vec::new();
        push_streaming_kind(&mut out, self);
        assert(out@ =~= streaming_kind_text(*self));
        string_of(&out)
    }
}

impl ChatpackError {
    /// The human-readable text of this error.
    pub fn to_display_string(&self) -> (s: String)
        ensures
            s@ == error_text(*self),
    {
        let mut out: Vec<char> = Vec::new();
        match self {
            ChatpackError::Io(m) => {
                push_str_chars(&mut out, "IO error: ");
                push_str_chars(&mut out, m.as_str());
            },
            ChatpackError::Parse { format, source, path } => {
                push_str_chars(&mut out, "Failed to parse ");
                push_str_chars(&mut out, format);
                push_str_chars(&mut out, " export");
                match path {
                    Some(p) => {
                        push_str_chars(&mut out, " (file: ");
                        push_str_chars(&mut out, p.as_str());
                        push_str_chars(&mut out, ")");
                    },
                    None => {},
                }
                push_str_chars(&mut out, ": ");
                match source {
                    ParseErrorKind::Json(m) => push_str_chars(&mut out, m.as_str()),
                    ParseErrorKind::Pattern(m) => push_str_chars(&mut out, m.as_str()),
                    ParseErrorKind::Other(m) => push_str_chars(&mut out, m.as_str()),
                }
            },
            ChatpackError::InvalidFormat { format, message } => {
                push_str_chars(&mut out, "Invalid ");
                push_str_chars(&mut out, format);
                push_str_chars(&mut out, " format: ");
                push_str_chars(&mut out, message.as_str());
            },
            ChatpackError::InvalidDate { input, expected } => {
                push_str_chars(&mut out, "Invalid date '");
                push_str_chars(&mut out, input.as_str());
                push_str_chars(&mut out, "'. Expected format: ");
                push_str_chars(&mut out, expected);
            },
            ChatpackError::Csv(m) => {
                push_str_chars(&mut out, "CSV error: ");
                push_str_chars(&mut out, m.as_str());
            },
            ChatpackError::Streaming(k) => {
                push_str_chars(&mut out, "Streaming error: ");
                push_streaming_kind(&mut out, k);
            },
            ChatpackError::Utf8 { context, message } => {
                push_str_chars(&mut out, "UTF-8 encoding error in ");
                push_str_chars(&mut out, context.as_str());
                push_str_chars(&mut out, ": ");
                push_str_chars(&mut out, message.as_str());
            },
            ChatpackError::BufferOverflow { max_size, actual_size } => {
                push_str_chars(&mut out, "Message too large: ");
                push_decimal(&mut out, *actual_size as u64);
                push_str_chars(&mut out, " bytes (maximum: ");
                push_decimal(&mut out, *max_size as u64);
                push_str_chars(&mut out, " bytes)");
            },
            ChatpackError::UnexpectedEof { context } => {
                push_str_chars(&mut out, "Unexpected end of file while ");
                push_str_chars(&mut out, context.as_str());
            },
        }
        assert(out@ =~= error_text(*self));
        string_of(&out)
    }
}

} // verus!
