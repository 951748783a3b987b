//! Errors of the streaming readers.

use vstd::prelude::*;

use crate::error::{ChatpackError, StreamingErrorKind};
use crate::text::{decimal, push_decimal, push_str_chars, string_of};

verus! {

/// An error while streaming messages. I/O and JSON errors are carried as
/// their message text.
#[derive(Debug, Clone, PartialEq, Eq)]
pub enum StreamingError {
    /// I/O error (its message).
    Io(String),
    /// JSON error (its message).
    Json(String),
    /// The input does not have the expected structure.
    InvalidFormat(String),
    /// The input ended inside a message.
    UnexpectedEof,
    /// One message is larger than allowed.
    BufferOverflow { max_size: usize, actual_size: usize },
}

/// `Result` with [`StreamingError`].
pub type StreamingResult<T> = core::result::Result<T, StreamingError>;

/// Human-readable text of a streaming error.
pub open spec fn streaming_error_text(e: StreamingError) -> Seq<char> {
    match e {
        StreamingError::Io(m) => "IO error: "@ + m@,
        StreamingError::Json(m) => "JSON error: "@ + m@,
        StreamingError::InvalidFormat(m) => "Invalid format: "@ + m@,
        StreamingError::UnexpectedEof => "Unexpected end of file"@,
        StreamingError::BufferOverflow { max_size, actual_size } => "Message too large: "@
            + decimal(actual_size as nat) + " bytes (max: "@ + decimal(max_size as nat) + ")"@,
    }
}

/// The library error kind a streaming error becomes, variant for variant.
pub open spec fn streaming_kind_of(e: StreamingError) -> StreamingErrorKind {
    match e {
        StreamingError::Io(m) => StreamingErrorKind::Io(m),
        StreamingError::Json(m) => StreamingErrorKind::Json(m),
        StreamingError::InvalidFormat(m) => StreamingErrorKind::InvalidFormat(m),
        StreamingError::UnexpectedEof => StreamingErrorKind::UnexpectedEof,
        StreamingError::BufferOverflow { max_size, actual_size } => StreamingErrorKind::BufferOverflow {
            max_size,
            actual_size,
        },
    }
}

impl StreamingError {
    /// The human-readable text of this error.
    pub fn to_display_string(&self) -> (s: String)
        ensures
            s@ == streaming_error_text(*self),
    {
        let mut out: Vec<char> = Vec::new();
        match self {
            StreamingError::Io(m) => {
                push_str_chars(&mut out, "IO error: ");
                push_str_chars(&mut out, m.as_str());
            },
            StreamingError::Json(m) => {
                push_str_chars(&mut out, "JSON error: ");
                push_str_chars(&mut out, m.as_str());
            },
            StreamingError::InvalidFormat(m) => {
                push_str_chars(&mut out, "Invalid format: ");
                push_str_chars(&mut out, m.as_str());
            },
            StreamingError::UnexpectedEof => {
                push_str_chars(&mut out, "Unexpected end of file");
            },
            StreamingError::BufferOverflow { max_size, actual_size } => {
                push_str_chars(&mut out, "Message too large: ");
                push_decimal(&mut out, *actual_size as u64);
                push_str_chars(&mut out, " bytes (max: ");
                push_decimal(&mut out, *max_size as u64);
                push_str_chars(&mut out, ")");
            },
        }
        assert(out@ =~= streaming_error_text(*self));
        string_of(&out)
    }

    /// The library error this streaming error becomes.
    pub fn into_chatpack_error(self) -> (e: ChatpackError)
        ensures
            e == ChatpackError::Streaming(streaming_kind_of(self)),
    {
        let kind = match self {
            StreamingError::Io(m) => StreamingErrorKind::Io(m),
            StreamingError::Json(m) => StreamingErrorKind::Json(m),
            StreamingError::InvalidFormat(m) => StreamingErrorKind::InvalidFormat(m),
            StreamingError::UnexpectedEof => StreamingErrorKind::UnexpectedEof,
            StreamingError::BufferOverflow { max_size, actual_size } => StreamingErrorKind::BufferOverflow {
                max_size,
                actual_size,
            },
        };
        ChatpackError::Streaming(kind)
    }
}

impl From<StreamingError> for ChatpackError {
    fn from(e: StreamingError) -> (r: ChatpackError) {
        e.into_chatpack_error()
    }
}

impl vstd::std_specs::convert::FromSpecImpl<StreamingError> for ChatpackError {
    open spec fn obeys_from_spec() -> bool {
        true
    }

    open spec fn from_spec(e: StreamingError) -> ChatpackError {
        ChatpackError::Streaming(streaming_kind_of(e))
    }
}

} // verus!
