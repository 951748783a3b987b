//! Settings shared by the streaming readers.

use vstd::prelude::*;

use crate::message::Message;
use crate::streaming::error::{StreamingError, StreamingResult};

verus! {

/// Settings of a streaming reader.
#[derive(Debug, Clone, Copy, PartialEq, Eq, Structural)]
pub struct StreamingConfig {
    /// Read buffer size, in bytes.
    pub buffer_size: usize,
    /// Largest accepted single message, in bytes.
    pub max_message_size: usize,
    /// Skip invalid messages instead of yielding errors.
    pub skip_invalid: bool,
    /// How often (in messages) progress is reported.
    pub progress_interval: usize,
}

/// Default streaming settings: 64 KiB buffer, 10 MiB messages, invalid
/// messages skipped, progress every 10 000 messages.
pub open spec fn streaming_config_default() -> StreamingConfig {
    StreamingConfig {
        buffer_size: 65_536usize,
        max_message_size: 10_485_760usize,
        skip_invalid: true,
        progress_interval: 10_000usize,
    }
}

impl StreamingConfig {
    /// Default settings.
    pub fn new() -> (c: StreamingConfig)
        ensures
            c == streaming_config_default(),
    {
        StreamingConfig {
            buffer_size: 65_536usize,
            max_message_size: 10_485_760usize,
            skip_invalid: true,
            progress_interval: 10_000usize,
        }
    }

    /// Sets `buffer_size`.
    pub fn with_buffer_size(self, size: usize) -> (c: StreamingConfig)
        ensures
            c == (StreamingConfig { buffer_size: size, ..self }),
    {
        StreamingConfig { buffer_size: size, ..self }
    }

    /// Sets `max_message_size`.
    pub fn with_max_message_size(self, size: usize) -> (c: StreamingConfig)
        ensures
            c == (StreamingConfig { max_message_size: size, ..self }),
    {
        StreamingConfig { max_message_size: size, ..self }
    }

    /// Sets `skip_invalid`.
    pub fn with_skip_invalid(self, skip: bool) -> (c: StreamingConfig)
        ensures
            c == (StreamingConfig { skip_invalid: skip, ..self }),
    {
        StreamingConfig { skip_invalid: skip, ..self }
    }

    /// Sets `progress_interval`.
    pub fn with_progress_interval(self, interval: usize) -> (c: StreamingConfig)
        ensures
            c == (StreamingConfig { progress_interval: interval, ..self }),
    {
        StreamingConfig { progress_interval: interval, ..self }
    }
}

impl Default for StreamingConfig {
    fn default() -> (c: StreamingConfig)
        ensures
            c == streaming_config_default(),
    {
        StreamingConfig::new()
    }
}

/// What a streaming reader does after trying to read one record.
pub enum RecordStep {
    /// Hand out this message.
    Yield(Message),
    /// Read the next record.
    Skip,
    /// The records are exhausted.
    Stop,
    /// Hand out this error.
    Fail(StreamingError),
}

/// The step for the outcome of reading one record: `Ok(Some(Some(m)))` a
/// record holding message `m`, `Ok(Some(None))` a record holding none (a
/// service message, an empty line), `Ok(None)` the end of the records,
/// `Err(e)` a record that could not be read or decoded. Errors are skipped
/// when `skip_invalid` is set and handed out otherwise.
pub fn record_step(outcome: StreamingResult<Option<Option<Message>>>, skip_invalid: bool) -> (s: RecordStep)
    ensures
        match outcome {
            Ok(Some(Some(m))) => s == RecordStep::Yield(m),
            Ok(Some(None)) => s is Skip,
            Ok(None) => s is Stop,
            Err(e) => if skip_invalid { s is Skip } else { s == RecordStep::Fail(e) },
        },
{
    match outcome {
        Ok(Some(Some(m))) => RecordStep::Yield(m),
        Ok(Some(None)) => RecordStep::Skip,
        Ok(None) => RecordStep::Stop,
        Err(e) => if skip_invalid {
            RecordStep::Skip
        } else {
            RecordStep::Fail(e)
        },
    }
}

} // verus!
