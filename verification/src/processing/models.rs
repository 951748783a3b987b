//! Which optional fields the output encodings include.

use vstd::prelude::*;

verus! {

/// Which optional message fields an output encoding includes. By default
/// only sender and content are written.
#[derive(Debug, Clone, Copy, PartialEq, Eq, Structural)]
pub struct OutputConfig {
    /// Include message timestamps.
    pub include_timestamps: bool,
    /// Include platform message ids.
    pub include_ids: bool,
    /// Include reply references.
    pub include_replies: bool,
    /// Include edit timestamps.
    pub include_edited: bool,
}

impl OutputConfig {
    /// Configuration with every optional field disabled.
    pub fn new() -> (c: OutputConfig)
        ensures
            c == (OutputConfig {
                include_timestamps: false,
                include_ids: false,
                include_replies: false,
                include_edited: false,
            }),
    {
        OutputConfig {
            include_timestamps: false,
            include_ids: false,
            include_replies: false,
            include_edited: false,
        }
    }

    /// Configuration with every optional field enabled.
    pub fn all() -> (c: OutputConfig)
        ensures
            c == (OutputConfig {
                include_timestamps: true,
                include_ids: true,
                include_replies: true,
                include_edited: true,
            }),
    {
        OutputConfig {
            include_timestamps: true,
            include_ids: true,
            include_replies: true,
            include_edited: true,
        }
    }

    /// Enables timestamps.
    pub fn with_timestamps(self) -> (c: OutputConfig)
        ensures
            c == (OutputConfig { include_timestamps: true, ..self }),
    {
        OutputConfig { include_timestamps: true, ..self }
    }

    /// Enables message ids.
    pub fn with_ids(self) -> (c: OutputConfig)
        ensures
            c == (OutputConfig { include_ids: true, ..self }),
    {
        OutputConfig { include_ids: true, ..self }
    }

    /// Enables reply references.
    pub fn with_replies(self) -> (c: OutputConfig)
        ensures
            c == (OutputConfig { include_replies: true, ..self }),
    {
        OutputConfig { include_replies: true, ..self }
    }

    /// Enables edit timestamps.
    pub fn with_edited(self) -> (c: OutputConfig)
        ensures
            c == (OutputConfig { include_edited: true, ..self }),
    {
        OutputConfig { include_edited: true, ..self }
    }

    /// Whether any optional field is enabled.
    pub fn has_any(&self) -> (b: bool)
        ensures
            b == (self.include_timestamps || self.include_ids || self.include_replies
                || self.include_edited),
    {
        self.include_timestamps || self.include_ids || self.include_replies || self.include_edited
    }
}

impl Default for OutputConfig {
    fn default() -> (c: OutputConfig)
        ensures
            c == (OutputConfig {
                include_timestamps: false,
                include_ids: false,
                include_replies: false,
                include_edited: false,
            }),
    {
        OutputConfig::new()
    }
}

} // verus!
