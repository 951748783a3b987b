//! Progress of long-running operations, for callers who want updates
//! pushed to them.

use vstd::prelude::*;

verus! {

/// How far an operation has got, in bytes and in items.
#[derive(Debug, Clone, Copy, PartialEq, Eq, Structural)]
pub struct Progress {
    /// Bytes processed so far.
    pub bytes_processed: u64,
    /// Total bytes, when known.
    pub total_bytes: Option<u64>,
    /// Items (messages) processed so far.
    pub items_processed: usize,
    /// Total items, when known.
    pub total_items: Option<usize>,
}

/// Every byte has been processed; false when the total is unknown.
pub open spec fn progress_complete(p: Progress) -> bool {
    match p.total_bytes {
        Some(total) => p.bytes_processed >= total,
        None => false,
    }
}

/// Bytes still to process, zero once past the total; `None` when the
/// total is unknown.
pub open spec fn progress_remaining(p: Progress) -> Option<u64> {
    match p.total_bytes {
        Some(total) => Some(
            if total >= p.bytes_processed {
                (total - p.bytes_processed) as u64
            } else {
                0u64
            },
        ),
        None => None,
    }
}

impl Progress {
    /// Progress with the given counts and no item total.
    pub fn new(bytes_processed: u64, total_bytes: Option<u64>, items_processed: usize) -> (p: Progress)
        ensures
            p == (Progress { bytes_processed, total_bytes, items_processed, total_items: None }),
    {
        Progress { bytes_processed, total_bytes, items_processed, total_items: None }
    }

    /// Sets the item total.
    pub fn with_items(self, total_items: usize) -> (p: Progress)
        ensures
            p == (Progress { total_items: Some(total_items), ..self }),
    {
        Progress { total_items: Some(total_items), ..self }
    }

    /// Whether every byte has been processed; `false` when the total is
    /// unknown.
    pub fn is_complete(&self) -> (b: bool)
        ensures
            b == progress_complete(*self),
    {
        match self.total_bytes {
            Some(total) => self.bytes_processed >= total,
            None => false,
        }
    }

    /// Bytes still to process (zero once past the total); `None` when the
    /// total is unknown.
    pub fn remaining_bytes(&self) -> (r: Option<u64>)
        ensures
            r == progress_remaining(*self),
    {
        match self.total_bytes {
            Some(total) => Some(if total >= self.bytes_processed {
                total - self.bytes_processed
            } else {
                0
            }),
            None => None,
        }
    }
}

impl Default for Progress {
    fn default() -> (p: Progress)
        ensures
            p == (Progress { bytes_processed: 0, total_bytes: None, items_processed: 0, total_items: None }),
    {
        Progress { bytes_processed: 0, total_bytes: None, items_processed: 0, total_items: None }
    }
}

/// The work is complete exactly when the total is known and no bytes
/// remain.
pub proof fn lemma_complete_iff_nothing_remains(p: Progress)
    ensures
        progress_complete(p) <==> progress_remaining(p) == Some(0u64),
{
}

} // verus!
