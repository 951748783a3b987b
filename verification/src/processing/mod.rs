//! Filtering, merging, output configuration and output encodings.

pub mod filter;
pub mod models;
pub mod output;
pub mod processor;

pub use filter::{FilterConfig, apply_filters};
pub use models::OutputConfig;
pub use processor::{ProcessingStats, merge_consecutive};
pub use output::{build_header, build_record, to_csv, to_json, to_jsonl};
