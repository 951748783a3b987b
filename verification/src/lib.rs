//! Chat export normalization: parsers for Telegram, WhatsApp, Instagram and
//! Discord exports, filtering, merging and compact output encodings.

pub mod async_parser;
pub mod cli;
pub mod config;
pub mod error;
pub mod format;
pub mod generator;
pub mod message;
pub mod parser;
pub mod parsers;
pub mod parsing;
pub mod pattern;
pub mod text;
pub mod timestamp;

pub use message::Message;
pub mod processing;
pub mod progress;
pub mod streaming;
