//! Streaming readers for large exports: the scanning and line-handling
//! rules, independent of where the text comes from.

pub mod discord;
pub mod error;
pub mod instagram;
pub mod json_array;
pub mod line_objects;
pub mod telegram;
pub mod traits;
pub mod whatsapp;

pub use error::{StreamingError, StreamingResult};
pub use traits::StreamingConfig;
pub use discord::DiscordStreamingParser;
pub use instagram::InstagramStreamingParser;
pub use telegram::TelegramStreamingParser;
pub use whatsapp::WhatsAppStreamingParser;
