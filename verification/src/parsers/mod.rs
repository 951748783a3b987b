//! Whole-export parsers, one per platform.

pub mod discord;
pub mod instagram;
pub mod telegram;
pub mod whatsapp;

pub use discord::DiscordParser;
pub use instagram::InstagramParser;
pub use telegram::TelegramParser;
pub use whatsapp::WhatsAppParser;
