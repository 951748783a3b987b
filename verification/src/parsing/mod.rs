//! Per-platform parsing rules shared by the whole-file parsers and the
//! streaming readers.

pub mod discord;
pub mod instagram;
pub mod telegram;
pub mod whatsapp;
