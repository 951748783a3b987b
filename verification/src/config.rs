//! Parser settings for each platform.

use vstd::prelude::*;

verus! {

/// Settings of the Telegram JSON parser.
#[derive(Debug, Clone, Copy, PartialEq, Eq, Structural)]
pub struct TelegramConfig {
    /// Streaming mode for large files.
    pub streaming: bool,
    /// Read buffer size for streaming, in bytes.
    pub buffer_size: usize,
    /// Largest accepted single message, in bytes.
    pub max_message_size: usize,
    /// Skip invalid messages instead of failing.
    pub skip_invalid: bool,
}

/// Default settings of [`TelegramConfig`].
pub open spec fn telegram_config_default() -> TelegramConfig {
    TelegramConfig { streaming: false, buffer_size: 65_536usize, max_message_size: 10_485_760usize, skip_invalid: true }
}

impl TelegramConfig {
    /// Default settings.
    pub fn new() -> (c: TelegramConfig)
        ensures
            c == telegram_config_default(),
    {
        TelegramConfig { streaming: false, buffer_size: 65_536usize, max_message_size: 10_485_760usize, skip_invalid: true }
    }

    /// Settings tuned for streaming large files: streaming on and a 256 KiB
    /// buffer.
    pub fn streaming() -> (c: TelegramConfig)
        ensures
            c == (TelegramConfig { streaming: true, buffer_size: 262_144usize, ..telegram_config_default() }),
    {
        TelegramConfig { streaming: true, buffer_size: 262_144usize, max_message_size: 10_485_760usize, skip_invalid: true }
    }

    /// Sets `streaming`.
    pub fn with_streaming(self, enabled: bool) -> (c: TelegramConfig)
        ensures
            c == (TelegramConfig { streaming: enabled, ..self }),
    {
        TelegramConfig { streaming: enabled, ..self }
    }

    /// Sets `buffer_size`.
    pub fn with_buffer_size(self, size: usize) -> (c: TelegramConfig)
        ensures
            c == (TelegramConfig { buffer_size: size, ..self }),
    {
        TelegramConfig { buffer_size: size, ..self }
    }

    /// Sets `max_message_size`.
    pub fn with_max_message_size(self, size: usize) -> (c: TelegramConfig)
        ensures
            c == (TelegramConfig { max_message_size: size, ..self }),
    {
        TelegramConfig { max_message_size: size, ..self }
    }

    /// Sets `skip_invalid`.
    pub fn with_skip_invalid(self, enabled: bool) -> (c: TelegramConfig)
        ensures
            c == (TelegramConfig { skip_invalid: enabled, ..self }),
    {
        TelegramConfig { skip_invalid: enabled, ..self }
    }

}

impl Default for TelegramConfig {
    fn default() -> (c: TelegramConfig)
        ensures
            c == telegram_config_default(),
    {
        TelegramConfig::new()
    }
}

/// Settings of the WhatsApp TXT parser.
#[derive(Debug, Clone, Copy, PartialEq, Eq, Structural)]
pub struct WhatsAppConfig {
    /// Streaming mode for large files.
    pub streaming: bool,
    /// Read buffer size for streaming, in bytes.
    pub buffer_size: usize,
    /// Drop system notices (joins, encryption notice, ...).
    pub skip_system_messages: bool,
    /// Skip invalid messages instead of failing.
    pub skip_invalid: bool,
}

/// Default settings of [`WhatsAppConfig`].
pub open spec fn whatsapp_config_default() -> WhatsAppConfig {
    WhatsAppConfig { streaming: false, buffer_size: 65_536usize, skip_system_messages: true, skip_invalid: true }
}

impl WhatsAppConfig {
    /// Default settings.
    pub fn new() -> (c: WhatsAppConfig)
        ensures
            c == whatsapp_config_default(),
    {
        WhatsAppConfig { streaming: false, buffer_size: 65_536usize, skip_system_messages: true, skip_invalid: true }
    }

    /// Settings tuned for streaming large files: streaming on and a 256 KiB
    /// buffer.
    pub fn streaming() -> (c: WhatsAppConfig)
        ensures
            c == (WhatsAppConfig { streaming: true, buffer_size: 262_144usize, ..whatsapp_config_default() }),
    {
        WhatsAppConfig { streaming: true, buffer_size: 262_144usize, skip_system_messages: true, skip_invalid: true }
    }

    /// Sets `streaming`.
    pub fn with_streaming(self, enabled: bool) -> (c: WhatsAppConfig)
        ensures
            c == (WhatsAppConfig { streaming: enabled, ..self }),
    {
        WhatsAppConfig { streaming: enabled, ..self }
    }

    /// Sets `buffer_size`.
    pub fn with_buffer_size(self, size: usize) -> (c: WhatsAppConfig)
        ensures
            c == (WhatsAppConfig { buffer_size: size, ..self }),
    {
        WhatsAppConfig { buffer_size: size, ..self }
    }

    /// Sets `skip_system_messages`.
    pub fn with_skip_system_messages(self, enabled: bool) -> (c: WhatsAppConfig)
        ensures
            c == (WhatsAppConfig { skip_system_messages: enabled, ..self }),
    {
        WhatsAppConfig { skip_system_messages: enabled, ..self }
    }

    /// Sets `skip_invalid`.
    pub fn with_skip_invalid(self, enabled: bool) -> (c: WhatsAppConfig)
        ensures
            c == (WhatsAppConfig { skip_invalid: enabled, ..self }),
    {
        WhatsAppConfig { skip_invalid: enabled, ..self }
    }

}

impl Default for WhatsAppConfig {
    fn default() -> (c: WhatsAppConfig)
        ensures
            c == whatsapp_config_default(),
    {
        WhatsAppConfig::new()
    }
}

/// Settings of the Instagram JSON parser.
#[derive(Debug, Clone, Copy, PartialEq, Eq, Structural)]
pub struct InstagramConfig {
    /// Streaming mode for large files.
    pub streaming: bool,
    /// Read buffer size for streaming, in bytes.
    pub buffer_size: usize,
    /// Largest accepted single message, in bytes.
    pub max_message_size: usize,
    /// Repair Meta's mis-encoded UTF-8 text.
    pub fix_encoding: bool,
    /// Skip invalid messages instead of failing.
    pub skip_invalid: bool,
}

/// Default settings of [`InstagramConfig`].
pub open spec fn instagram_config_default() -> InstagramConfig {
    InstagramConfig { streaming: false, buffer_size: 65_536usize, max_message_size: 10_485_760usize, fix_encoding: true, skip_invalid: true }
}

impl InstagramConfig {
    /// Default settings.
    pub fn new() -> (c: InstagramConfig)
        ensures
            c == instagram_config_default(),
    {
        InstagramConfig { streaming: false, buffer_size: 65_536usize, max_message_size: 10_485_760usize, fix_encoding: true, skip_invalid: true }
    }

    /// Settings tuned for streaming large files: streaming on and a 256 KiB
    /// buffer.
    pub fn streaming() -> (c: InstagramConfig)
        ensures
            c == (InstagramConfig { streaming: true, buffer_size: 262_144usize, ..instagram_config_default() }),
    {
        InstagramConfig { streaming: true, buffer_size: 262_144usize, max_message_size: 10_485_760usize, fix_encoding: true, skip_invalid: true }
    }

    /// Sets `streaming`.
    pub fn with_streaming(self, enabled: bool) -> (c: InstagramConfig)
        ensures
            c == (InstagramConfig { streaming: enabled, ..self }),
    {
        InstagramConfig { streaming: enabled, ..self }
    }

    /// Sets `buffer_size`.
    pub fn with_buffer_size(self, size: usize) -> (c: InstagramConfig)
        ensures
            c == (InstagramConfig { buffer_size: size, ..self }),
    {
        InstagramConfig { buffer_size: size, ..self }
    }

    /// Sets `max_message_size`.
    pub fn with_max_message_size(self, size: usize) -> (c: InstagramConfig)
        ensures
            c == (InstagramConfig { max_message_size: size, ..self }),
    {
        InstagramConfig { max_message_size: size, ..self }
    }

    /// Sets `fix_encoding`.
    pub fn with_fix_encoding(self, enabled: bool) -> (c: InstagramConfig)
        ensures
            c == (InstagramConfig { fix_encoding: enabled, ..self }),
    {
        InstagramConfig { fix_encoding: enabled, ..self }
    }

    /// Sets `skip_invalid`.
    pub fn with_skip_invalid(self, enabled: bool) -> (c: InstagramConfig)
        ensures
            c == (InstagramConfig { skip_invalid: enabled, ..self }),
    {
        InstagramConfig { skip_invalid: enabled, ..self }
    }

}

impl Default for InstagramConfig {
    fn default() -> (c: InstagramConfig)
        ensures
            c == instagram_config_default(),
    {
        InstagramConfig::new()
    }
}

/// Settings of the Discord parser.
#[derive(Debug, Clone, Copy, PartialEq, Eq, Structural)]
pub struct DiscordConfig {
    /// Streaming mode for large files.
    pub streaming: bool,
    /// Read buffer size for streaming, in bytes.
    pub buffer_size: usize,
    /// Largest accepted single message, in bytes.
    pub max_message_size: usize,
    /// Use the nickname instead of the user name when present.
    pub prefer_nickname: bool,
    /// Append attachment and sticker names to the content.
    pub include_attachments: bool,
    /// Skip invalid messages instead of failing.
    pub skip_invalid: bool,
}

/// Default settings of [`DiscordConfig`].
pub open spec fn discord_config_default() -> DiscordConfig {
    DiscordConfig { streaming: false, buffer_size: 65_536usize, max_message_size: 10_485_760usize, prefer_nickname: true, include_attachments: true, skip_invalid: true }
}

impl DiscordConfig {
    /// Default settings.
    pub fn new() -> (c: DiscordConfig)
        ensures
            c == discord_config_default(),
    {
        DiscordConfig { streaming: false, buffer_size: 65_536usize, max_message_size: 10_485_760usize, prefer_nickname: true, include_attachments: true, skip_invalid: true }
    }

    /// Settings tuned for streaming large files: streaming on and a 256 KiB
    /// buffer.
    pub fn streaming() -> (c: DiscordConfig)
        ensures
            c == (DiscordConfig { streaming: true, buffer_size: 262_144usize, ..discord_config_default() }),
    {
        DiscordConfig { streaming: true, buffer_size: 262_144usize, max_message_size: 10_485_760usize, prefer_nickname: true, include_attachments: true, skip_invalid: true }
    }

    /// Sets `streaming`.
    pub fn with_streaming(self, enabled: bool) -> (c: DiscordConfig)
        ensures
            c == (DiscordConfig { streaming: enabled, ..self }),
    {
        DiscordConfig { streaming: enabled, ..self }
    }

    /// Sets `buffer_size`.
    pub fn with_buffer_size(self, size: usize) -> (c: DiscordConfig)
        ensures
            c == (DiscordConfig { buffer_size: size, ..self }),
    {
        DiscordConfig { buffer_size: size, ..self }
    }

    /// Sets `max_message_size`.
    pub fn with_max_message_size(self, size: usize) -> (c: DiscordConfig)
        ensures
            c == (DiscordConfig { max_message_size: size, ..self }),
    {
        DiscordConfig { max_message_size: size, ..self }
    }

    /// Sets `prefer_nickname`.
    pub fn with_prefer_nickname(self, enabled: bool) -> (c: DiscordConfig)
        ensures
            c == (DiscordConfig { prefer_nickname: enabled, ..self }),
    {
        DiscordConfig { prefer_nickname: enabled, ..self }
    }

    /// Sets `include_attachments`.
    pub fn with_include_attachments(self, enabled: bool) -> (c: DiscordConfig)
        ensures
            c == (DiscordConfig { include_attachments: enabled, ..self }),
    {
        DiscordConfig { include_attachments: enabled, ..self }
    }

    /// Sets `skip_invalid`.
    pub fn with_skip_invalid(self, enabled: bool) -> (c: DiscordConfig)
        ensures
            c == (DiscordConfig { skip_invalid: enabled, ..self }),
    {
        DiscordConfig { skip_invalid: enabled, ..self }
    }

}

impl Default for DiscordConfig {
    fn default() -> (c: DiscordConfig)
        ensures
            c == discord_config_default(),
    {
        DiscordConfig::new()
    }
}

} // verus!
