//! Supported messaging platforms.

use vstd::prelude::*;

use crate::text::{chars_of, chars_eq_str, push_str_chars, string_of, to_lowercase, unicode_lowercase, ascii_lowercase, is_ascii_text};

verus! {

/// A messaging platform whose exports can be parsed.
#[derive(Debug, Clone, Copy, PartialEq, Eq, Hash, Structural)]
pub enum Platform {
    /// Telegram Desktop JSON exports.
    Telegram,
    /// WhatsApp TXT exports (iOS and Android).
    WhatsApp,
    /// Instagram JSON exports.
    Instagram,
    /// DiscordChatExporter exports (JSON, TXT, CSV).
    Discord,
}

/// The platform a lowercase name or alias denotes.
pub open spec fn platform_for_name(n: Seq<char>) -> Option<Platform> {
    if n == "telegram"@ || n == "tg"@ {
        Some(Platform::Telegram)
    } else if n == "whatsapp"@ || n == "wa"@ {
        Some(Platform::WhatsApp)
    } else if n == "instagram"@ || n == "ig"@ {
        Some(Platform::Instagram)
    } else if n == "discord"@ || n == "dc"@ {
        Some(Platform::Discord)
    } else {
        None
    }
}

/// Error text for an unknown platform name.
pub open spec fn unknown_platform_text(name: Seq<char>) -> Seq<char> {
    "Unknown platform: '"@ + name
        + "'. Expected one of: telegram, tg, whatsapp, wa, instagram, ig, discord, dc"@
}

fn platform_from_chars(n: &[char]) -> (r: Option<Platform>)
    ensures
        r == platform_for_name(n@),
{
    if chars_eq_str(n, "telegram") || chars_eq_str(n, "tg") {
        Some(Platform::Telegram)
    } else if chars_eq_str(n, "whatsapp") || chars_eq_str(n, "wa") {
        Some(Platform::WhatsApp)
    } else if chars_eq_str(n, "instagram") || chars_eq_str(n, "ig") {
        Some(Platform::Instagram)
    } else if chars_eq_str(n, "discord") || chars_eq_str(n, "dc") {
        Some(Platform::Discord)
    } else {
        None
    }
}

impl Platform {
    /// The usual file extension of this platform's exports.
    pub fn default_extension(&self) -> (s: &'static str)
        ensures
            s@ == (if *self == Platform::WhatsApp { "txt"@ } else { "json"@ }),
    {
        match self {
            Platform::WhatsApp => "txt",
            Platform::Telegram | Platform::Instagram | Platform::Discord => "json",
        }
    }

    /// Every accepted name, aliases included.
    pub fn all_names() -> (v: Vec<&'static str>)
        ensures
            v@.map_values(|s: &'static str| s@) == seq![
                "telegram"@, "tg"@, "whatsapp"@, "wa"@, "instagram"@, "ig"@, "discord"@, "dc"@,
            ],
    {
        let v = vec!["telegram", "tg", "whatsapp", "wa", "instagram", "ig", "discord", "dc"];
        assert(v@.map_values(|s: &'static str| s@) =~= seq![
            "telegram"@, "tg"@, "whatsapp"@, "wa"@, "instagram"@, "ig"@, "discord"@, "dc"@,
        ]);
        v
    }

    /// Every platform.
    pub fn all() -> (v: Vec<Platform>)
        ensures
            v@ == seq![Platform::Telegram, Platform::WhatsApp, Platform::Instagram, Platform::Discord],
    {
        vec![Platform::Telegram, Platform::WhatsApp, Platform::Instagram, Platform::Discord]
    }

    /// The display name.
    pub fn to_display_string(&self) -> (s: String)
        ensures
            s@ == match *self {
                Platform::Telegram => "Telegram"@,
                Platform::WhatsApp => "WhatsApp"@,
                Platform::Instagram => "Instagram"@,
                Platform::Discord => "Discord"@,
            },
    {
        match self {
            Platform::Telegram => String::from_str("Telegram"),
            Platform::WhatsApp => String::from_str("WhatsApp"),
            Platform::Instagram => String::from_str("Instagram"),
            Platform::Discord => String::from_str("Discord"),
        }
    }

    /// The platform for an already lowercased name; an error message naming
    /// `original` otherwise.
    pub fn from_lower_name(lower: &str, original: &str) -> (r: core::result::Result<Platform, String>)
        ensures
            match platform_for_name(lower@) {
                Some(p) => r == Ok::<Platform, String>(p),
                None => r matches Err(m) && m@ == unknown_platform_text(original@),
            },
    {
        let n = chars_of(lower);
        match platform_from_chars(&n) {
            Some(p) => Ok(p),
            None => {
                let mut m: Vec<char> = Vec::new();
                push_str_chars(&mut m, "Unknown platform: '");
                push_str_chars(&mut m, original);
                push_str_chars(
                    &mut m,
                    "'. Expected one of: telegram, tg, whatsapp, wa, instagram, ig, discord, dc",
                );
                assert(m@ =~= unknown_platform_text(original@));
                Err(string_of(&m))
            },
        }
    }

    /// Parses a platform name or alias, case-insensitively.
    pub fn parse_name(s: &str) -> (r: core::result::Result<Platform, String>)
        ensures
            match platform_for_name(unicode_lowercase(s@)) {
                Some(p) => r == Ok::<Platform, String>(p),
                None => r matches Err(m) && m@ == unknown_platform_text(s@),
            },
            is_ascii_text(s@) ==> match platform_for_name(ascii_lowercase(s@)) {
                Some(x) => r == Ok::<Platform, String>(x),
                None => r is Err,
            },
    {
        let lower = to_lowercase(s);
        Platform::from_lower_name(lower.as_str(), s)
    }
}

impl core::str::FromStr for Platform {
    type Err = String;

    fn from_str(s: &str) -> (r: core::result::Result<Platform, String>)
        ensures
            match platform_for_name(unicode_lowercase(s@)) {
                Some(f) => r == Ok::<Platform, String>(f),
                None => r matches Err(m) && m@ == unknown_platform_text(s@),
            },
            is_ascii_text(s@) ==> match platform_for_name(ascii_lowercase(s@)) {
                Some(x) => r == Ok::<Platform, String>(x),
                None => r is Err,
            },
    {
        Platform::parse_name(s)
    }
}

} // verus!
