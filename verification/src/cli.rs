//! Source and output-format choices of the command-line tool, usable from
//! library code as well.

use vstd::prelude::*;

use crate::error::ChatpackError;
use crate::processing::filter::{FilterConfig, day_end, day_end_instant, day_start};
use crate::processing::models::OutputConfig;
use crate::text::{chars_of, chars_eq_str, push_str_chars, string_of, to_lowercase, unicode_lowercase, ascii_lowercase, is_ascii_text};
use crate::timestamp::Timestamp;

verus! {

/// A chat source.
#[derive(Debug, Clone, Copy, PartialEq, Eq, Hash, Structural)]
pub enum Source {
    /// Telegram JSON export.
    Telegram,
    /// WhatsApp TXT export.
    WhatsApp,
    /// Instagram JSON export.
    Instagram,
    /// Discord JSON/TXT/CSV export.
    Discord,
}

/// The source a lowercase name or alias denotes.
pub open spec fn source_for_name(n: Seq<char>) -> Option<Source> {
    if n == "telegram"@ || n == "tg"@ {
        Some(Source::Telegram)
    } else if n == "whatsapp"@ || n == "wa"@ {
        Some(Source::WhatsApp)
    } else if n == "instagram"@ || n == "ig"@ {
        Some(Source::Instagram)
    } else if n == "discord"@ || n == "dc"@ {
        Some(Source::Discord)
    } else {
        None
    }
}

/// Error text for an unknown source name.
pub open spec fn unknown_source_text(name: Seq<char>) -> Seq<char> {
    "Unknown source: '"@ + name
        + "'. Expected one of: telegram, tg, whatsapp, wa, instagram, ig, discord, dc"@
}

fn source_from_chars(n: &[char]) -> (r: Option<Source>)
    ensures
        r == source_for_name(n@),
{
    if chars_eq_str(n, "telegram") || chars_eq_str(n, "tg") {
        Some(Source::Telegram)
    } else if chars_eq_str(n, "whatsapp") || chars_eq_str(n, "wa") {
        Some(Source::WhatsApp)
    } else if chars_eq_str(n, "instagram") || chars_eq_str(n, "ig") {
        Some(Source::Instagram)
    } else if chars_eq_str(n, "discord") || chars_eq_str(n, "dc") {
        Some(Source::Discord)
    } else {
        None
    }
}

impl Source {
    /// The usual file extension of this source's exports.
    pub fn default_extension(&self) -> (s: &'static str)
        ensures
            s@ == (if *self == Source::WhatsApp { "txt"@ } else { "json"@ }),
    {
        match self {
            Source::WhatsApp => "txt",
            Source::Telegram | Source::Instagram | Source::Discord => "json",
        }
    }

    /// Every accepted name, aliases included.
    pub fn all_names() -> (v: Vec<&'static str>)
        ensures
            v@.map_values(|s: &'static str| s@) == seq![
                "telegram"@, "tg"@, "whatsapp"@, "wa"@, "instagram"@, "ig"@, "discord"@, "dc"@,
            ],
    {
        let v = vec!["telegram", "tg", "whatsapp", "wa", "instagram", "ig", "discord", "dc"];
        assert(v@.map_values(|s: &'static str| s@) =~= seq![
            "telegram"@, "tg"@, "whatsapp"@, "wa"@, "instagram"@, "ig"@, "discord"@, "dc"@,
        ]);
        v
    }

    /// The display name.
    pub fn to_display_string(&self) -> (s: String)
        ensures
            s@ == match *self {
                Source::Telegram => "Telegram"@,
                Source::WhatsApp => "WhatsApp"@,
                Source::Instagram => "Instagram"@,
                Source::Discord => "Discord"@,
            },
    {
        match self {
            Source::Telegram => String::from_str("Telegram"),
            Source::WhatsApp => String::from_str("WhatsApp"),
            Source::Instagram => String::from_str("Instagram"),
            Source::Discord => String::from_str("Discord"),
        }
    }

    /// The source for an already lowercased name; an error message naming
    /// `original` otherwise.
    pub fn from_lower_name(lower: &str, original: &str) -> (r: core::result::Result<Source, String>)
        ensures
            match source_for_name(lower@) {
                Some(p) => r == Ok::<Source, String>(p),
                None => r matches Err(m) && m@ == unknown_source_text(original@),
            },
    {
        let n = chars_of(lower);
        match source_from_chars(&n) {
            Some(p) => Ok(p),
            None => {
                let mut m: Vec<char> = Vec::new();
                push_str_chars(&mut m, "Unknown source: '");
                push_str_chars(&mut m, original);
                push_str_chars(
                    &mut m,
                    "'. Expected one of: telegram, tg, whatsapp, wa, instagram, ig, discord, dc",
                );
                assert(m@ =~= unknown_source_text(original@));
                Err(string_of(&m))
            },
        }
    }

    /// Parses a source name or alias, case-insensitively.
    pub fn parse_name(s: &str) -> (r: core::result::Result<Source, String>)
        ensures
            match source_for_name(unicode_lowercase(s@)) {
                Some(p) => r == Ok::<Source, String>(p),
                None => r matches Err(m) && m@ == unknown_source_text(s@),
            },
            is_ascii_text(s@) ==> match source_for_name(ascii_lowercase(s@)) {
                Some(x) => r == Ok::<Source, String>(x),
                None => r is Err,
            },
    {
        let lower = to_lowercase(s);
        Source::from_lower_name(lower.as_str(), s)
    }
}

impl core::str::FromStr for Source {
    type Err = String;

    fn from_str(s: &str) -> (r: core::result::Result<Source, String>)
        ensures
            match source_for_name(unicode_lowercase(s@)) {
                Some(p) => r == Ok::<Source, String>(p),
                None => r matches Err(m) && m@ == unknown_source_text(s@),
            },
            is_ascii_text(s@) ==> match source_for_name(ascii_lowercase(s@)) {
                Some(x) => r == Ok::<Source, String>(x),
                None => r is Err,
            },
    {
        Source::parse_name(s)
    }
}

/// Output format choice of the command-line tool.
#[derive(Debug, Clone, Copy, PartialEq, Eq, Hash, Structural)]
pub enum OutputFormat {
    /// `;`-delimited CSV.
    Csv,
    /// JSON array.
    Json,
    /// JSON Lines.
    Jsonl,
}

/// Error text for an unknown format name.
pub open spec fn unknown_cli_format_text(name: Seq<char>) -> Seq<char> {
    "Unknown format: '"@ + name + "'. Expected one of: csv, json, jsonl"@
}

/// The format a lowercase name denotes.
pub open spec fn cli_format_for_name(n: Seq<char>) -> Option<OutputFormat> {
    if n == "csv"@ {
        Some(OutputFormat::Csv)
    } else if n == "json"@ {
        Some(OutputFormat::Json)
    } else if n == "jsonl"@ || n == "ndjson"@ {
        Some(OutputFormat::Jsonl)
    } else {
        None
    }
}

impl OutputFormat {
    /// The file extension, without a dot.
    pub fn extension(&self) -> (s: &'static str)
        ensures
            s@ == match *self {
                OutputFormat::Csv => "csv"@,
                OutputFormat::Json => "json"@,
                OutputFormat::Jsonl => "jsonl"@,
            },
    {
        match self {
            OutputFormat::Csv => "csv",
            OutputFormat::Json => "json",
            OutputFormat::Jsonl => "jsonl",
        }
    }

    /// Every format name.
    pub fn all_names() -> (v: Vec<&'static str>)
        ensures
            v@.map_values(|s: &'static str| s@) == seq!["csv"@, "json"@, "jsonl"@],
    {
        let v = vec!["csv", "json", "jsonl"];
        assert(v@.map_values(|s: &'static str| s@) =~= seq!["csv"@, "json"@, "jsonl"@]);
        v
    }

    /// The MIME type.
    pub fn mime_type(&self) -> (s: &'static str)
        ensures
            s@ == match *self {
                OutputFormat::Csv => "text/csv"@,
                OutputFormat::Json => "application/json"@,
                OutputFormat::Jsonl => "application/x-ndjson"@,
            },
    {
        match self {
            OutputFormat::Csv => "text/csv",
            OutputFormat::Json => "application/json",
            OutputFormat::Jsonl => "application/x-ndjson",
        }
    }

    /// The display name (`CSV`, `JSON`, `JSONL`).
    pub fn to_display_string(&self) -> (s: String)
        ensures
            s@ == match *self {
                OutputFormat::Csv => "CSV"@,
                OutputFormat::Json => "JSON"@,
                OutputFormat::Jsonl => "JSONL"@,
            },
    {
        match self {
            OutputFormat::Csv => String::from_str("CSV"),
            OutputFormat::Json => String::from_str("JSON"),
            OutputFormat::Jsonl => String::from_str("JSONL"),
        }
    }

    /// The library format with the same name.
    pub fn to_format(&self) -> (f: crate::format::OutputFormat)
        ensures
            f == match *self {
                OutputFormat::Csv => crate::format::OutputFormat::Csv,
                OutputFormat::Json => crate::format::OutputFormat::Json,
                OutputFormat::Jsonl => crate::format::OutputFormat::Jsonl,
            },
    {
        match self {
            OutputFormat::Csv => crate::format::OutputFormat::Csv,
            OutputFormat::Json => crate::format::OutputFormat::Json,
            OutputFormat::Jsonl => crate::format::OutputFormat::Jsonl,
        }
    }

    /// The format for an already lowercased name (`csv`, `json`, `jsonl`,
    /// `ndjson`); an error message naming `original` otherwise.
    pub fn from_lower_name(lower: &str, original: &str) -> (r: core::result::Result<OutputFormat, String>)
        ensures
            match cli_format_for_name(lower@) {
                Some(f) => r == Ok::<OutputFormat, String>(f),
                None => r matches Err(m) && m@ == unknown_cli_format_text(original@),
            },
    {
        let n = chars_of(lower);
        if chars_eq_str(&n, "csv") {
            Ok(OutputFormat::Csv)
        } else if chars_eq_str(&n, "json") {
            Ok(OutputFormat::Json)
        } else if chars_eq_str(&n, "jsonl") || chars_eq_str(&n, "ndjson") {
            Ok(OutputFormat::Jsonl)
        } else {
            let mut m: Vec<char> = Vec::new();
            push_str_chars(&mut m, "Unknown format: '");
            push_str_chars(&mut m, original);
            push_str_chars(&mut m, "'. Expected one of: csv, json, jsonl");
            assert(m@ =~= unknown_cli_format_text(original@));
            Err(string_of(&m))
        }
    }

    /// Parses a format name, case-insensitively.
    pub fn parse_name(s: &str) -> (r: core::result::Result<OutputFormat, String>)
        ensures
            match cli_format_for_name(unicode_lowercase(s@)) {
                Some(f) => r == Ok::<OutputFormat, String>(f),
                None => r matches Err(m) && m@ == unknown_cli_format_text(s@),
            },
            is_ascii_text(s@) ==> match cli_format_for_name(ascii_lowercase(s@)) {
                Some(x) => r == Ok::<OutputFormat, String>(x),
                None => r is Err,
            },
    {
        let lower = to_lowercase(s);
        OutputFormat::from_lower_name(lower.as_str(), s)
    }
}

impl Default for OutputFormat {
    fn default() -> (f: OutputFormat)
        ensures
            f == OutputFormat::Csv,
    {
        OutputFormat::Csv
    }
}

impl core::str::FromStr for OutputFormat {
    type Err = String;

    fn from_str(s: &str) -> (r: core::result::Result<OutputFormat, String>)
        ensures
            match cli_format_for_name(unicode_lowercase(s@)) {
                Some(f) => r == Ok::<OutputFormat, String>(f),
                None => r matches Err(m) && m@ == unknown_cli_format_text(s@),
            },
            is_ascii_text(s@) ==> match cli_format_for_name(ascii_lowercase(s@)) {
                Some(x) => r == Ok::<OutputFormat, String>(x),
                None => r is Err,
            },
    {
        OutputFormat::parse_name(s)
    }
}

/// The command-line arguments of the tool.
#[derive(Debug, Clone)]
pub struct Args {
    /// Chat source type.
    pub source: Source,
    /// Path of the input file.
    pub input: String,
    /// Path of the output file.
    pub output: String,
    /// Output format.
    pub format: OutputFormat,
    /// Keep messages on or after this date (`YYYY-MM-DD`).
    pub after: Option<String>,
    /// Keep messages on or before this date (`YYYY-MM-DD`).
    pub before: Option<String>,
    /// Include timestamps in the output.
    pub timestamps: bool,
    /// Include reply references in the output.
    pub replies: bool,
    /// Include message ids in the output.
    pub ids: bool,
    /// Include edit timestamps in the output.
    pub edited: bool,
    /// Do not merge consecutive messages from one sender.
    pub no_merge: bool,
    /// Keep only messages from this sender.
    pub from: Option<String>,
    /// Read the input with a streaming parser.
    pub streaming: bool,
}

/// The default output path.
pub open spec fn default_output() -> Seq<char> {
    "optimized_chat.csv"@
}

/// The output path actually written: the default path takes the extension
/// of the chosen format; any other path is kept.
pub open spec fn adjusted_output(output: Seq<char>, format: OutputFormat) -> Seq<char> {
    if output == default_output() {
        "optimized_chat."@ + crate::format::extension_spec(
            match format {
                OutputFormat::Csv => crate::format::OutputFormat::Csv,
                OutputFormat::Json => crate::format::OutputFormat::Json,
                OutputFormat::Jsonl => crate::format::OutputFormat::Jsonl,
            },
        )
    } else {
        output
    }
}

/// The output path written for the given path and format.
pub fn adjust_output_extension(output: &str, format: OutputFormat) -> (r: String)
    ensures
        r@ == adjusted_output(output@, format),
{
    if !chars_eq_str(&chars_of(output), "optimized_chat.csv") {
        return String::from_str(output);
    }
    let lib_format = format.to_format();
    let mut out: Vec<char> = Vec::new();
    push_str_chars(&mut out, "optimized_chat.");
    push_str_chars(&mut out, lib_format.extension());
    string_of(&out)
}

/// The filter the arguments ask for, before the `after` date is checked.
pub open spec fn args_filter_after(a: Args) -> Option<Option<Timestamp>> {
    match a.after {
        Some(d) => match day_start(d@) {
            Some(s) => Some(Some(Timestamp { secs: s, nanos: 0 })),
            None => None,
        },
        None => Some(None),
    }
}

/// The `before` bound the arguments ask for; `None` when its date is
/// invalid.
pub open spec fn args_filter_before(a: Args) -> Option<Option<Timestamp>> {
    match a.before {
        Some(d) => match day_end(d@) {
            Some(s) => Some(Some(day_end_instant(s))),
            None => None,
        },
        None => Some(None),
    }
}

impl Args {
    /// The filter the arguments describe: `--after` and `--before` dates and
    /// `--from` sender. An invalid date is an `InvalidDate` error for the
    /// first date that fails, `after` checked first.
    pub fn filter_config(&self) -> (r: Result<FilterConfig, ChatpackError>)
        ensures
            match (args_filter_after(*self), args_filter_before(*self)) {
                (Some(a), Some(b)) => r matches Ok(c) && c.after == a && c.before == b && c.from == self.from,
                (None, _) => r matches Err(ChatpackError::InvalidDate { input, .. })
                    && self.after matches Some(d) && input@ == d@,
                (Some(_), None) => r matches Err(ChatpackError::InvalidDate { input, .. })
                    && self.before matches Some(d) && input@ == d@,
            },
    {
        let mut config = FilterConfig::new();
        match &self.after {
            Some(d) => {
                config = match config.after_date(d.as_str()) {
                    Ok(c) => c,
                    Err(e) => return Err(e),
                };
            },
            None => {},
        }
        match &self.before {
            Some(d) => {
                config = match config.before_date(d.as_str()) {
                    Ok(c) => c,
                    Err(e) => return Err(e),
                };
            },
            None => {},
        }
        match &self.from {
            Some(u) => {
                config = config.with_user(u.clone());
            },
            None => {},
        }
        Ok(config)
    }

    /// The output fields the arguments ask for.
    pub fn output_config(&self) -> (c: OutputConfig)
        ensures
            c == (OutputConfig {
                include_timestamps: self.timestamps,
                include_ids: self.ids,
                include_replies: self.replies,
                include_edited: self.edited,
            }),
    {
        let mut c = OutputConfig::new();
        if self.timestamps {
            c = c.with_timestamps();
        }
        if self.ids {
            c = c.with_ids();
        }
        if self.replies {
            c = c.with_replies();
        }
        if self.edited {
            c = c.with_edited();
        }
        c
    }
}

} // verus!
