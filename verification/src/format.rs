//! Output format selection: CSV, pretty JSON, or JSON Lines.

use vstd::prelude::*;

use crate::error::ChatpackError;
use crate::message::{Message, msg_views};
use crate::processing::models::OutputConfig;
use crate::processing::output::{csv_lines, csv_rows, json_document, jsonl_document, to_csv, to_json, to_jsonl};
use crate::text::{after_last, after_last_of, chars_of, push_str_chars, string_of, unicode_lowercase, to_lowercase, ascii_lowercase, is_ascii_text};

verus! {

/// Output format for chat exports.
#[derive(Debug, Clone, Copy, PartialEq, Eq, Hash, Structural)]
pub enum OutputFormat {
    /// `;`-delimited CSV, the most compact for LLM context.
    Csv,
    /// Pretty JSON array of messages.
    Json,
    /// JSON Lines, one object per line.
    Jsonl,
}

/// The format named by a lowercase extension or name.
pub open spec fn format_for_name(name: Seq<char>) -> Option<OutputFormat> {
    if name == "csv"@ {
        Some(OutputFormat::Csv)
    } else if name == "json"@ {
        Some(OutputFormat::Json)
    } else if name == "jsonl"@ || name == "ndjson"@ {
        Some(OutputFormat::Jsonl)
    } else {
        None
    }
}

/// The extension text of a format.
pub open spec fn extension_spec(f: OutputFormat) -> Seq<char> {
    match f {
        OutputFormat::Csv => "csv"@,
        OutputFormat::Json => "json"@,
        OutputFormat::Jsonl => "jsonl"@,
    }
}

/// The error message for an unknown output file extension.
pub open spec fn unknown_extension_text(ext: Seq<char>) -> Seq<char> {
    "Unknown file extension: '."@ + ext + "'. Expected one of: csv, json, jsonl"@
}

/// The error message for an unknown format name.
pub open spec fn unknown_format_text(name: Seq<char>) -> Seq<char> {
    "Unknown format: '"@ + name + "'. Expected one of: csv, json, jsonl, ndjson"@
}

impl OutputFormat {
    /// The file extension, without a dot.
    pub fn extension(&self) -> (s: &'static str)
        ensures
            s@ == extension_spec(*self),
    {
        match self {
            OutputFormat::Csv => "csv",
            OutputFormat::Json => "json",
            OutputFormat::Jsonl => "jsonl",
        }
    }

    /// Every accepted format name.
    pub fn all_names() -> (v: Vec<&'static str>)
        ensures
            v@.map_values(|s: &'static str| s@) == seq!["csv"@, "json"@, "jsonl"@, "ndjson"@],
    {
        let v = vec!["csv", "json", "jsonl", "ndjson"];
        assert(v@.map_values(|s: &'static str| s@) =~= seq!["csv"@, "json"@, "jsonl"@, "ndjson"@]);
        v
    }

    /// Every format.
    pub fn all() -> (v: Vec<OutputFormat>)
        ensures
            v@ == seq![OutputFormat::Csv, OutputFormat::Json, OutputFormat::Jsonl],
    {
        vec![OutputFormat::Csv, OutputFormat::Json, OutputFormat::Jsonl]
    }

    /// The MIME type.
    pub fn mime_type(&self) -> (s: &'static str)
        ensures
            s@ == match *self {
                OutputFormat::Csv => "text/csv"@,
                OutputFormat::Json => "application/json"@,
                OutputFormat::Jsonl => "application/x-ndjson"@,
            },
    {
        match self {
            OutputFormat::Csv => "text/csv",
            OutputFormat::Json => "application/json",
            OutputFormat::Jsonl => "application/x-ndjson",
        }
    }

    /// The display name (`CSV`, `JSON`, `JSONL`).
    pub fn to_display_string(&self) -> (s: String)
        ensures
            s@ == match *self {
                OutputFormat::Csv => "CSV"@,
                OutputFormat::Json => "JSON"@,
                OutputFormat::Jsonl => "JSONL"@,
            },
    {
        match self {
            OutputFormat::Csv => String::from_str("CSV"),
            OutputFormat::Json => String::from_str("JSON"),
            OutputFormat::Jsonl => String::from_str("JSONL"),
        }
    }

    /// The format for an already lowercased extension: `csv`, `json`,
    /// `jsonl` or `ndjson`; an `InvalidFormat` error otherwise.
    pub fn from_lower_extension(ext: &str) -> (r: Result<OutputFormat, ChatpackError>)
        ensures
            match format_for_name(ext@) {
                Some(f) => r == Ok::<OutputFormat, ChatpackError>(f),
                None => r matches Err(ChatpackError::InvalidFormat { format, message })
                    && format@ == "output"@ && message@ == unknown_extension_text(ext@),
            },
    {
        let e = chars_of(ext);
        match format_from_chars(&e) {
            Some(f) => Ok(f),
            None => {
                let mut m: Vec<char> = Vec::new();
                push_str_chars(&mut m, "Unknown file extension: '.");
                push_str_chars(&mut m, ext);
                push_str_chars(&mut m, "'. Expected one of: csv, json, jsonl");
                assert(m@ =~= unknown_extension_text(ext@));
                Err(ChatpackError::InvalidFormat { format: "output", message: string_of(&m) })
            },
        }
    }

    /// Detects the format from a file path's extension, compared after
    /// Unicode lowercasing.
    pub fn from_path(path: &str) -> (r: Result<OutputFormat, ChatpackError>)
        ensures
            ({
                let ext = unicode_lowercase(after_last(path@, '.'));
                match format_for_name(ext) {
                    Some(f) => r == Ok::<OutputFormat, ChatpackError>(f),
                    None => r matches Err(ChatpackError::InvalidFormat { format, message })
                        && format@ == "output"@ && message@ == unknown_extension_text(ext),
                }
            }),
            is_ascii_text(after_last(path@, '.')) ==> match format_for_name(
                ascii_lowercase(after_last(path@, '.')),
            ) {
                Some(x) => r == Ok::<OutputFormat, ChatpackError>(x),
                None => r is Err,
            },
    {
        let p = chars_of(path);
        let seg = after_last_of(&p, '.');
        let seg_s = string_of(&seg);
        let lower = to_lowercase(seg_s.as_str());
        OutputFormat::from_lower_extension(lower.as_str())
    }

    /// The format for an already lowercased name: `csv`, `json`, `jsonl`
    /// or `ndjson`; an error message naming `original` otherwise.
    pub fn from_lower_name(lower: &str, original: &str) -> (r: core::result::Result<OutputFormat, String>)
        ensures
            match format_for_name(lower@) {
                Some(f) => r == Ok::<OutputFormat, String>(f),
                None => r matches Err(m) && m@ == unknown_format_text(original@),
            },
    {
        let e = chars_of(lower);
        match format_from_chars(&e) {
            Some(f) => Ok(f),
            None => {
                let mut m: Vec<char> = Vec::new();
                push_str_chars(&mut m, "Unknown format: '");
                push_str_chars(&mut m, original);
                push_str_chars(&mut m, "'. Expected one of: csv, json, jsonl, ndjson");
                assert(m@ =~= unknown_format_text(original@));
                Err(string_of(&m))
            },
        }
    }

    /// Parses a format name, case-insensitively (Unicode lowercasing).
    pub fn parse_name(s: &str) -> (r: core::result::Result<OutputFormat, String>)
        ensures
            match format_for_name(unicode_lowercase(s@)) {
                Some(f) => r == Ok::<OutputFormat, String>(f),
                None => r matches Err(m) && m@ == unknown_format_text(s@),
            },
            is_ascii_text(s@) ==> match format_for_name(ascii_lowercase(s@)) {
                Some(x) => r == Ok::<OutputFormat, String>(x),
                None => r is Err,
            },
    {
        let lower = to_lowercase(s);
        OutputFormat::from_lower_name(lower.as_str(), s)
    }
}

fn format_from_chars(e: &[char]) -> (r: Option<OutputFormat>)
    ensures
        r == format_for_name(e@),
{
    if crate::text::chars_eq_str(e, "csv") {
        Some(OutputFormat::Csv)
    } else if crate::text::chars_eq_str(e, "json") {
        Some(OutputFormat::Json)
    } else if crate::text::chars_eq_str(e, "jsonl") || crate::text::chars_eq_str(e, "ndjson") {
        Some(OutputFormat::Jsonl)
    } else {
        None
    }
}

impl Default for OutputFormat {
    fn default() -> (f: OutputFormat)
        ensures
            f == OutputFormat::Csv,
    {
        OutputFormat::Csv
    }
}

impl core::str::FromStr for OutputFormat {
    type Err = String;

    fn from_str(s: &str) -> (r: core::result::Result<OutputFormat, String>)
        ensures
            match format_for_name(unicode_lowercase(s@)) {
                Some(f) => r == Ok::<OutputFormat, String>(f),
                None => r matches Err(m) && m@ == unknown_format_text(s@),
            },
            is_ascii_text(s@) ==> match format_for_name(ascii_lowercase(s@)) {
                Some(x) => r == Ok::<OutputFormat, String>(x),
                None => r is Err,
            },
    {
        OutputFormat::parse_name(s)
    }
}

/// Encodes messages in the given format.
pub fn to_format_string(messages: &[Message], format: OutputFormat, config: &OutputConfig) -> (r:
    Result<String, ChatpackError>)
    ensures
        match format {
            OutputFormat::Csv => r matches Ok(s) && s@ == csv_lines(csv_rows(msg_views(messages@), *config)),
            OutputFormat::Json => r matches Ok(s) && s@ == json_document(msg_views(messages@), *config),
            OutputFormat::Jsonl => r matches Ok(s) && s@ == jsonl_document(msg_views(messages@), *config),
        },
{
    match format {
        OutputFormat::Csv => to_csv(messages, config),
        OutputFormat::Json => to_json(messages, config),
        OutputFormat::Jsonl => to_jsonl(messages, config),
    }
}

} // verus!
