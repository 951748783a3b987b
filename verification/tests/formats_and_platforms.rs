use std::collections::HashSet;
use std::str::FromStr;

use chatpack::format::{OutputFormat, to_format_string};
use chatpack::message::Message;
use chatpack::parser::Platform;
use chatpack::processing::models::OutputConfig;

#[test]
fn format_test_format_from_str() {
    assert_eq!(OutputFormat::from_str("csv").unwrap(), OutputFormat::Csv);
    assert_eq!(OutputFormat::from_str("json").unwrap(), OutputFormat::Json);
    assert_eq!(OutputFormat::from_str("jsonl").unwrap(), OutputFormat::Jsonl);
    assert_eq!(OutputFormat::from_str("ndjson").unwrap(), OutputFormat::Jsonl);
    assert_eq!(OutputFormat::from_str("CSV").unwrap(), OutputFormat::Csv);
    assert!(OutputFormat::from_str("unknown").is_err());
}

#[test]
fn test_format_display() {
    assert_eq!(OutputFormat::Csv.to_display_string(), "CSV");
    assert_eq!(OutputFormat::Json.to_display_string(), "JSON");
    assert_eq!(OutputFormat::Jsonl.to_display_string(), "JSONL");
}

#[test]
fn format_test_format_extension() {
    assert_eq!(OutputFormat::Csv.extension(), "csv");
    assert_eq!(OutputFormat::Json.extension(), "json");
    assert_eq!(OutputFormat::Jsonl.extension(), "jsonl");
}

#[test]
fn test_format_mime_type() {
    assert_eq!(OutputFormat::Csv.mime_type(), "text/csv");
    assert_eq!(OutputFormat::Json.mime_type(), "application/json");
    assert_eq!(OutputFormat::Jsonl.mime_type(), "application/x-ndjson");
}

#[test]
fn test_format_from_path() {
    assert_eq!(OutputFormat::from_path("output.csv").unwrap(), OutputFormat::Csv);
    assert_eq!(OutputFormat::from_path("output.json").unwrap(), OutputFormat::Json);
    assert_eq!(OutputFormat::from_path("output.jsonl").unwrap(), OutputFormat::Jsonl);
    assert_eq!(OutputFormat::from_path("output.ndjson").unwrap(), OutputFormat::Jsonl);
    assert_eq!(OutputFormat::from_path("/path/to/file.JSON").unwrap(), OutputFormat::Json);
    assert!(OutputFormat::from_path("output.txt").is_err());
}

#[test]
fn test_format_all() {
    let all = OutputFormat::all();
    assert_eq!(all.len(), 3);
    assert!(all.contains(&OutputFormat::Csv));
    assert!(all.contains(&OutputFormat::Json));
    assert!(all.contains(&OutputFormat::Jsonl));
}

#[test]
fn test_format_default() {
    assert_eq!(OutputFormat::default(), OutputFormat::Csv);
}

#[test]
fn test_platform_from_str() {
    assert_eq!(Platform::from_str("telegram").unwrap(), Platform::Telegram);
    assert_eq!(Platform::from_str("tg").unwrap(), Platform::Telegram);
    assert_eq!(Platform::from_str("TELEGRAM").unwrap(), Platform::Telegram);
    assert_eq!(Platform::from_str("whatsapp").unwrap(), Platform::WhatsApp);
    assert_eq!(Platform::from_str("wa").unwrap(), Platform::WhatsApp);
    assert_eq!(Platform::from_str("instagram").unwrap(), Platform::Instagram);
    assert_eq!(Platform::from_str("ig").unwrap(), Platform::Instagram);
    assert_eq!(Platform::from_str("discord").unwrap(), Platform::Discord);
    assert_eq!(Platform::from_str("dc").unwrap(), Platform::Discord);
}

#[test]
fn parser_test_platform_from_str_case_insensitive() {
    assert_eq!(Platform::from_str("TeLegRaM").unwrap(), Platform::Telegram);
    assert_eq!(Platform::from_str("TG").unwrap(), Platform::Telegram);
    assert_eq!(Platform::from_str("WhAtSaPp").unwrap(), Platform::WhatsApp);
    assert_eq!(Platform::from_str("WA").unwrap(), Platform::WhatsApp);
    assert_eq!(Platform::from_str("InStAgRaM").unwrap(), Platform::Instagram);
    assert_eq!(Platform::from_str("IG").unwrap(), Platform::Instagram);
    assert_eq!(Platform::from_str("DiScOrD").unwrap(), Platform::Discord);
    assert_eq!(Platform::from_str("DC").unwrap(), Platform::Discord);
}

#[test]
fn parser_test_platform_from_str_error() {
    let err = Platform::from_str("unknown").unwrap_err();
    assert!(err.contains("Unknown platform"));
    assert!(err.contains("unknown"));
    let err = Platform::from_str("").unwrap_err();
    assert!(err.contains("Unknown platform"));
    let err = Platform::from_str("telegramx").unwrap_err();
    assert!(err.contains("Unknown platform"));
}

#[test]
fn parser_test_platform_display() {
    assert_eq!(Platform::Telegram.to_display_string(), "Telegram");
    assert_eq!(Platform::WhatsApp.to_display_string(), "WhatsApp");
    assert_eq!(Platform::Instagram.to_display_string(), "Instagram");
    assert_eq!(Platform::Discord.to_display_string(), "Discord");
}

#[test]
fn parser_test_platform_default_extension() {
    assert_eq!(Platform::Telegram.default_extension(), "json");
    assert_eq!(Platform::WhatsApp.default_extension(), "txt");
    assert_eq!(Platform::Instagram.default_extension(), "json");
    assert_eq!(Platform::Discord.default_extension(), "json");
}

#[test]
fn test_platform_all() {
    let all = Platform::all();
    assert_eq!(all.len(), 4);
    assert!(all.contains(&Platform::Telegram));
    assert!(all.contains(&Platform::WhatsApp));
    assert!(all.contains(&Platform::Instagram));
    assert!(all.contains(&Platform::Discord));
}

#[test]
fn parser_test_platform_all_names() {
    let names = Platform::all_names();
    assert!(names.contains(&"telegram"));
    assert!(names.contains(&"tg"));
    assert!(names.contains(&"whatsapp"));
    assert!(names.contains(&"wa"));
    assert!(names.contains(&"instagram"));
    assert!(names.contains(&"ig"));
    assert!(names.contains(&"discord"));
    assert!(names.contains(&"dc"));
}

#[test]
fn test_platform_clone_copy() {
    let p1 = Platform::Telegram;
    let p2 = p1;
    let p3 = p1.clone();
    assert_eq!(p1, p2);
    assert_eq!(p1, p3);
}

#[test]
fn test_platform_debug() {
    let debug = format!("{:?}", Platform::Telegram);
    assert!(debug.contains("Telegram"));
}

#[test]
fn test_platform_eq_hash() {
    let mut set = HashSet::new();
    set.insert(Platform::Telegram);
    set.insert(Platform::WhatsApp);
    set.insert(Platform::Telegram);
    assert_eq!(set.len(), 2);
    assert!(set.contains(&Platform::Telegram));
    assert!(set.contains(&Platform::WhatsApp));
}

// ---------------------------------------------------------------------------
// Further cases
// ---------------------------------------------------------------------------

#[test]
fn platform_name_round_trip() {
    for p in Platform::all() {
        assert_eq!(Platform::from_str(&p.to_display_string()).unwrap(), p);
    }
    for f in OutputFormat::all() {
        assert_eq!(OutputFormat::from_str(&f.to_display_string()).unwrap(), f);
        assert_eq!(OutputFormat::from_str(f.extension()).unwrap(), f);
    }
}

#[test]
fn unknown_extension_error_text() {
    let e = OutputFormat::from_path("notes.txt").unwrap_err();
    assert_eq!(
        e.to_display_string(),
        "Invalid output format: Unknown file extension: '.txt'. Expected one of: csv, json, jsonl"
    );
    let e = OutputFormat::from_path("noext").unwrap_err();
    assert!(e.to_display_string().contains("'.noext'"));
}

#[test]
fn format_string_dispatches() {
    let msgs = vec![Message::new("Alice", "Hi")];
    let c = OutputConfig::new();
    assert_eq!(to_format_string(&msgs, OutputFormat::Csv, &c).unwrap(), "Sender;Content\nAlice;Hi\n");
    assert_eq!(to_format_string(&msgs, OutputFormat::Jsonl, &c).unwrap(), "{\"sender\":\"Alice\",\"content\":\"Hi\"}\n");
    assert_eq!(
        to_format_string(&msgs, OutputFormat::Json, &c).unwrap(),
        "[\n  {\n    \"sender\": \"Alice\",\n    \"content\": \"Hi\"\n  }\n]"
    );
}
