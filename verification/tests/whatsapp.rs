use chatpack::config::WhatsAppConfig;
use chatpack::parser::Platform;
use chatpack::parsers::WhatsAppParser;
use chatpack::parsing::whatsapp::{
    DateFormat, detect_whatsapp_format, detect_whatsapp_format_owned, is_whatsapp_system_message,
    parse_whatsapp_timestamp,
};
use chatpack::streaming::whatsapp::{StreamStep, WhatsAppLineReader, WhatsAppStreamingParser};

#[test]
fn whatsapp_test_detect_format_us() {
    let lines = vec!["[1/15/24, 10:30:45 AM] Alice: Hello", "[1/15/24, 10:31:00 AM] Bob: Hi there"];
    assert_eq!(detect_whatsapp_format(&lines), Some(DateFormat::US));
    let owned = vec![
        "[1/15/24, 10:30:45 AM] Alice: Hello".to_string(),
        "[1/15/24, 10:31:00 AM] Bob: Hi there".to_string(),
    ];
    assert_eq!(detect_whatsapp_format_owned(&owned), Some(DateFormat::US));
}

#[test]
fn whatsapp_test_detect_format_eu_dot_bracketed() {
    let lines = vec!["[15.01.24, 10:30:45] Alice: Hello", "[15.01.24, 10:31:00] Bob: Hi there"];
    assert_eq!(detect_whatsapp_format(&lines), Some(DateFormat::EuDotBracketed));
}

#[test]
fn whatsapp_test_detect_format_eu_dot_no_bracket() {
    let lines = vec!["26.10.2025, 20:40 - Alice: Hello", "26.10.2025, 20:41 - Bob: Hi there"];
    assert_eq!(detect_whatsapp_format(&lines), Some(DateFormat::EuDotNoBracket));
}

#[test]
fn whatsapp_test_detect_format_eu_slash() {
    let lines = vec!["15/01/2024, 10:30 - Alice: Hello", "15/01/2024, 10:31 - Bob: Hi there"];
    assert_eq!(detect_whatsapp_format(&lines), Some(DateFormat::EuSlash));
}

#[test]
fn test_detect_format_eu_dot() {
    let lines = vec!["[15.01.24, 10:30:45] Alice: Hello".to_string(), "[15.01.24, 10:31:00] Bob: Hi there".to_string()];
    assert_eq!(detect_whatsapp_format_owned(&lines), Some(DateFormat::EuDotBracketed));
}

#[test]
fn whatsapp_test_is_system_message_english() {
    assert!(is_whatsapp_system_message("Alice", "Messages and calls are end-to-end encrypted"));
    assert!(is_whatsapp_system_message("Bob", "added Charlie to the group"));
    assert!(is_whatsapp_system_message("Alice", "left"));
    assert!(!is_whatsapp_system_message("Alice", "Hello everyone!"));
    assert!(!is_whatsapp_system_message("Bob", "<Media omitted>"));
}

#[test]
fn whatsapp_test_is_system_message_russian() {
    assert!(is_whatsapp_system_message("Система", "Сообщения и звонки защищены сквозным шифрованием"));
    assert!(is_whatsapp_system_message("Bob", "Подробнее"));
    assert!(!is_whatsapp_system_message("Муха", "Добрый вечер"));
    assert!(!is_whatsapp_system_message("Bob", "<Без медиафайлов>"));
}

#[test]
fn test_media_not_filtered() {
    assert!(!is_whatsapp_system_message("Alice", "<Media omitted>"));
    assert!(!is_whatsapp_system_message("Bob", "image omitted"));
    assert!(!is_whatsapp_system_message("Муха", "<Без медиафайлов>"));
}

#[test]
fn whatsapp_test_empty_sender_is_system() {
    assert!(is_whatsapp_system_message("", "Some message"));
    assert!(is_whatsapp_system_message("   ", "Some message"));
}

#[test]
fn test_system_message_detection() {
    assert!(is_whatsapp_system_message("Alice", "Messages and calls are end-to-end encrypted"));
    assert!(!is_whatsapp_system_message("Alice", "Hello everyone!"));
    assert!(is_whatsapp_system_message("Bob", "added Charlie to the group"));
}

#[test]
fn whatsapp_test_parser_name() {
    let parser = WhatsAppStreamingParser::new();
    assert_eq!(parser.name(), "WhatsApp (Streaming)");
    assert_eq!(WhatsAppParser::new().name(), "WhatsApp");
}

// ---------------------------------------------------------------------------
// Further cases
// ---------------------------------------------------------------------------

#[test]
fn whatsapp_timestamps_are_exact() {
    let ts = parse_whatsapp_timestamp("1/15/24", "10:30:45 AM", DateFormat::US).unwrap();
    assert_eq!(ts.secs, 1705314645);
    assert_eq!(ts.nanos, 0);
    let ts = parse_whatsapp_timestamp("15.01.24", "10:30:45", DateFormat::EuDotBracketed).unwrap();
    assert_eq!(ts.secs, 1705314645);
    let ts = parse_whatsapp_timestamp("26.10.2025", "20:40", DateFormat::EuDotNoBracket).unwrap();
    assert_eq!(ts.secs, 1761511200);
    assert!(parse_whatsapp_timestamp("99/99/99", "10:30", DateFormat::EuSlash).is_none());
}

#[test]
fn whatsapp_sender_names_mark_system() {
    assert!(is_whatsapp_system_message("WhatsApp", "anything"));
    assert!(is_whatsapp_system_message("SYSTEM notice", "anything"));
    assert!(is_whatsapp_system_message("Alice", "ADDED nothing"));
    assert!(!is_whatsapp_system_message("Alice", "nothing special"));
}

#[test]
fn whatsapp_detect_empty_is_none() {
    let lines: Vec<&str> = Vec::new();
    assert_eq!(detect_whatsapp_format(&lines), None);
    assert_eq!(detect_whatsapp_format(&["just text", "more text"]), None);
}

#[test]
fn whatsapp_parse_multiline_and_system() {
    let text = "[1/15/24, 10:30:00 AM] Alice: Hello everyone!\n\
[1/15/24, 10:31:00 AM] Bob: Hi Alice!\n\
[1/15/24, 10:32:00 AM] Alice: How is everyone doing?\n\
This is a continuation line\n\
[1/15/24, 10:33:00 AM] Charlie: Messages and calls are end-to-end encrypted.\n\
[1/15/24, 10:34:00 AM] Bob: I'm doing great!";
    let msgs = WhatsAppParser::new().parse_str(text).unwrap();
    assert_eq!(msgs.len(), 4);
    assert_eq!(msgs[0].sender, "Alice");
    assert_eq!(msgs[0].content, "Hello everyone!");
    assert_eq!(msgs[0].timestamp.unwrap().secs, 1705314600);
    assert_eq!(msgs[2].content, "How is everyone doing?\nThis is a continuation line");
    assert_eq!(msgs[3].sender, "Bob");

    let keep = WhatsAppParser::with_config(WhatsAppConfig::new().with_skip_system_messages(false));
    assert_eq!(keep.parse_str(text).unwrap().len(), 5);
}

#[test]
fn whatsapp_parse_empty_and_unknown() {
    assert!(WhatsAppParser::new().parse_str("").unwrap().is_empty());
    let e = WhatsAppParser::new().parse_str("hello\nworld").unwrap_err();
    assert!(e.is_invalid_format());
    assert_eq!(
        e.to_display_string(),
        "Invalid WhatsApp format: Could not detect WhatsApp export format. Make sure the file is a valid WhatsApp chat export."
    );
}

#[test]
fn whatsapp_parser_settings() {
    let p = WhatsAppParser::default();
    assert!(!p.supports_streaming());
    assert_eq!(p.recommended_buffer_size(), 64 * 1024);
    assert_eq!(p.platform(), Platform::WhatsApp);
    let s = WhatsAppParser::with_streaming();
    assert!(s.config().streaming);
    assert_eq!(s.recommended_buffer_size(), 256 * 1024);
}

#[test]
fn whatsapp_pattern_and_formats() {
    assert!(DateFormat::US.pattern().starts_with("^\\["));
    assert_eq!(DateFormat::US.date_parse_formats().len(), 8);
    assert_eq!(DateFormat::EuSlash.date_parse_formats()[0], "%d/%m/%y, %H:%M:%S");
    assert_eq!(DateFormat::all().len(), 5);
}

fn drain(reader: &mut WhatsAppLineReader, rest: &[&str]) -> Vec<chatpack::Message> {
    let mut out = Vec::new();
    let mut lines = rest.iter();
    loop {
        match reader.next_step() {
            StreamStep::Yield(m) => out.push(m),
            StreamStep::Done => return out,
            StreamStep::NeedLine => match lines.next() {
                Some(l) => {
                    if let Some(m) = reader.on_line(l) {
                        out.push(m);
                    }
                }
                None => {
                    if let Some(m) = reader.on_eof() {
                        out.push(m);
                    }
                }
            },
        }
    }
}

#[test]
fn whatsapp_line_reader_streams_messages() {
    let sample = vec![
        "[1/15/24, 10:30:00 AM] Alice: Line 1\n".to_string(),
        "Line 2\n".to_string(),
        "Line 3   \n".to_string(),
        "[1/15/24, 10:31:00 AM] Bob: Reply\n".to_string(),
    ];
    let mut reader = WhatsAppLineReader::new(&sample);
    let msgs = drain(&mut reader, &["[1/15/24, 10:32:00 AM] Alice: Bye\n"]);
    assert_eq!(msgs.len(), 3);
    assert_eq!(msgs[0].content, "Line 1\nLine 2\nLine 3");
    assert_eq!(msgs[1].sender, "Bob");
    assert_eq!(msgs[2].content, "Bye");
}

#[test]
fn whatsapp_line_reader_without_layout_stops() {
    let sample = vec!["no layout here\n".to_string()];
    let mut reader = WhatsAppLineReader::new(&sample);
    assert!(drain(&mut reader, &["more"]).is_empty());
}

#[test]
fn blank_or_system_sender_is_system_notice() {
    for content in ["Hello", "Test", "Random message", ""] {
        assert!(is_whatsapp_system_message("", content));
        assert!(is_whatsapp_system_message("   ", content));
    }
    for content in ["Hello", "Test"] {
        assert!(is_whatsapp_system_message("WhatsApp", content));
        assert!(is_whatsapp_system_message("whatsapp", content));
        assert!(is_whatsapp_system_message("System", content));
        assert!(is_whatsapp_system_message("SYSTEM", content));
    }
    assert!(!is_whatsapp_system_message("Alice", "Hello"));
}

#[test]
fn platform_names_ignore_case() {
    assert_eq!(Platform::parse_name("TeLeGrAm"), Ok(Platform::Telegram));
    assert_eq!(Platform::parse_name("WA"), Ok(Platform::WhatsApp));
    assert!(Platform::parse_name("ICQ").is_err());
}

#[test]
fn eu_slash_bracketed_is_detected_when_days_exceed_twelve() {
    let lines = vec!["[15/01/2024, 10:30] Alice: Hello", "[16/01/2024, 10:31] Bob: Hi"];
    assert_eq!(detect_whatsapp_format(&lines), Some(DateFormat::EuSlashBracketed));
    let ambiguous = vec!["[05/01/2024, 10:30] Alice: Hello"];
    assert_eq!(detect_whatsapp_format(&ambiguous), Some(DateFormat::US));
    let messages = WhatsAppParser::new()
        .parse_str("[15/01/2024, 10:30] Alice: Hello\n[16/01/2024, 10:31] Bob: Hi")
        .unwrap();
    assert_eq!(messages.len(), 2);
    assert_eq!(messages[0].sender, "Alice");
    assert_eq!(messages[0].content, "Hello");
    assert_eq!(messages[0].timestamp.unwrap().secs, 1_705_314_600);
}

#[test]
fn us_only_line_with_day_first_number_stays_us() {
    let lines = vec!["[15/01/24, 10:30 AM] Bob: x"];
    assert_eq!(detect_whatsapp_format(&lines), Some(DateFormat::US));
    let messages = WhatsAppParser::new().parse_str("[15/01/24, 10:30 AM] Bob: x").unwrap();
    assert_eq!(messages.len(), 1);
    assert_eq!(messages[0].sender, "Bob");
    assert_eq!(messages[0].content, "x");
    assert!(messages[0].timestamp.is_none());
}
