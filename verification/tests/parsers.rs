use chatpack::async_parser::AsyncTelegramParser;
use chatpack::config::{InstagramConfig, TelegramConfig};
use chatpack::parser::Platform;
use chatpack::parsers::discord::{DiscordFormat, TxtReader};
use chatpack::parsers::{DiscordParser, InstagramParser, TelegramParser};
use chatpack::parsing::discord::{
    DiscordAttachment, DiscordAuthor, DiscordExport, DiscordRawMessage, DiscordReference, DiscordSticker,
    DiscordStreamMessage, parse_discord_message, parse_discord_stream_message,
};
use chatpack::parsing::instagram::{
    InstagramExport, InstagramRawMessage, InstagramShare, fix_mojibake_encoding, parse_instagram_message,
    parse_ms_timestamp,
};
use chatpack::parsing::telegram::{
    TelegramExport, TelegramRawMessage, TelegramText, TextPart, extract_telegram_text, parse_telegram_message,
    parse_unix_timestamp,
};
use chatpack::streaming::discord::{DiscordStreamingParser, jsonl_record_message, jsonl_record_text};
use chatpack::streaming::instagram::InstagramStreamingParser;
use chatpack::streaming::telegram::TelegramStreamingParser;
use chatpack::streaming::traits::StreamingConfig;

#[test]
fn test_parser_platform() {
    let parser = TelegramParser::new();
    assert_eq!(parser.platform(), Platform::Telegram);
}

#[test]
fn telegram_test_parser_default() {
    let parser = TelegramParser::default();
    assert!(!parser.config().streaming);
    let streaming = TelegramStreamingParser::default();
    assert_eq!(streaming.name(), "Telegram (Streaming)");
}

#[test]
fn telegram_test_parser_with_config() {
    let config = TelegramConfig::new().with_streaming(true);
    let parser = TelegramParser::with_config(config);
    assert!(parser.config().streaming);
    let config = StreamingConfig::default()
        .with_buffer_size(512 * 1024)
        .with_max_message_size(2 * 1024 * 1024)
        .with_skip_invalid(true);
    let parser = TelegramStreamingParser::with_config(config);
    assert_eq!(parser.name(), "Telegram (Streaming)");
}

#[test]
fn test_parser_with_streaming() {
    let parser = TelegramParser::with_streaming();
    assert!(parser.config().streaming);
}

#[test]
fn test_parser_config_accessor() {
    let parser = TelegramParser::new();
    let config = parser.config();
    assert_eq!(config.buffer_size, 64 * 1024);
}

#[test]
fn test_supports_streaming_false_by_default() {
    let parser = TelegramParser::new();
    assert!(!parser.supports_streaming());
}

#[test]
fn test_supports_streaming_true_when_enabled() {
    let parser = TelegramParser::with_streaming();
    assert!(parser.supports_streaming());
}

#[test]
fn telegram_test_recommended_buffer_size() {
    let parser = TelegramParser::new();
    assert_eq!(parser.recommended_buffer_size(), 64 * 1024);
    let streaming_parser = TelegramParser::with_streaming();
    assert_eq!(streaming_parser.recommended_buffer_size(), 256 * 1024);
    let parser = TelegramStreamingParser::new();
    assert!(parser.recommended_buffer_size() > 0);
}

#[test]
fn test_parser_new() {
    let parser = TelegramStreamingParser::new();
    assert_eq!(parser.name(), "Telegram (Streaming)");
}

#[test]
fn telegram_test_parser_name() {
    let parser = TelegramStreamingParser::new();
    assert_eq!(parser.name(), "Telegram (Streaming)");
    assert_eq!(TelegramParser::new().name(), "Telegram");
}

#[test]
fn discord_test_parser_name() {
    let parser = DiscordParser::new();
    assert_eq!(parser.name(), "Discord");
    let parser = DiscordStreamingParser::new();
    assert_eq!(parser.name(), "Discord (Streaming)");
}

#[test]
fn discord_test_parser_default() {
    let parser = DiscordParser;
    assert_eq!(parser.name(), "Discord");
}

#[test]
fn test_format_detection() {
    assert!(matches!(DiscordParser::detect_format("test.json", ""), DiscordFormat::Json));
    assert!(matches!(DiscordParser::detect_format("test.csv", ""), DiscordFormat::Csv));
    assert!(matches!(DiscordParser::detect_format("test.txt", ""), DiscordFormat::Txt));
    assert!(matches!(DiscordParser::detect_format("test.JSON", ""), DiscordFormat::Json));
    assert!(matches!(DiscordParser::detect_format("test.CSV", ""), DiscordFormat::Csv));
    assert!(matches!(DiscordParser::detect_format("test", r#"{"messages":[]}"#), DiscordFormat::Json));
    assert!(matches!(DiscordParser::detect_format("test", "AuthorID,Author,Date"), DiscordFormat::Csv));
}

#[test]
fn test_is_jsonl_detection() {
    assert!(DiscordStreamingParser::is_jsonl(
        r#"{"id":"1","timestamp":"2024-01-01T00:00:00Z","content":"hi","author":{"name":"bob"}}"#
    ));
    assert!(!DiscordStreamingParser::is_jsonl(r#"{"guild":{"id":"123"},"messages":["#));
}

#[test]
fn test_fix_encoding_ascii() {
    assert_eq!(fix_mojibake_encoding("Hello"), "Hello");
    assert_eq!(fix_mojibake_encoding("Test 123"), "Test 123");
}

#[test]
fn test_fix_encoding() {
    assert_eq!(fix_mojibake_encoding("Hello"), "Hello");
}

#[test]
fn instagram_test_parser_name() {
    let parser = InstagramStreamingParser::new();
    assert_eq!(parser.name(), "Instagram (Streaming)");
    assert_eq!(InstagramParser::new().name(), "Instagram");
}

// ---------------------------------------------------------------------------
// Further cases
// ---------------------------------------------------------------------------

fn tg(id: u64, kind: &str, from: Option<&str>, text: Option<TelegramText>) -> TelegramRawMessage {
    TelegramRawMessage {
        id: Some(id),
        msg_type: kind.to_string(),
        date_unixtime: Some("1705314600".to_string()),
        from: from.map(|s| s.to_string()),
        text,
        reply_to_message_id: None,
        edited_unixtime: None,
    }
}

#[test]
fn telegram_text_extraction() {
    assert_eq!(extract_telegram_text(&TelegramText::Plain("Hello world".to_string())), "Hello world");
    let parts = TelegramText::Parts(vec![
        TextPart::Plain("Check this: ".to_string()),
        TextPart::Entity(Some("https://example.com".to_string())),
        TextPart::Plain(" cool!".to_string()),
        TextPart::Entity(None),
        TextPart::Other,
    ]);
    assert_eq!(extract_telegram_text(&parts), "Check this: https://example.com cool!");
    assert_eq!(extract_telegram_text(&TelegramText::Other), "");
    assert_eq!(extract_telegram_text(&TelegramText::Parts(vec![])), "");
}

#[test]
fn telegram_unix_timestamps() {
    let ts = parse_unix_timestamp("1705314600").unwrap();
    assert_eq!(ts.timestamp(), 1705314600);
    assert_eq!(ts.nanos, 0);
    assert!(parse_unix_timestamp("not-a-number").is_none());
    assert!(parse_unix_timestamp("").is_none());
    assert_eq!(parse_unix_timestamp("-5").unwrap().secs, -5);
}

#[test]
fn telegram_records_become_messages() {
    let basic = tg(123, "message", Some("Alice"), Some(TelegramText::Plain("Hello!".to_string())));
    let m = parse_telegram_message(&basic).unwrap();
    assert_eq!(m.sender, "Alice");
    assert_eq!(m.content, "Hello!");
    assert_eq!(m.timestamp.unwrap().secs, 1705314600);
    assert_eq!(m.id, Some(123));
    assert!(parse_telegram_message(&tg(1, "service", Some("A"), Some(TelegramText::Plain("pinned".into())))).is_none());
    assert!(parse_telegram_message(&tg(1, "message", Some("A"), Some(TelegramText::Plain("   ".into())))).is_none());
    assert!(parse_telegram_message(&tg(1, "message", None, Some(TelegramText::Plain("x".into())))).is_none());
    assert!(parse_telegram_message(&tg(1, "message", Some("A"), None)).is_none());
    let mut edited = tg(2, "message", Some("Bob"), Some(TelegramText::Plain("e".into())));
    edited.edited_unixtime = Some("1234567899".into());
    edited.reply_to_message_id = Some(1);
    let m = parse_telegram_message(&edited).unwrap();
    assert_eq!(m.edited.unwrap().secs, 1234567899);
    assert_eq!(m.reply_to, Some(1));
}

#[test]
fn telegram_export_filters_records() {
    let export = TelegramExport {
        messages: vec![
            tg(1, "message", Some("Alice"), Some(TelegramText::Plain("Hello".into()))),
            tg(2, "service", Some("System"), Some(TelegramText::Plain("joined".into()))),
            tg(3, "message", Some("Bob"), Some(TelegramText::Plain("".into()))),
            tg(4, "message", Some("Carol"), Some(TelegramText::Plain("Hi".into()))),
        ],
    };
    let msgs = TelegramParser::new().parse_export(&export);
    assert_eq!(msgs.len(), 2);
    assert_eq!(msgs[0].sender, "Alice");
    assert_eq!(msgs[1].sender, "Carol");
    let async_parser = AsyncTelegramParser::new();
    assert_eq!(async_parser.name(), "Telegram (Async)");
    assert_eq!(async_parser.parse_export(&export).len(), 2);
    assert_eq!(AsyncTelegramParser::with_config(TelegramConfig::new()).parse_export(&export).len(), 2);
}

fn ig(sender: &str, ms: i64, content: Option<&str>) -> InstagramRawMessage {
    InstagramRawMessage {
        sender_name: sender.to_string(),
        timestamp_ms: ms,
        content: content.map(|s| s.to_string()),
        share: None,
        photos: None,
        videos: None,
        audio_files: None,
    }
}

#[test]
fn instagram_records_and_order() {
    let m = parse_instagram_message(&ig("user_one", 1705315800000, Some("Hello!")), false).unwrap();
    assert_eq!(m.sender, "user_one");
    assert_eq!(m.content, "Hello!");
    assert!(parse_instagram_message(&ig("user", 1705315800000, None), false).is_none());
    let mut shared = ig("user", 1705315800000, None);
    shared.share = Some(InstagramShare { share_text: Some("Check this out!".into()), link: Some("https://example.com".into()) });
    assert_eq!(parse_instagram_message(&shared, false).unwrap().content, "Check this out!");

    let export = InstagramExport {
        messages: vec![ig("b", 2000, Some("second")), ig("a", 1000, Some("first")), ig("c", 500, None)],
    };
    let msgs = InstagramParser::new().parse_export(&export);
    assert_eq!(msgs.len(), 2);
    assert_eq!(msgs[0].content, "first");
    assert_eq!(msgs[1].content, "second");
    let p = InstagramParser::with_config(InstagramConfig::new().with_fix_encoding(false));
    assert!(!p.config().fix_encoding);
    assert!(InstagramParser::with_streaming().supports_streaming());
}

#[test]
fn instagram_mojibake_is_repaired() {
    let garbled: String = "Привет".as_bytes().iter().map(|b| *b as char).collect();
    assert_ne!(garbled, "Привет");
    assert_eq!(fix_mojibake_encoding(&garbled), "Привет");
    let m = parse_instagram_message(&ig(&garbled, 0, Some(&garbled)), true).unwrap();
    assert_eq!(m.sender, "Привет");
    assert_eq!(m.content, "Привет");
    assert_eq!(fix_mojibake_encoding("\u{00ff}"), "\u{00ff}");
    assert_eq!(fix_mojibake_encoding(""), "");
}

#[test]
fn instagram_millisecond_timestamps() {
    let t = parse_ms_timestamp(1705315800123).unwrap();
    assert_eq!(t.secs, 1705315800);
    assert_eq!(t.nanos, 123_000_000);
    let t = parse_ms_timestamp(-1).unwrap();
    assert_eq!(t.secs, -1);
    assert_eq!(t.nanos, 999_000_000);
}

fn dc(content: &str) -> DiscordRawMessage {
    DiscordRawMessage {
        id: "123456789".to_string(),
        timestamp: "2024-01-15T10:30:00+00:00".to_string(),
        timestamp_edited: None,
        content: content.to_string(),
        author: DiscordAuthor { name: "alice".to_string(), nickname: None },
        reference: None,
        attachments: None,
        stickers: None,
    }
}

#[test]
fn discord_records_become_messages() {
    let m = parse_discord_message(&dc("Hello world")).unwrap();
    assert_eq!(m.sender, "alice");
    assert_eq!(m.content, "Hello world");
    assert_eq!(m.timestamp.unwrap().secs, 1705314600);
    assert_eq!(m.id, Some(123456789));
    assert!(parse_discord_message(&dc("  ")).is_none());

    let mut nick = dc("Hi");
    nick.author.nickname = Some("Alice".into());
    nick.reference = Some(DiscordReference { message_id: Some("42".into()) });
    nick.timestamp_edited = Some("2024-01-15T11:00:00+01:00".into());
    let m = parse_discord_message(&nick).unwrap();
    assert_eq!(m.sender, "Alice");
    assert_eq!(m.reply_to, Some(42));
    assert_eq!(m.edited.unwrap().secs, 1705312800);

    let mut att = dc("Check this");
    att.attachments = Some(vec![DiscordAttachment { file_name: "image.png".into() }]);
    att.stickers = Some(vec![DiscordSticker { name: "Cool".into() }]);
    assert_eq!(parse_discord_message(&att).unwrap().content, "Check this\n[Attachment: image.png]\n[Sticker: Cool]");

    let mut only = dc("");
    only.stickers = Some(vec![DiscordSticker { name: "Reaction".into() }]);
    assert_eq!(parse_discord_message(&only).unwrap().content, "[Sticker: Reaction]");

    let export = DiscordExport { messages: vec![dc("a"), dc(""), dc("b")] };
    assert_eq!(DiscordParser::new().parse_export(&export).len(), 2);
}

#[test]
fn discord_stream_records() {
    let rec = DiscordStreamMessage {
        id: "7".into(),
        timestamp: "2024-01-15T10:30:00Z".into(),
        timestamp_edited: None,
        content: "hi".into(),
        author: DiscordAuthor { name: "bob".into(), nickname: None },
        reference: Some(DiscordReference { message_id: Some("3".into()) }),
    };
    let m = parse_discord_stream_message(&rec).unwrap();
    assert_eq!(m.reply_to, Some(3));
    let j = jsonl_record_message(&rec).unwrap();
    assert_eq!(j.reply_to, None);
    assert_eq!(j.id, Some(7));
    assert_eq!(DiscordStreamingParser::new().recommended_buffer_size(), 64 * 1024);
}

#[test]
fn discord_txt_export() {
    let txt = "==============\nGuild / channel\n==============\n\n\
[1/15/2024 10:30 AM] alice\nHello there\nsecond line\n\n\
[1/15/2024 10:31 AM] bob\n{Attachments}\nhttps://cdn.example.com/files/photo.jpg\n\n\
[1/15/2024 10:32 AM] carol\n   \n";
    let msgs = DiscordParser::new().parse_txt(txt).unwrap();
    assert_eq!(msgs.len(), 2);
    assert_eq!(msgs[0].sender, "alice");
    assert_eq!(msgs[0].content, "Hello there\nsecond line");
    assert_eq!(msgs[0].timestamp.unwrap().secs, 1705314600);
    assert_eq!(msgs[1].content, "[Attachment: photo.jpg]");
    assert_eq!(DiscordParser::parse_txt_timestamp(" 1/15/2024 10:30:15 ").unwrap().secs, 1705314615);
}

#[test]
fn discord_csv_export() {
    let csv = "AuthorID,Author,Date,Content,Attachments,Reactions\n\
1,alice,2024-01-15T10:30:00+00:00,Hello,,\n\
2,bob,2024-01-15T10:31:00+00:00,,\"https://x/a.png, https://x/b.png\",\n\
3,carol,2024-01-15T10:32:00+00:00,,,\n";
    let msgs = DiscordParser::new().parse_csv(csv.as_bytes()).unwrap();
    assert_eq!(msgs.len(), 2);
    assert_eq!(msgs[0].sender, "alice");
    assert_eq!(msgs[0].content, "Hello");
    assert_eq!(msgs[0].timestamp.unwrap().secs, 1705314600);
    assert_eq!(msgs[1].content, "[Attachment: a.png]\n[Attachment: b.png]");
    let bad = DiscordParser::new().parse_csv(&[0xff, 0xfe, b'\n', 0xff]);
    assert!(bad.is_err());
}

#[test]
fn unix_timestamps_in_range_parse_to_themselves() {
    for ts in [1_000_000_000i64, 1_234_567_890, 1_999_999_999, 0, -86_400, 8_000_000_000_000] {
        let parsed = parse_unix_timestamp(&ts.to_string()).unwrap();
        assert_eq!(parsed.timestamp(), ts);
        assert_eq!(parsed.nanos, 0);
    }
    assert!(parse_unix_timestamp("9223372036854775807").is_none());
    for ms in [1_705_315_800_000i64, -1, 0] {
        let t = parse_ms_timestamp(ms).unwrap();
        assert_eq!(t.secs, ms.div_euclid(1000));
        assert_eq!(t.nanos as i64, ms.rem_euclid(1000) * 1_000_000);
    }
}

#[test]
fn mojibake_windows1252_example_is_repaired() {
    assert_eq!(fix_mojibake_encoding("ÐŸÑ€Ð¸Ð²ÐµÑ‚"), "Привет");
    // ISO-8859-1 form (C1 control characters) is repaired too.
    assert_eq!(fix_mojibake_encoding("\u{d0}\u{9f}\u{d1}\u{80}"), "Пр");
    // Text whose bytes are not UTF-8 is kept.
    assert_eq!(fix_mojibake_encoding("Ð"), "Ð");
    // Characters outside both tables keep only their low byte, as in the
    // original repair.
    assert_eq!(fix_mojibake_encoding("Привет"), "\u{1f}@825B");
}

#[test]
fn csv_records_to_messages() {
    let recs = vec![
        vec!["1".to_string(), "alice".to_string(), "2024-01-15T10:30:00+00:00".to_string(), "Hi".to_string(), "".to_string()],
        vec!["2".to_string(), "bob".to_string(), "bad".to_string(), " ".to_string(), "".to_string()],
        vec!["3".to_string(), "carol".to_string(), "".to_string(), "".to_string(), "https://x/a.png, https://x/b.png".to_string()],
        vec!["4".to_string()],
    ];
    let msgs = DiscordParser::csv_records_messages(&recs);
    assert_eq!(msgs.len(), 2);
    assert_eq!(msgs[0].sender, "alice");
    assert_eq!(msgs[0].content, "Hi");
    assert_eq!(msgs[0].timestamp.unwrap().secs, 1_705_314_600);
    assert_eq!(msgs[1].content, "[Attachment: a.png]\n[Attachment: b.png]");
    assert!(msgs[1].timestamp.is_none());
}

#[test]
fn txt_reader_steps_with_given_captures() {
    let chars = |s: &str| s.chars().collect::<Vec<char>>();
    let mut r = TxtReader::new();
    r.step(&chars("preamble"), None);
    r.step(
        &chars("[1/15/2024 10:30 AM] alice"),
        Some(vec![Some("[1/15/2024 10:30 AM] alice".to_string()), Some("1/15/2024 10:30 AM".to_string()), Some("alice".to_string())]),
    );
    r.step(&chars("hello"), None);
    r.step(&chars("{Attachments}"), None);
    r.step(&chars("https://cdn/x/photo.jpg"), None);
    r.step(&chars("[1/15/2024 10:31 AM] bob"), Some(vec![None, Some("1/15/2024 10:31 AM".to_string()), Some("bob".to_string())]));
    r.step(&chars("   "), None);
    let msgs = r.finish();
    assert_eq!(msgs.len(), 1);
    assert_eq!(msgs[0].sender, "alice");
    assert_eq!(msgs[0].content, "hello\n[Attachment: photo.jpg]");
    assert_eq!(msgs[0].timestamp.unwrap().secs, 1_705_314_600);
}

#[test]
fn jsonl_blank_lines_hold_no_record() {
    assert_eq!(jsonl_record_text("  {\"id\": 1}\n"), Some("{\"id\": 1}".to_string()));
    assert_eq!(jsonl_record_text(" \t\n"), None);
    assert_eq!(jsonl_record_text(""), None);
}
