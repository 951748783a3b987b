use chatpack::error::ChatpackError;
use chatpack::generator::{
    escape_json, garbage_line, telegram_record_line, toxic_message, whatsapp_record_line, whatsapp_stamp, zalgo_text,
};
use chatpack::message::Message;
use chatpack::processing::filter::{FilterConfig, apply_filters};
use chatpack::processing::models::OutputConfig;
use chatpack::processing::output::{build_header, build_record, to_csv, to_json, to_jsonl};
use chatpack::processing::processor::{merge_consecutive, process_messages};
use chatpack::progress::Progress;
use chatpack::timestamp::Timestamp;

fn msg(sender: &str, content: &str) -> Message {
    Message::new(sender, content)
}

fn at(sender: &str, content: &str, secs: i64) -> Message {
    Message::new(sender, content).with_timestamp(Timestamp::new(secs, 0))
}

#[test]
fn test_progress_is_complete() {
    let complete = Progress::new(1000, Some(1000), 100);
    assert!(complete.is_complete());
    let incomplete = Progress::new(500, Some(1000), 50);
    assert!(!incomplete.is_complete());
    let unknown = Progress::new(500, None, 50);
    assert!(!unknown.is_complete());
}

#[test]
fn test_progress_remaining_bytes() {
    let progress = Progress::new(300, Some(1000), 30);
    assert_eq!(progress.remaining_bytes(), Some(700));
    let unknown = Progress::new(300, None, 30);
    assert_eq!(unknown.remaining_bytes(), None);
}

// ---------------------------------------------------------------------------
// Further cases
// ---------------------------------------------------------------------------

#[test]
fn progress_past_total_and_items() {
    let p = Progress::new(1200, Some(1000), 3).with_items(10);
    assert_eq!(p.remaining_bytes(), Some(0));
    assert!(p.is_complete());
    assert_eq!(p.total_items, Some(10));
    assert_eq!(Progress::default(), Progress::new(0, None, 0));
}

#[test]
fn merge_joins_runs_of_one_sender() {
    let merged = merge_consecutive(vec![msg("Alice", "Hi"), msg("Alice", "there"), msg("Bob", "Yo"), msg("Alice", "!")]);
    assert_eq!(merged.len(), 3);
    assert_eq!(merged[0].content, "Hi\nthere");
    assert_eq!(merged[1].sender, "Bob");
    assert_eq!(merged[2].content, "!");
    assert!(merge_consecutive(vec![]).is_empty());
}

#[test]
fn merge_keeps_first_metadata_and_is_idempotent() {
    let input = vec![at("A", "1", 10).with_id(7), at("A", "2", 20), msg("B", "3")];
    let once = merge_consecutive(input);
    assert_eq!(once[0].timestamp.unwrap().secs, 10);
    assert_eq!(once[0].id, Some(7));
    let twice = merge_consecutive(once.clone());
    assert_eq!(once, twice);
    let alternating: Vec<Message> = (0..6).map(|i| msg(if i % 2 == 0 { "A" } else { "B" }, "x")).collect();
    assert_eq!(merge_consecutive(alternating).len(), 6);
    let same: Vec<Message> = (0..4).map(|i| msg("A", &format!("part{i}"))).collect();
    let one = merge_consecutive(same);
    assert_eq!(one.len(), 1);
    assert_eq!(one[0].content, "part0\npart1\npart2\npart3");
}

#[test]
fn filters_by_sender_and_date() {
    let msgs = vec![at("Alice", "a", 1705276800), at("bob", "b", 1705363200), msg("ALICE", "no time")];
    let by_user = apply_filters(msgs.clone(), &FilterConfig::new().with_user("alice".to_string()));
    assert_eq!(by_user.len(), 2);
    let after = apply_filters(msgs.clone(), &FilterConfig::new().after_date("2024-01-16").unwrap());
    assert_eq!(after.len(), 1);
    assert_eq!(after[0].sender, "bob");
    let before = apply_filters(msgs.clone(), &FilterConfig::new().before_date("2024-01-15").unwrap());
    assert_eq!(before.len(), 1);
    assert_eq!(before[0].sender, "Alice");
    assert_eq!(apply_filters(msgs.clone(), &FilterConfig::new()), msgs);
    assert!(apply_filters(msgs.clone(), &FilterConfig::new().with_user("nobody".to_string())).is_empty());
    let twice = apply_filters(by_user.clone(), &FilterConfig::new().with_user("alice".to_string()));
    assert_eq!(twice, by_user);
}

#[test]
fn invalid_filter_dates_are_errors() {
    match FilterConfig::new().after_date("2024/01/15") {
        Err(ChatpackError::InvalidDate { input, expected }) => {
            assert_eq!(input, "2024/01/15");
            assert_eq!(expected, "YYYY-MM-DD");
        }
        _ => panic!("expected an invalid-date error"),
    }
    assert!(FilterConfig::new().before_date("2023-02-29").is_err());
    assert!(FilterConfig::new().before_date("2024-02-29").is_ok());
}

#[test]
fn pipeline_filters_then_merges() {
    let msgs = vec![msg("A", "1"), msg("B", "x"), msg("A", "2"), msg("A", "3")];
    let f = FilterConfig::new().with_user("a".to_string());
    let (out, kept) = process_messages(msgs.clone(), &f, false);
    assert_eq!(kept, 3);
    assert_eq!(out.len(), 1);
    assert_eq!(out[0].content, "1\n2\n3");
    let (out, kept) = process_messages(msgs, &FilterConfig::new(), true);
    assert_eq!(kept, 4);
    assert_eq!(out.len(), 4);
}

#[test]
fn csv_output_exact() {
    let msgs = vec![msg("Alice", "Hello; \"world\""), msg("Bob", "two\nlines")];
    assert_eq!(
        to_csv(&msgs, &OutputConfig::new()).unwrap(),
        "Sender;Content\nAlice;\"Hello; \"\"world\"\"\"\nBob;\"two\nlines\"\n"
    );
    let with_meta = vec![at("A", "x", 1705314600).with_id(5).with_reply_to(4)];
    assert_eq!(
        to_csv(&with_meta, &OutputConfig::all()).unwrap(),
        "ID;Timestamp;Sender;Content;ReplyTo;Edited\n5;2024-01-15 10:30:00;A;x;4;\n"
    );
    assert_eq!(build_header(&OutputConfig::new()), vec!["Sender", "Content"]);
    assert_eq!(build_record(&with_meta[0], &OutputConfig::new().with_ids()), vec!["5", "A", "x"]);
}

#[test]
fn jsonl_output_one_line_per_message() {
    let msgs = vec![msg("Alice", "multi\nline \"quoted\""), at("Bob", "x", 1705314600)];
    let out = to_jsonl(&msgs, &OutputConfig::new().with_timestamps()).unwrap();
    assert_eq!(out.lines().count(), 2);
    assert_eq!(
        out,
        "{\"sender\":\"Alice\",\"content\":\"multi\\nline \\\"quoted\\\"\"}\n{\"sender\":\"Bob\",\"content\":\"x\",\"timestamp\":\"2024-01-15T10:30:00Z\"}\n"
    );
    assert_eq!(to_jsonl(&[], &OutputConfig::new()).unwrap(), "");
}

#[test]
fn json_output_exact() {
    let msgs = vec![msg("A", "1").with_id(3), msg("B", "2")];
    assert_eq!(
        to_json(&msgs, &OutputConfig::new().with_ids()).unwrap(),
        "[\n  {\n    \"sender\": \"A\",\n    \"content\": \"1\",\n    \"id\": 3\n  },\n  {\n    \"sender\": \"B\",\n    \"content\": \"2\"\n  }\n]"
    );
    assert_eq!(to_json(&[], &OutputConfig::new()).unwrap(), "[]");
}

#[test]
fn generator_escapes_json() {
    assert_eq!(escape_json("a\"b\\c\nd\re\tf"), "a\\\"b\\\\c\\nd\\re\\tf");
    assert_eq!(escape_json("\u{1}\u{7f}\u{9f}é"), "\\u0001\\u007f\\u009fé");
    assert_eq!(escape_json(""), "");
}

#[test]
fn message_accessors() {
    let m = msg("A", "  ").with_edited(Timestamp::new(5, 0));
    assert!(m.is_empty());
    assert!(m.has_metadata());
    assert_eq!(m.sender(), "A");
    assert_eq!(m.edited(), Some(Timestamp::new(5, 0)));
    assert!(!msg("A", "b").has_metadata());
    assert!(Timestamp::new(1, 0).is_before(&Timestamp::new(1, 5)));
}

#[test]
fn error_texts() {
    assert_eq!(ChatpackError::invalid_date("x").to_display_string(), "Invalid date 'x'. Expected format: YYYY-MM-DD");
    assert_eq!(
        ChatpackError::buffer_overflow(1024, 2048).to_display_string(),
        "Message too large: 2048 bytes (maximum: 1024 bytes)"
    );
    let e = ChatpackError::telegram_parse("bad".to_string(), Some("a.json".to_string()));
    assert!(e.is_parse());
    assert_eq!(e.to_display_string(), "Failed to parse Telegram JSON export (file: a.json): bad");
    assert!(ChatpackError::unexpected_eof("reading").to_display_string().contains("while reading"));
}

#[test]
fn csv_usage_example() {
    let msgs = vec![msg("Alice", "Hey! How are you?"), msg("Bob", "Good thanks!"), msg("Alice", "Want to grab lunch?")];
    assert_eq!(
        to_csv(&msgs, &OutputConfig::new()).unwrap(),
        "Sender;Content\nAlice;Hey! How are you?\nBob;Good thanks!\nAlice;Want to grab lunch?\n"
    );
}

#[test]
fn csv_quotes_carriage_return_and_keeps_empty_fields() {
    let msgs = vec![msg("Alice", "a\rb"), msg("Bob", "")];
    assert_eq!(to_csv(&msgs, &OutputConfig::new()).unwrap(), "Sender;Content\nAlice;\"a\rb\"\nBob;\n");
}

#[test]
fn end_date_includes_the_whole_day() {
    let config = FilterConfig::new().with_date_to("2024-01-15").unwrap();
    let last_second = 1_705_363_199; // 2024-01-15 23:59:59 UTC
    let msgs = vec![
        Message::new("A", "x").with_timestamp(Timestamp::new(last_second, 500_000_000)),
        Message::new("B", "y").with_timestamp(Timestamp::new(last_second, 999_999_999)),
        Message::new("C", "z").with_timestamp(Timestamp::new(last_second + 1, 0)),
    ];
    let kept = apply_filters(msgs, &config);
    assert_eq!(kept.len(), 2);
    assert_eq!(kept[0].sender, "A");
    assert_eq!(kept[1].sender, "B");
}

#[test]
fn generator_record_layouts() {
    assert_eq!(
        telegram_record_line(1, 1_700_000_000, "Al\"ice", "a\nb", false),
        "    {\"id\": 1, \"type\": \"message\", \"date_unixtime\": \"1700000000\", \"from\": \"Al\\\"ice\", \"text\": \"a\\nb\"},"
    );
    assert!(telegram_record_line(2, 1_700_000_001, "Bob", "x", true).ends_with("\"text\": \"x\"}"));
    assert_eq!(whatsapp_stamp(0), "[1/15/24, 10:0:00 AM]");
    assert_eq!(whatsapp_stamp(1), "[15.02.24, 10:1:00]");
    assert_eq!(whatsapp_stamp(2), "26.10.2025, 12:02");
    assert_eq!(whatsapp_stamp(3), "4/01/2024, 3:03");
    assert_eq!(whatsapp_record_line(7, "Bob", "one\ntwo"), "8/01/2024, 7:07 - Bob: one two\n");
}

#[test]
fn generator_messages_and_garbage_lines() {
    let none: Vec<Vec<usize>> = Vec::new();
    assert_eq!(toxic_message(3, &[], &none), "Normal message #3 with some text");
    assert_eq!(toxic_message(26, &[], &none), "Message with semicolons; here; and; there; index=26");
    assert_eq!(toxic_message(9, &["😀", "🔥"], &none), "Emoji spam: 😀🔥 #9");
    assert_eq!(toxic_message(16, &[], &none), "");
    assert_eq!(toxic_message(18, &[], &none), "\n\n\n");
    assert_eq!(toxic_message(19, &[], &none), "Control chars: \x00\x01\x02\x03 #19");
    let giant = toxic_message(11, &[], &none);
    assert!(giant.starts_with("Giant message #11: X"));
    assert_eq!(giant.len(), "Giant message #11: ".len() + 100_000);
    let marks = vec![vec![0, 65], vec![1]];
    assert_eq!(zalgo_text("ab", &marks), "a\u{0300}\u{0341}b\u{0301}");
    assert_eq!(zalgo_text("abc", &marks), "a\u{0300}\u{0341}b\u{0301}c");
    assert_eq!(toxic_message(10, &[], &marks), "T\u{0300}\u{0341}h\u{0301}is is zalgo text");
    assert_eq!(garbage_line(2), "-------------------------------------------\n");
    assert_eq!(garbage_line(3), "\n");
    assert_eq!(garbage_line(9), "garbage\n");
}
