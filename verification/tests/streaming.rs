use chatpack::error::{ChatpackError, StreamingErrorKind};
use chatpack::streaming::error::StreamingError;
use chatpack::streaming::json_array::{
    ObjectScanner, ScanEvent, SeekStep, array_key_of, array_not_found, header_too_large, seek_array_line,
    update_json_object_state,
};
use chatpack::streaming::line_objects::{LineScanner, line_opens_messages};

fn chars(s: &str) -> Vec<char> {
    s.chars().collect()
}

fn objects(scanner: &mut ObjectScanner, text: &str) -> (Vec<String>, Vec<StreamingError>, bool) {
    let mut objs = Vec::new();
    let mut errs = Vec::new();
    let mut ended = false;
    for c in text.chars() {
        match scanner.feed(c) {
            ScanEvent::Object(s) => objs.push(s),
            ScanEvent::Failed(e) => errs.push(e),
            ScanEvent::End => {
                ended = true;
                break;
            }
            ScanEvent::Pending => {}
        }
    }
    (objs, errs, ended)
}

#[test]
fn scanner_ignores_braces_in_strings() {
    let body = r#"{"id":1,"text":"has { brace and escaped \"quote\""},{"id":2,"text":"has } brace"}]}"#;
    let mut s = ObjectScanner::new(1024);
    let (objs, errs, ended) = objects(&mut s, body);
    assert!(errs.is_empty());
    assert!(ended);
    assert_eq!(objs, vec![
        r#"{"id":1,"text":"has { brace and escaped \"quote\""}"#.to_string(),
        r#"{"id":2,"text":"has } brace"}"#.to_string(),
    ]);
    assert!(s.is_finished());
    assert!(matches!(s.feed('{'), ScanEvent::End));
}

#[test]
fn scanner_limits_and_errors() {
    let mut s = ObjectScanner::new(5);
    let (objs, errs, _) = objects(&mut s, r#"{"abcdef":1} , x"#);
    assert!(objs.is_empty());
    assert_eq!(errs[0], StreamingError::BufferOverflow { max_size: 5, actual_size: 6 });
    assert!(matches!(&errs[errs.len() - 1], StreamingError::InvalidFormat(m) if m == "Unexpected character in messages array: 'x'"));
    let mut open = ObjectScanner::new(100);
    let _ = objects(&mut open, "{\"a\":");
    assert_eq!(open.finish(), ScanEvent::Failed(StreamingError::UnexpectedEof));
    let mut idle = ObjectScanner::new(100);
    assert_eq!(idle.finish(), ScanEvent::End);
    let mut utf = ObjectScanner::new(4);
    let (_, errs, _) = objects(&mut utf, "{\"é\"}");
    assert_eq!(errs[0], StreamingError::BufferOverflow { max_size: 4, actual_size: 5 });
    assert_eq!(errs[1], StreamingError::InvalidFormat("Unexpected character in messages array: '}'".to_string()));
}

#[test]
fn lexer_step_tracks_strings() {
    let (mut in_string, mut escaped, mut depth) = (false, false, 0i32);
    for c in "{\"a\\\"}\"".chars() {
        update_json_object_state(c, &mut in_string, &mut escaped, &mut depth);
    }
    assert_eq!((in_string, escaped, depth), (false, false, 1));
}

#[test]
fn seeking_the_messages_array() {
    let key = array_key_of("messages");
    assert_eq!(key, chars("\"messages\""));
    match seek_array_line(&chars("  \"messages\": [ {\"id\":1}"), &key, false, 10) {
        SeekStep::Found(rest) => assert_eq!(rest, chars(" {\"id\":1}")),
        other => panic!("unexpected {other:?}"),
    }
    assert_eq!(seek_array_line(&chars("  \"messages\":\n"), &key, false, 10), SeekStep::NotYet(true));
    match seek_array_line(&chars("[\n"), &key, true, 20) {
        SeekStep::Found(rest) => assert_eq!(rest, chars("\n")),
        other => panic!("unexpected {other:?}"),
    }
    assert_eq!(seek_array_line(&chars("\"name\": [1]\n"), &key, false, 10), SeekStep::NotYet(false));
    assert_eq!(seek_array_line(&chars("\"name\": 1\n"), &key, false, 20_000_000), SeekStep::TooLarge);
    assert_eq!(
        array_not_found("messages").to_display_string(),
        "Invalid format: Could not find 'messages' array in file"
    );
    assert!(header_too_large("messages").to_display_string().contains("File header too large"));
}

#[test]
fn line_scanner_cuts_pretty_objects() {
    let lines = [
        "  \"messages\": [\n",
        "    {\"sender_name\": \"user_one\", \"content\": \"Hello!\"},\n",
        "    {\n",
        "      \"sender_name\": \"user_two\"\n",
        "    },\n",
        "  ]\n",
    ];
    assert!(line_opens_messages(&chars(lines[0])));
    let mut s = LineScanner::new(1 << 20);
    let mut objs = Vec::new();
    for line in &lines[1..] {
        match s.feed_line(&chars(line)) {
            ScanEvent::Object(o) => objs.push(o),
            ScanEvent::End => break,
            ScanEvent::Failed(e) => panic!("{e:?}"),
            ScanEvent::Pending => {}
        }
    }
    assert_eq!(objs, vec![
        "{\"sender_name\": \"user_one\", \"content\": \"Hello!\"}".to_string(),
        "{\n      \"sender_name\": \"user_two\"\n    }".to_string(),
    ]);
    assert!(s.is_finished());
    let mut small = LineScanner::new(10);
    assert!(matches!(small.feed_line(&chars("{\"a\": \"long text\"\n")), ScanEvent::Failed(StreamingError::BufferOverflow { .. })));
    let mut open = LineScanner::new(100);
    let _ = open.feed_line(&chars("{\n"));
    assert_eq!(open.finish(true), ScanEvent::Failed(StreamingError::UnexpectedEof));
    let mut lenient = LineScanner::new(100);
    let _ = lenient.feed_line(&chars("{\n"));
    assert_eq!(lenient.finish(false), ScanEvent::End);
}

#[test]
fn streaming_errors_convert() {
    assert_eq!(StreamingError::UnexpectedEof.to_display_string(), "Unexpected end of file");
    let e = StreamingError::BufferOverflow { max_size: 1024, actual_size: 2048 };
    let text = e.to_display_string();
    assert!(text.contains("2048") && text.contains("1024") && text.contains("too large"));
    let c: ChatpackError = e.into();
    assert_eq!(c, ChatpackError::Streaming(StreamingErrorKind::BufferOverflow { max_size: 1024, actual_size: 2048 }));
    let c = StreamingError::Json("bad".into()).into_chatpack_error();
    assert_eq!(c.to_display_string(), "Streaming error: JSON error: bad");
}
