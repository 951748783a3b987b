use chatpack::parsing::telegram::{TelegramRawMessage, TelegramText, TextPart, parse_telegram_message};
use chatpack::streaming::error::StreamingError;
use chatpack::streaming::json_array::{ObjectScanner, ScanEvent, SeekStep, array_key_of, seek_array_line};
use chatpack::streaming::traits::{RecordStep, StreamingConfig, record_step};
use chatpack::Message;
use serde_json::Value;

fn create_test_json() -> String {
    r#"{
  "name": "Test Chat",
  "type": "personal_chat",
  "messages": [
    {"id": 1, "type": "message", "date_unixtime": "1705314600", "from": "Alice", "text": "Hello!"},
    {"id": 2, "type": "message", "date_unixtime": "1705314660", "from": "Bob", "text": "Hi!"},
    {"id": 3, "type": "service", "action": "pin_message"},
    {"id": 4, "type": "message", "date_unixtime": "1705314720", "from": "Alice", "text": "Bye!"}
  ]
}"#
    .to_string()
}

fn opt_string(v: &Value, key: &str) -> Result<Option<String>, StreamingError> {
    match v.get(key) {
        None | Some(Value::Null) => Ok(None),
        Some(Value::String(s)) => Ok(Some(s.clone())),
        Some(_) => Err(StreamingError::Json(format!("invalid type for `{key}`"))),
    }
}

fn opt_u64(v: &Value, key: &str) -> Result<Option<u64>, StreamingError> {
    match v.get(key) {
        None | Some(Value::Null) => Ok(None),
        Some(x) => match x.as_u64() {
            Some(n) => Ok(Some(n)),
            None => Err(StreamingError::Json(format!("invalid type for `{key}`"))),
        },
    }
}

fn text_part(v: &Value) -> TextPart {
    match v {
        Value::String(s) => TextPart::Plain(s.clone()),
        Value::Object(o) => TextPart::Entity(o.get("text").and_then(|t| t.as_str()).map(String::from)),
        _ => TextPart::Other,
    }
}

/// Decodes one message object as the streaming reader does.
fn decode(text: &str) -> Result<Option<Message>, StreamingError> {
    let v: Value = serde_json::from_str(text).map_err(|e| StreamingError::Json(e.to_string()))?;
    let msg_type = match v.get("type") {
        Some(Value::String(s)) => s.clone(),
        _ => return Err(StreamingError::Json("missing field `type`".to_string())),
    };
    let text = match v.get("text") {
        None | Some(Value::Null) => None,
        Some(Value::String(s)) => Some(TelegramText::Plain(s.clone())),
        Some(Value::Array(items)) => Some(TelegramText::Parts(items.iter().map(text_part).collect())),
        Some(_) => Some(TelegramText::Other),
    };
    let raw = TelegramRawMessage {
        id: opt_u64(&v, "id")?,
        msg_type,
        date_unixtime: opt_string(&v, "date_unixtime")?,
        from: opt_string(&v, "from")?,
        text,
        reply_to_message_id: opt_u64(&v, "reply_to_message_id")?,
        edited_unixtime: opt_string(&v, "edited_unixtime")?,
    };
    Ok(parse_telegram_message(&raw))
}

/// Streams the `messages` array of `json` line by line through the object
/// scanner; returns what a reader hands out and the scanner afterwards.
fn stream(json: &str, config: StreamingConfig) -> (Vec<Result<Message, StreamingError>>, ObjectScanner) {
    let key = array_key_of("messages");
    let mut scanner = ObjectScanner::new(config.max_message_size);
    let mut found_key = false;
    let mut started = false;
    let mut bytes_read = 0u64;
    let mut out = Vec::new();
    let mut events = Vec::new();
    for line in json.split_inclusive('\n') {
        bytes_read += line.len() as u64;
        let chars: Vec<char> = line.chars().collect();
        let rest = if started {
            chars
        } else {
            match seek_array_line(&chars, &key, found_key, bytes_read) {
                SeekStep::Found(rest) => {
                    started = true;
                    rest
                }
                SeekStep::NotYet(k) => {
                    found_key = k;
                    continue;
                }
                SeekStep::TooLarge => panic!("header too large"),
            }
        };
        for c in rest {
            if scanner.is_finished() {
                break;
            }
            events.push(scanner.feed(c));
        }
    }
    assert!(started);
    if !scanner.is_finished() {
        events.push(scanner.finish());
    }
    for event in events {
        let outcome = match event {
            ScanEvent::Pending => continue,
            ScanEvent::Object(s) => decode(&s).map(Some),
            ScanEvent::End => Ok(None),
            ScanEvent::Failed(e) => Err(e),
        };
        match record_step(outcome, config.skip_invalid) {
            RecordStep::Yield(m) => out.push(Ok(m)),
            RecordStep::Skip => {}
            RecordStep::Stop => break,
            RecordStep::Fail(e) => out.push(Err(e)),
        }
    }
    (out, scanner)
}

fn ok_messages(results: Vec<Result<Message, StreamingError>>) -> Vec<Message> {
    results.into_iter().filter_map(Result::ok).collect()
}

#[test]
fn telegram_test_streaming_parser_basic() {
    let json = create_test_json();
    let (results, _) = stream(&json, StreamingConfig::default());
    let messages = ok_messages(results);
    assert_eq!(messages.len(), 3);
    assert_eq!(messages[0].sender, "Alice");
    assert_eq!(messages[0].content, "Hello!");
    assert_eq!(messages[1].sender, "Bob");
    assert_eq!(messages[2].content, "Bye!");
}

#[test]
fn test_braces_inside_json_strings() {
    let json = r#"{"name":"Chat","messages":[{"id":1,"type":"message","date_unixtime":"1705314600","from":"Alice","text":"has { brace and escaped \"quote\""},{"id":2,"type":"message","date_unixtime":"1705314660","from":"Bob","text":"has } brace"}]}"#;
    let (results, _) = stream(json, StreamingConfig::default());
    let messages = ok_messages(results);
    assert_eq!(messages.len(), 2);
    assert_eq!(messages[0].content, "has { brace and escaped \"quote\"");
    assert_eq!(messages[1].content, "has } brace");
}

#[test]
fn test_skip_invalid_messages() {
    let json = r#"{
  "name": "Chat",
  "messages": [
    {"invalid": "object"},
    {"id": 1, "type": "message", "date_unixtime": "1705314600", "from": "Alice", "text": "Valid!"}
  ]
}"#;
    let config = StreamingConfig::default().with_skip_invalid(true);
    let (results, _) = stream(json, config);
    let messages = ok_messages(results);
    assert_eq!(messages.len(), 1);
    assert_eq!(messages[0].content, "Valid!");
}

#[test]
fn test_invalid_message_without_skip() {
    let json = r#"{
  "name": "Chat",
  "messages": [
    {"id": "invalid_id_type"}
  ]
}"#;
    let config = StreamingConfig::default().with_skip_invalid(false);
    let (results, _) = stream(json, config);
    let first = results.into_iter().next();
    assert!(first.is_some());
    assert!(first.unwrap().is_err());
}

#[test]
fn test_multiline_message() {
    let json = r#"{
  "name": "Chat",
  "messages": [
    {
      "id": 1,
      "type": "message",
      "date_unixtime": "1705314600",
      "from": "Alice",
      "text": "Line1\nLine2\nLine3"
    }
  ]
}"#;
    let (results, _) = stream(json, StreamingConfig::default());
    let messages = ok_messages(results);
    assert_eq!(messages.len(), 1);
}

#[test]
fn test_iterator_finished_returns_none() {
    let json = r#"{"name": "Chat", "messages": [{"id": 1, "type": "message", "date_unixtime": "1000", "from": "A", "text": "Hi"}]}"#;
    let (results, mut scanner) = stream(json, StreamingConfig::default());
    assert_eq!(results.len(), 1);
    assert!(scanner.is_finished());
    assert!(matches!(scanner.finish(), ScanEvent::End));
    assert!(matches!(scanner.finish(), ScanEvent::End));
}

#[test]
fn test_formatted_text_array() {
    let json = r#"{
  "name": "Chat",
  "messages": [
    {"id": 1, "type": "message", "date_unixtime": "1705314600", "from": "Alice", "text": ["Hello ", {"type": "bold", "text": "World"}, "!"]}
  ]
}"#;
    let (results, _) = stream(json, StreamingConfig::default());
    let messages = ok_messages(results);
    assert_eq!(messages.len(), 1);
    assert_eq!(messages[0].content, "Hello World!");
}

#[test]
fn record_step_follows_skip_invalid() {
    let m = Message::new("Alice", "Hi");
    assert!(matches!(record_step(Ok(Some(Some(m.clone()))), false), RecordStep::Yield(x) if x == m));
    assert!(matches!(record_step(Ok(Some(None)), false), RecordStep::Skip));
    assert!(matches!(record_step(Ok(None), true), RecordStep::Stop));
    assert!(matches!(record_step(Err(StreamingError::UnexpectedEof), true), RecordStep::Skip));
    assert!(matches!(
        record_step(Err(StreamingError::UnexpectedEof), false),
        RecordStep::Fail(StreamingError::UnexpectedEof)
    ));
}
