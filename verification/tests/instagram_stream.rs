use chatpack::parsing::instagram::{InstagramMedia, InstagramRawMessage, InstagramShare, parse_instagram_message};
use chatpack::streaming::error::StreamingError;
use chatpack::streaming::json_array::ScanEvent;
use chatpack::streaming::line_objects::{LineScanner, line_opens_messages};
use chatpack::streaming::traits::{RecordStep, StreamingConfig, record_step};
use chatpack::Message;
use serde_json::Value;

fn create_test_json() -> String {
    r#"{
  "participants": [{"name": "user_one"}, {"name": "user_two"}],
  "messages": [
    {"sender_name": "user_one", "timestamp_ms": 1705315800000, "content": "Hello!"},
    {"sender_name": "user_two", "timestamp_ms": 1705315860000, "content": "Hi there!"},
    {"sender_name": "user_one", "timestamp_ms": 1705315920000}
  ]
}"#
    .to_string()
}

fn json_error(what: &str) -> StreamingError {
    StreamingError::Json(what.to_string())
}

fn opt_string(v: &Value, key: &str) -> Result<Option<String>, StreamingError> {
    match v.get(key) {
        None | Some(Value::Null) => Ok(None),
        Some(Value::String(s)) => Ok(Some(s.clone())),
        Some(_) => Err(json_error(key)),
    }
}

fn media(v: &Value, key: &str) -> Result<Option<Vec<InstagramMedia>>, StreamingError> {
    match v.get(key) {
        None | Some(Value::Null) => Ok(None),
        Some(Value::Array(items)) => {
            let mut out = Vec::new();
            for item in items {
                out.push(InstagramMedia { uri: opt_string(item, "uri")? });
            }
            Ok(Some(out))
        }
        Some(_) => Err(json_error(key)),
    }
}

/// Decodes one message object as the streaming reader does.
fn decode(text: &str) -> Result<Option<Message>, StreamingError> {
    let v: Value = serde_json::from_str(text).map_err(|e| StreamingError::Json(e.to_string()))?;
    let sender_name = match v.get("sender_name") {
        Some(Value::String(s)) => s.clone(),
        _ => return Err(json_error("sender_name")),
    };
    let timestamp_ms = match v.get("timestamp_ms").and_then(|t| t.as_i64()) {
        Some(t) => t,
        None => return Err(json_error("timestamp_ms")),
    };
    let share = match v.get("share") {
        None | Some(Value::Null) => None,
        Some(s) => Some(InstagramShare { share_text: opt_string(s, "share_text")?, link: opt_string(s, "link")? }),
    };
    let raw = InstagramRawMessage {
        sender_name,
        timestamp_ms,
        content: opt_string(&v, "content")?,
        share,
        photos: media(&v, "photos")?,
        videos: media(&v, "videos")?,
        audio_files: media(&v, "audio_files")?,
    };
    Ok(parse_instagram_message(&raw, true))
}

/// Streams the pretty-printed `messages` array of `json` line by line.
fn stream(json: &str, config: StreamingConfig) -> Vec<Result<Message, StreamingError>> {
    let mut scanner = LineScanner::new(config.max_message_size);
    let mut in_array = false;
    let mut events = Vec::new();
    for line in json.split_inclusive('\n') {
        let chars: Vec<char> = line.chars().collect();
        if !in_array {
            in_array = line_opens_messages(&chars);
            continue;
        }
        if scanner.is_finished() {
            break;
        }
        events.push(scanner.feed_line(&chars));
    }
    assert!(in_array);
    if !scanner.is_finished() {
        events.push(scanner.finish(true));
    }
    let mut out = Vec::new();
    for event in events {
        let outcome = match event {
            ScanEvent::Pending => continue,
            ScanEvent::Object(s) => decode(&s).map(Some),
            ScanEvent::End => Ok(None),
            ScanEvent::Failed(e) => Err(e),
        };
        match record_step(outcome, config.skip_invalid) {
            RecordStep::Yield(m) => out.push(Ok(m)),
            RecordStep::Skip => {}
            RecordStep::Stop => break,
            RecordStep::Fail(e) => out.push(Err(e)),
        }
    }
    out
}

fn ok_messages(results: Vec<Result<Message, StreamingError>>) -> Vec<Message> {
    results.into_iter().filter_map(Result::ok).collect()
}

#[test]
fn instagram_test_streaming_parser_basic() {
    let json = create_test_json();
    let messages = ok_messages(stream(&json, StreamingConfig::default()));
    assert_eq!(messages.len(), 2);
    assert_eq!(messages[0].sender, "user_one");
    assert_eq!(messages[0].content, "Hello!");
    assert_eq!(messages[1].sender, "user_two");
}

#[test]
fn test_shared_content() {
    let json = r#"{
  "participants": [],
  "messages": [
    {"sender_name": "user", "timestamp_ms": 1705315800000, "share": {"share_text": "Check this out!", "link": "https://example.com"}}
  ]
}"#;
    let messages = ok_messages(stream(json, StreamingConfig::default()));
    assert_eq!(messages.len(), 1);
    assert_eq!(messages[0].content, "Check this out!");
}
