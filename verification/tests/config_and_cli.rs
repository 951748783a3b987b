use chatpack::cli::{Args, OutputFormat, Source, adjust_output_extension};
use chatpack::config::{DiscordConfig, InstagramConfig, TelegramConfig, WhatsAppConfig};
use chatpack::processing::models::OutputConfig;
use chatpack::processing::processor::ProcessingStats;
use chatpack::streaming::traits::StreamingConfig;

#[test]
fn test_source_display() {
    assert_eq!(Source::Telegram.to_display_string(), "Telegram");
    assert_eq!(Source::WhatsApp.to_display_string(), "WhatsApp");
    assert_eq!(Source::Instagram.to_display_string(), "Instagram");
    assert_eq!(Source::Discord.to_display_string(), "Discord");
}

#[test]
fn test_source_from_str() {
    assert_eq!("telegram".parse::<Source>().unwrap(), Source::Telegram);
    assert_eq!("tg".parse::<Source>().unwrap(), Source::Telegram);
    assert_eq!("whatsapp".parse::<Source>().unwrap(), Source::WhatsApp);
    assert_eq!("wa".parse::<Source>().unwrap(), Source::WhatsApp);
    assert_eq!("discord".parse::<Source>().unwrap(), Source::Discord);
    assert_eq!("dc".parse::<Source>().unwrap(), Source::Discord);
    assert!("unknown".parse::<Source>().is_err());
}

#[test]
fn cli_test_format_extension() {
    assert_eq!(OutputFormat::Csv.extension(), "csv");
    assert_eq!(OutputFormat::Json.extension(), "json");
    assert_eq!(OutputFormat::Jsonl.extension(), "jsonl");
}

#[test]
fn cli_test_format_from_str() {
    assert_eq!("csv".parse::<OutputFormat>().unwrap(), OutputFormat::Csv);
    assert_eq!("jsonl".parse::<OutputFormat>().unwrap(), OutputFormat::Jsonl);
    assert_eq!("ndjson".parse::<OutputFormat>().unwrap(), OutputFormat::Jsonl);
}

#[test]
fn test_telegram_config_default() {
    let config = TelegramConfig::default();
    assert!(!config.streaming);
    assert_eq!(config.buffer_size, 64 * 1024);
    assert!(config.skip_invalid);
}

#[test]
fn test_telegram_config_builder() {
    let config = TelegramConfig::new().with_streaming(true).with_buffer_size(128 * 1024);
    assert!(config.streaming);
    assert_eq!(config.buffer_size, 128 * 1024);
}

#[test]
fn test_telegram_config_streaming() {
    let config = TelegramConfig::streaming();
    assert!(config.streaming);
    assert_eq!(config.buffer_size, 256 * 1024);
}

#[test]
fn test_whatsapp_config_default() {
    let config = WhatsAppConfig::default();
    assert!(!config.streaming);
    assert!(config.skip_system_messages);
}

#[test]
fn test_instagram_config_default() {
    let config = InstagramConfig::default();
    assert!(!config.streaming);
    assert!(config.fix_encoding);
}

#[test]
fn test_discord_config_default() {
    let config = DiscordConfig::default();
    assert!(!config.streaming);
    assert!(config.prefer_nickname);
    assert!(config.include_attachments);
}

#[test]
fn models_test_output_config_builder() {
    let config = OutputConfig::new().with_timestamps().with_ids();
    assert!(config.include_timestamps);
    assert!(config.include_ids);
    assert!(!config.include_replies);
    assert!(!config.include_edited);
}

#[test]
fn models_test_output_config_all() {
    let config = OutputConfig::all();
    assert!(config.include_timestamps);
    assert!(config.include_ids);
    assert!(config.include_replies);
    assert!(config.include_edited);
}

#[test]
fn models_test_output_config_has_any() {
    assert!(!OutputConfig::new().has_any());
    assert!(OutputConfig::new().with_timestamps().has_any());
}

#[test]
fn test_messages_saved() {
    let stats = ProcessingStats::new(100, 60);
    assert_eq!(stats.messages_saved(), 40);
}

#[test]
fn test_streaming_config_default() {
    let config = StreamingConfig::default();
    assert_eq!(config.buffer_size, 64 * 1024);
    assert_eq!(config.max_message_size, 10 * 1024 * 1024);
    assert!(config.skip_invalid);
}

#[test]
fn test_streaming_config_builder() {
    let config = StreamingConfig::new()
        .with_buffer_size(128 * 1024)
        .with_max_message_size(1024)
        .with_skip_invalid(false);
    assert_eq!(config.buffer_size, 128 * 1024);
    assert_eq!(config.max_message_size, 1024);
    assert!(!config.skip_invalid);
}

#[test]
fn test_streaming_config_copy() {
    let config = StreamingConfig::new();
    let copied = config;
    assert_eq!(config.buffer_size, copied.buffer_size);
}

// ---------------------------------------------------------------------------
// Further cases
// ---------------------------------------------------------------------------

fn sample_args() -> Args {
    Args {
        source: Source::Telegram,
        input: "chat.json".to_string(),
        output: "optimized_chat.csv".to_string(),
        format: OutputFormat::Jsonl,
        after: None,
        before: None,
        timestamps: false,
        replies: false,
        ids: false,
        edited: false,
        no_merge: false,
        from: None,
        streaming: false,
    }
}

#[test]
fn default_output_takes_format_extension() {
    assert_eq!(adjust_output_extension("optimized_chat.csv", OutputFormat::Jsonl), "optimized_chat.jsonl");
    assert_eq!(adjust_output_extension("optimized_chat.csv", OutputFormat::Json), "optimized_chat.json");
    assert_eq!(adjust_output_extension("optimized_chat.csv", OutputFormat::Csv), "optimized_chat.csv");
    assert_eq!(adjust_output_extension("mine.csv", OutputFormat::Json), "mine.csv");
}

#[test]
fn args_build_output_config() {
    let mut args = sample_args();
    args.timestamps = true;
    args.edited = true;
    let c = args.output_config();
    assert!(c.include_timestamps);
    assert!(!c.include_ids);
    assert!(!c.include_replies);
    assert!(c.include_edited);
}

#[test]
fn args_build_filter_config() {
    let mut args = sample_args();
    args.after = Some("2024-01-15".to_string());
    args.before = Some("2024-01-16".to_string());
    args.from = Some("Alice".to_string());
    let f = args.filter_config().unwrap();
    assert_eq!(f.after.unwrap().secs, 1705276800);
    assert_eq!(f.before.unwrap().secs, 1705449599);
    assert_eq!(f.before.unwrap().nanos, 999_999_999);
    assert_eq!(f.from.as_deref(), Some("Alice"));
    assert!(f.is_active());
}

#[test]
fn args_invalid_date_is_error() {
    let mut args = sample_args();
    args.after = Some("15.01.2024".to_string());
    let e = args.filter_config().unwrap_err();
    assert!(e.is_invalid_date());
    let mut args = sample_args();
    args.before = Some("2024-13-01".to_string());
    assert!(args.filter_config().unwrap_err().is_invalid_date());
    assert!(!sample_args().filter_config().unwrap().is_active());
}

#[test]
fn stats_saved_never_negative() {
    let stats = ProcessingStats::new(10, 20);
    assert_eq!(stats.messages_saved(), 0);
    let stats = ProcessingStats::new(100, 30).with_filtered(50);
    assert_eq!(stats.messages_saved(), 20);
}
