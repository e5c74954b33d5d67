use castellan::config::{AppLogLevel, CastellanSettings as EarlierSettings};
use castellan::llm::{assistant_message, finish_reply, format_user_facing_error, LlmError, LlmService};
use castellan::logging::app_console_layer::{
    event_line, format_level, format_location, AppConsoleLayer, EventFieldVisitor, Level, TimestampMode,
};
use castellan::logging::app_file_layer::AppFileLayer;
use castellan::logging::SubscriberErr;
use castellan::modules::settings::settings_tracing::TracingSettings;
use castellan::settings::settings_logging::{level_filter_from_name, AppLogSettings, LevelFilter};
use castellan::settings::settings_scroll::AppScrollSettings;
use castellan::settings::{CastellanSettings, SettingError, SettingsState};
use castellan::text::{decimal_string, trim_str};

#[test]
fn level_names_parse_in_any_case() {
    assert_eq!(level_filter_from_name("warn"), Ok(LevelFilter::Warn));
    assert_eq!(level_filter_from_name("Trace"), Ok(LevelFilter::Trace));
    assert_eq!(level_filter_from_name("ERROR"), Ok(LevelFilter::Error));
    assert_eq!(
        level_filter_from_name(" info"),
        Err("invalid log level ' info', expected one of: TRACE, DEBUG, INFO, WARN, ERROR".to_string())
    );
}

#[test]
fn settings_defaults() {
    assert_eq!(AppLogSettings::default().level, LevelFilter::Debug);
    let scroll = AppScrollSettings::default();
    assert_eq!((scroll.line_step, scroll.page_step), (1, 10));
    let tracing = TracingSettings::default();
    assert_eq!(tracing.level, LevelFilter::Debug);
    assert_eq!(tracing.timestamp_mode, TimestampMode::Utc);
    assert_eq!(AppLogLevel::default(), AppLogLevel::TRACE);
    assert_eq!(EarlierSettings::default().app_log().level, AppLogLevel::TRACE);
}

#[test]
fn failed_load_falls_back_to_defaults() {
    let failed = SettingsState::from_load(Err(SettingError::DeserializeError));
    assert!(failed.used_default_settings());
    assert_eq!(failed.settings().scroll.page_step, 10);
    let mut custom = CastellanSettings::default();
    custom.scroll.line_step = 3;
    let loaded = SettingsState::from_load(Ok(custom));
    assert!(!loaded.used_default_settings());
    assert_eq!(loaded.settings().scroll.line_step, 3);
    assert_eq!(SettingError::DeserializeError.message(), "Could not parse setting from file or env vars");
}

#[test]
fn log_line_pieces() {
    assert_eq!(format_level(Level::Info, true), " INFO");
    assert_eq!(format_level(Level::Error, false), "\x1b[31mERROR\x1b[0m");
    assert_eq!(format_location(Some("src/main.rs"), Some(42)), " [src/main.rs:42]");
    assert_eq!(format_location(Some("lib.rs"), None), " [lib.rs]");
    assert_eq!(format_location(None, Some(3)), "");
    assert_eq!(event_line("T", "INFO", "app", " [a:1]", "hi", ""), "T INFO app [a:1] - hi");
    assert_eq!(event_line("T", "INFO", "app", "", "hi", "k=v"), "T INFO app - hi | k=v");
}

#[test]
fn field_visitor_separates_message() {
    let mut v = EventFieldVisitor::new();
    assert_eq!(v.render_fields(), "");
    v.push_kv("user", "ann".to_string());
    v.push_kv("message", "started".to_string());
    v.push_kv("count", "3".to_string());
    assert_eq!(v.message(), Some("started"));
    assert_eq!(v.render_fields(), "user=ann count=3");
}

#[test]
fn layer_handles() {
    assert_eq!(AppConsoleLayer::new(TimestampMode::Local).timestamp_mode(), TimestampMode::Local);
    assert_eq!(TimestampMode::default(), TimestampMode::Utc);
    let _ = AppFileLayer::new();
    assert_eq!(
        SubscriberErr::InitializationError("busy".to_string()).message(),
        "Failed to set global subscriber, busy"
    );
}

#[test]
fn llm_outcomes() {
    let _ = LlmService::new();
    assert_eq!(finish_reply(Ok("  answer \n".to_string())).unwrap(), "answer");
    assert!(matches!(finish_reply(Ok(" \n ".to_string())), Err(LlmError::EmptyResponse)));
    assert!(matches!(finish_reply(Err("timeout".to_string())), Err(LlmError::Request(m)) if m == "timeout"));
    assert_eq!(
        format_user_facing_error(LlmError::MissingApiKey),
        "llm request failed: missing OPENAI_API_KEY. set OPENAI_API_KEY and optional CAST_LLM_MODEL."
    );
    assert_eq!(
        assistant_message(Err(LlmError::Request("boom".to_string()))),
        "llm request failed: llm request failed: boom. set OPENAI_API_KEY and optional CAST_LLM_MODEL."
    );
    assert_eq!(assistant_message(Err(LlmError::EmptyResponse)), "llm request failed: empty llm response. set OPENAI_API_KEY and optional CAST_LLM_MODEL.");
    assert_eq!(assistant_message(Ok("hi".to_string())), "hi");
}

#[test]
fn text_helpers() {
    assert_eq!(trim_str("\u{3000} a b \u{85}"), "a b");
    assert_eq!(decimal_string(0), "0");
    assert_eq!(decimal_string(1207), "1207");
}
