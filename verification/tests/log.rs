use taimi_hud::exports::arcdps::{log_write_record, log_write_record_buffer};
use taimi_hud::exports::runtime::log::{
    log_file_message, log_level_filter, nexus_log_level, nexus_message, write_decimal,
    write_metadata_prefix, write_record, write_record_body, write_record_prefix, LogBuffer,
    LogLevel, LogLevelFilter, LogMetadata, LogRecord, NexusLogLevel, TaimiLog, LOG_BUFFER_SIZE,
};

fn record(level: LogLevel, target: &str, module: Option<&str>, line: Option<u32>, message: &str) -> LogRecord {
    LogRecord {
        metadata: LogMetadata { level, target: target.to_string() },
        module: module.map(|m| m.to_string()),
        line,
        message: message.to_string(),
    }
}

fn text(buffer: &LogBuffer) -> String {
    String::from_utf8(buffer.as_bytes().to_vec()).unwrap()
}

#[test]
fn buffer_basics() {
    let mut b = LogBuffer::with_capacity(LOG_BUFFER_SIZE);
    assert_eq!(b.len(), 0);
    b.write_str("héllo");
    assert_eq!(b.len(), 6);
    assert_eq!(b.terminate(), "héllo\0".as_bytes());
    assert_eq!(TaimiLog::with_log_buffer(|b| b.len()), 0);
    let _ = TaimiLog::new();
}

#[test]
fn metadata_prefix() {
    let mut b = LogBuffer::with_capacity(16);
    let meta = LogMetadata { level: LogLevel::Info, target: "taimi_hud".to_string() };
    assert!(write_metadata_prefix(&mut b, &meta, false));
    assert_eq!(text(&b), "[INFO ] taimi_hud");
    let mut b = LogBuffer::with_capacity(16);
    assert!(!write_metadata_prefix(&mut b, &meta, true));
    assert_eq!(text(&b), "");
    let mut b = LogBuffer::with_capacity(16);
    let meta = LogMetadata { level: LogLevel::Error, target: "other".to_string() };
    assert!(write_metadata_prefix(&mut b, &meta, true));
    assert_eq!(text(&b), "other");
}

#[test]
fn decimal_numbers() {
    for n in [0u32, 7, 10, 42, 1000, u32::MAX] {
        let mut b = LogBuffer::with_capacity(16);
        write_decimal(&mut b, n);
        assert_eq!(text(&b), n.to_string());
    }
}

#[test]
fn record_prefix_in_debug_and_release() {
    let r = record(LogLevel::Warn, "taimi_hud", Some("taimi_hud::marker"), Some(42), "hi");
    let mut b = LogBuffer::with_capacity(16);
    assert!(write_record_prefix(&mut b, &r, true, true));
    assert_eq!(text(&b), "::taimi_hud::marker:42; ");
    let mut b = LogBuffer::with_capacity(16);
    assert!(write_record_prefix(&mut b, &r, true, false));
    assert_eq!(text(&b), "; ");
    let mut b = LogBuffer::with_capacity(16);
    assert!(!write_record_prefix(&mut b, &r, false, false));
    assert_eq!(text(&b), "");
    let r = record(LogLevel::Warn, "taimi_hud", Some("m"), None, "hi");
    let mut b = LogBuffer::with_capacity(16);
    assert!(write_record_prefix(&mut b, &r, false, true));
    assert_eq!(text(&b), "m; ");
}

#[test]
fn whole_records() {
    let r = record(LogLevel::Debug, "taimi_hud", Some("taimi_hud::x"), Some(7), "loaded");
    let mut b = LogBuffer::with_capacity(16);
    write_record(&mut b, &r, true);
    assert_eq!(text(&b), "[DEBUG] taimi_hud::taimi_hud::x:7; loaded");
    let mut b = LogBuffer::with_capacity(16);
    log_write_record(&mut b, &r, false);
    assert_eq!(text(&b), "[DEBUG] taimi_hud; loaded");
    let mut b = LogBuffer::with_capacity(16);
    write_record_body(&mut b, &r);
    assert_eq!(text(&b), "loaded");
}

#[test]
fn coloured_records_for_arcdps() {
    let r = record(LogLevel::Error, "t", None, None, "bad");
    let mut b = LogBuffer::with_capacity(16);
    let range = log_write_record_buffer(&mut b, &r, true, false);
    assert_eq!(text(&b), "<c=#ff0000>[ERROR] t; bad</c>");
    assert_eq!(range, 11..25);
    let mut b = LogBuffer::with_capacity(16);
    let range = log_write_record_buffer(&mut b, &r, false, false);
    assert_eq!(text(&b), "[ERROR] t; bad");
    assert_eq!(range, 0..14);
    let r = record(LogLevel::Info, "t", None, None, "ok");
    let mut b = LogBuffer::with_capacity(16);
    let range = log_write_record_buffer(&mut b, &r, true, false);
    assert_eq!(text(&b), "[INFO ] t; ok");
    assert_eq!(range, 0..13);
}

#[test]
fn file_message_cut_at_bounds() {
    let r = record(LogLevel::Warn, "t", None, None, "w");
    let mut b = LogBuffer::with_capacity(16);
    let range = log_write_record_buffer(&mut b, &r, true, false);
    b.terminate();
    let message = log_file_message(&mut b, range);
    assert_eq!(message, b"[WARN ] t; w\0".to_vec());
    let mut b = LogBuffer::with_capacity(16);
    b.write_str("abc");
    b.terminate();
    assert_eq!(log_file_message(&mut b, 0..0), b"abc\0".to_vec());
}

#[test]
fn nexus_message_drops_prefix() {
    let line = b"[INFO ] taimi_hud; hello\0";
    assert_eq!(nexus_message(line), b"hello\0".to_vec());
    assert_eq!(nexus_message(b"short\0"), b"short\0".to_vec());
}

#[test]
fn levels() {
    assert_eq!(nexus_log_level(LogLevel::Error), NexusLogLevel::Critical);
    assert_eq!(nexus_log_level(LogLevel::Warn), NexusLogLevel::Warning);
    assert_eq!(nexus_log_level(LogLevel::Info), NexusLogLevel::Info);
    assert_eq!(nexus_log_level(LogLevel::Debug), NexusLogLevel::Debug);
    assert_eq!(nexus_log_level(LogLevel::Trace), NexusLogLevel::Trace);
    assert_eq!(log_level_filter(true), LogLevelFilter::Trace);
    assert_eq!(log_level_filter(false), LogLevelFilter::Debug);
}
