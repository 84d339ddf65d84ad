use lexi::logging::{default_max_level, level_name, log_line, LevelFilter, LexiLogger, LogLevel, LogSink};
use lexi::engine::text_from_raw;
use lexi::protocol::decode_message;
use lexi::text::{decimal_string, signed_decimal_string, trim_nul_end};
use lexi::tsf::{modifier_mask, LexiTextService, RIME_ALT, RIME_CTRL, RIME_SHIFT, RIME_WIN};
use std::sync::Mutex;

#[test]
fn decimal_rendering() {
    assert_eq!(decimal_string(0), "0");
    assert_eq!(decimal_string(1234567890), "1234567890");
    assert_eq!(decimal_string(u64::MAX), u64::MAX.to_string());
    assert_eq!(signed_decimal_string(-42), "-42");
    assert_eq!(signed_decimal_string(i64::MIN), i64::MIN.to_string());
}

#[test]
fn utf8_decoding() {
    assert_eq!(text_from_raw(&Some(b"abc".to_vec())), "abc");
    assert_eq!(text_from_raw(&Some(b"\xc3".to_vec())), "");
    assert_eq!(text_from_raw(&None), "");
    assert_eq!(decode_message(b"a\xc3", 2), "a\u{FFFD}");
    assert_eq!(trim_nul_end("a\0b\0\0"), "a\0b");
    assert_eq!(trim_nul_end("\0"), "");
}

#[test]
fn modifier_masks() {
    let down: i16 = -32768;
    let held: i16 = -32767;
    assert_eq!(modifier_mask(0, 0, 0, 0, 0), 0);
    assert_eq!(modifier_mask(down, 0, 0, 0, 0), RIME_SHIFT);
    assert_eq!(modifier_mask(1, held, 0, 0, 0), RIME_CTRL);
    assert_eq!(modifier_mask(0, 0, down, 0, down), RIME_ALT | RIME_WIN);
    assert_eq!(modifier_mask(down, down, down, down, 0), 1 | 1 << 2 | 1 << 3 | 1 << 26);
    assert_eq!(modifier_mask(0, down, 0, 0, 0), 4);
    assert_eq!(modifier_mask(0x7fff, 1, 0, 0, 0), 0);
}

#[test]
fn text_service_activation() {
    let mut t = LexiTextService::new();
    assert!(!t.is_active());
    assert_eq!(t.deactivate(), None);
    assert_eq!(t.activate(false, 3), Err(lexi::com::HR_INVALID_FUNCTION));
    assert!(!t.is_active());
    assert_eq!(t.activate(true, 3), Ok(true));
    t.sink_installed(17);
    assert_eq!(t.activate(true, 4), Ok(false));
    assert_eq!(t.deactivate(), Some(17));
    assert!(!t.is_active());
    assert_eq!(t.deactivate(), None);
    assert_eq!(t.activate(true, 5), Ok(true));
}

#[test]
fn log_lines() {
    assert_eq!(level_name(LogLevel::Warn), "WARN");
    assert_eq!(
        log_line("2024-01-02 03:04:05.006", LogLevel::Info, "lexi::ime", "ready"),
        "2024-01-02 03:04:05.006 [INFO] lexi::ime - ready\n"
    );
    assert_eq!(default_max_level(), LevelFilter::Info);
}

struct Collect(Mutex<Vec<String>>);

impl LogSink for Collect {
    fn write_line(&self, line: &str) {
        self.0.lock().unwrap().push(line.to_string());
    }
    fn flush(&self) {}
}

#[test]
fn logger_accepts_every_record() {
    let logger = LexiLogger::new(Collect(Mutex::new(Vec::new())));
    assert!(logger.accepts(LogLevel::Trace));
    let meta = log::Metadata::builder().level(log::Level::Error).target("t").build();
    assert!(log::Log::enabled(&logger, &meta));
    log::Log::flush(&logger);
}

#[test]
fn logger_writes_one_line_per_record() {
    let logger = LexiLogger::new(Collect(Mutex::new(Vec::new())));
    log::Log::log(
        &logger,
        &log::Record::builder()
            .level(log::Level::Warn)
            .target("lexi::pipe")
            .build(),
    );
    let lines = logger.sink().0.lock().unwrap().clone();
    assert_eq!(lines.len(), 1);
    let line = &lines[0];
    assert!(line.ends_with(" [WARN] lexi::pipe - \n"), "{}", line);
    // "YYYY-MM-DD HH:MM:SS.mmm" before the level.
    let time = &line[..line.find(" [").unwrap()];
    assert_eq!(time.len(), 23);
    assert_eq!(&time[4..5], "-");
    assert_eq!(&time[19..20], ".");
}
