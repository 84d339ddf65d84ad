//! The input method's log: the line it writes for each record, and its
//! installation as the process's logger.
use vstd::prelude::*;
use crate::text::push_str;

verus! {

#[verifier::external_type_specification]
#[verifier::external_body]
pub struct ExRecord<'a>(log::Record<'a>);

#[verifier::external_type_specification]
#[verifier::external_body]
pub struct ExMetadata<'a>(log::Metadata<'a>);

/// The severity of a log record.
#[derive(PartialEq, Eq, Structural, Clone, Copy, Debug)]
pub enum LogLevel {
    Error,
    Warn,
    Info,
    Debug,
    Trace,
}

/// The most detailed severity that is logged, or none at all.
#[derive(PartialEq, Eq, Structural, Clone, Copy, Debug)]
pub enum LevelFilter {
    Off,
    Error,
    Warn,
    Info,
    Debug,
    Trace,
}

/// The name a level is written with.
pub open spec fn level_name_of(l: LogLevel) -> Seq<char> {
    match l {
        LogLevel::Error => "ERROR"@,
        LogLevel::Warn => "WARN"@,
        LogLevel::Info => "INFO"@,
        LogLevel::Debug => "DEBUG"@,
        LogLevel::Trace => "TRACE"@,
    }
}

/// The name a level is written with (see `level_name_of`).
pub fn level_name(l: LogLevel) -> (r: &'static str)
    ensures
        r@ == level_name_of(l),
{
    match l {
        LogLevel::Error => "ERROR",
        LogLevel::Warn => "WARN",
        LogLevel::Info => "INFO",
        LogLevel::Debug => "DEBUG",
        LogLevel::Trace => "TRACE",
    }
}

/// The line written for a record: `<time> [<LEVEL>] <target> - <message>`
/// and a line break.
pub open spec fn log_line_of(time: Seq<char>, level: LogLevel, target: Seq<char>, message: Seq<char>) -> Seq<char> {
    time + " ["@ + level_name_of(level) + "] "@ + target + " - "@ + message + "\n"@
}

/// The line written for a record (see `log_line_of`).
pub fn log_line(time: &str, level: LogLevel, target: &str, message: &str) -> (r: String)
    ensures
        r@ == log_line_of(time@, level, target@, message@),
{
    let mut s = String::new();
    push_str(&mut s, time);
    push_str(&mut s, " [");
    push_str(&mut s, level_name(level));
    push_str(&mut s, "] ");
    push_str(&mut s, target);
    push_str(&mut s, " - ");
    push_str(&mut s, message);
    push_str(&mut s, "\n");
    assert(s@ =~= log_line_of(time@, level, target@, message@));
    s
}

/// `chrono::Local::now()` formatted with `format`; the current local time,
/// so nothing is stated of it. Only the log's timestamp format is admitted:
/// chrono panics on formats with items it cannot render.
#[verifier::external_body]
fn local_time_text(format: &str) -> String
    requires
        format@ == "%Y-%m-%d %H:%M:%S%.3f"@,
{
    chrono::Local::now().format(format).to_string()
}

/// The level, target and message of a `log::Record` (its `args` formatted
/// with `Display`).
#[verifier::external_body]
fn record_parts(record: &log::Record) -> (LogLevel, String, String) {
    let level = match record.level() {
        log::Level::Error => LogLevel::Error,
        log::Level::Warn => LogLevel::Warn,
        log::Level::Info => LogLevel::Info,
        log::Level::Debug => LogLevel::Debug,
        log::Level::Trace => LogLevel::Trace,
    };
    (level, record.target().to_owned(), format!("{}", record.args()))
}

/// Where log lines go: a file, and the error stream in debug builds.
pub trait LogSink: Send + Sync {
    /// Writes one line.
    fn write_line(&self, line: &str);

    /// Flushes what was written.
    fn flush(&self);
}

/// The input method's logger: every record is accepted and written as one
/// line to its sink.
pub struct LexiLogger<S: LogSink> {
    sink: S,
}

impl<S: LogSink> LexiLogger<S> {
    /// A logger writing to `sink`.
    pub fn new(sink: S) -> (l: LexiLogger<S>)
        ensures
            l.held_sink() == sink,
    {
        LexiLogger { sink }
    }

    /// The sink the logger writes to.
    pub closed spec fn held_sink(&self) -> S {
        self.sink
    }

    /// The sink the logger writes to.
    pub fn sink(&self) -> (s: &S)
        ensures
            *s == self.held_sink(),
    {
        &self.sink
    }

    /// Whether a record of the given level is logged: all are.
    pub fn accepts(&self, _level: LogLevel) -> (r: bool)
        ensures
            r,
    {
        true
    }
}

impl<S: LogSink> log::Log for LexiLogger<S> {
    /// Every record is logged, whatever its level and target.
    fn enabled(&self, _metadata: &log::Metadata) -> (r: bool)
        ensures
            r,
    {
        true
    }

    fn log(&self, record: &log::Record) {
        let (level, target, message) = record_parts(record);
        let time = local_time_text("%Y-%m-%d %H:%M:%S%.3f");
        let line = log_line(time.as_str(), level, target.as_str(), message.as_str());
        self.sink.write_line(line.as_str());
    }

    fn flush(&self) {
        self.sink.flush();
    }
}

/// `log::set_boxed_logger`: installs the logger unless one is installed
/// already (the result depends on that global state, so nothing is stated).
#[verifier::external_body]
fn install_logger<S: LogSink + 'static>(logger: LexiLogger<S>) -> bool {
    log::set_boxed_logger(Box::new(logger)).is_ok()
}

/// `log::set_max_level`: sets the global most detailed level logged.
#[verifier::external_body]
fn set_max_level(level: LevelFilter) {
    log::set_max_level(match level {
        LevelFilter::Off => log::LevelFilter::Off,
        LevelFilter::Error => log::LevelFilter::Error,
        LevelFilter::Warn => log::LevelFilter::Warn,
        LevelFilter::Info => log::LevelFilter::Info,
        LevelFilter::Debug => log::LevelFilter::Debug,
        LevelFilter::Trace => log::LevelFilter::Trace,
    });
}

/// The most detailed level the input method logs.
pub fn default_max_level() -> (l: LevelFilter)
    ensures
        l == LevelFilter::Info,
{
    LevelFilter::Info
}

/// Installs a `LexiLogger` writing to `sink` as the process's logger (a
/// logger installed before stays) and logs up to `Info`.
pub fn init_logging<S: LogSink + 'static>(sink: S) {
    let _ = install_logger(LexiLogger::new(sink));
    set_max_level(default_max_level());
}

} // verus!
