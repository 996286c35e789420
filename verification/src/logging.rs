//! What to log, and how a failure is to be judged.
//!
//! Nothing here writes anything. A [`Logger`] decides what a message becomes:
//! a line for the console, an entry for the log file, both or neither. The
//! caller writes them out. The failure classifier reads the text of an error
//! and says whether it points at a broken service or cannot be told from an
//! idle station.

use crate::model::NwisError;
use crate::text::{
    append_decimal, contains, decimal_text, has_text, lemma_decimal_text_is_digits,
    lemma_lacking_char_lacks_text, occurs_at,
};
use vstd::prelude::*;

verus! {

/// How grave a log message is, from the least to the most grave.
#[derive(Debug, Clone, Copy, PartialEq, Eq, PartialOrd, Ord, Hash, Structural)]
pub enum LogLevel {
    Debug,
    Info,
    Warning,
    Error,
}

impl LogLevel {
    /// The place of the level in the order, from 0 for `Debug` to 3 for
    /// `Error`.
    pub open spec fn rank(self) -> int {
        match self {
            LogLevel::Debug => 0,
            LogLevel::Info => 1,
            LogLevel::Warning => 2,
            LogLevel::Error => 3,
        }
    }

    /// The level as it is written in a log entry.
    pub open spec fn label(self) -> Seq<char> {
        match self {
            LogLevel::Debug => "DEBUG"@,
            LogLevel::Info => "INFO"@,
            LogLevel::Warning => "WARN"@,
            LogLevel::Error => "ERROR"@,
        }
    }

    /// The place of the level in the order, from 0 for `Debug` to 3 for
    /// `Error`.
    pub fn severity(&self) -> (r: u8)
        ensures
            r == self.rank(),
    {
        match self {
            LogLevel::Debug => 0,
            LogLevel::Info => 1,
            LogLevel::Warning => 2,
            LogLevel::Error => 3,
        }
    }

    /// The level as it is written in a log entry.
    pub fn as_str(&self) -> (r: &'static str)
        ensures
            r@ == self.label(),
    {
        match self {
            LogLevel::Debug => "DEBUG",
            LogLevel::Info => "INFO",
            LogLevel::Warning => "WARN",
            LogLevel::Error => "ERROR",
        }
    }
}

/// Where a message comes from.
#[derive(Debug, Clone, Copy, PartialEq, Eq, Hash, Structural)]
pub enum DataSource {
    /// The river gauge service.
    Usgs,
    /// The reservoir and lock telemetry service.
    Cwms,
    /// The weather station service.
    Asos,
    /// The database.
    Database,
    /// The monitoring service itself.
    System,
}

impl DataSource {
    /// The source as it is written in a log entry.
    pub open spec fn label(self) -> Seq<char> {
        match self {
            DataSource::Usgs => "USGS"@,
            DataSource::Cwms => "CWMS"@,
            DataSource::Asos => "ASOS"@,
            DataSource::Database => "DB"@,
            DataSource::System => "SYS"@,
        }
    }

    /// The source as it is written in a log entry.
    pub fn as_str(&self) -> (r: &'static str)
        ensures
            r@ == self.label(),
    {
        match self {
            DataSource::Usgs => "USGS",
            DataSource::Cwms => "CWMS",
            DataSource::Asos => "ASOS",
            DataSource::Database => "DB",
            DataSource::System => "SYS",
        }
    }
}

/// What kind of failure an error is.
#[derive(Debug, Clone, Copy, PartialEq, Eq, Hash, Structural)]
pub enum FailureType {
    /// The station is known to be offline, retired or under maintenance. No
    /// rule gives this answer yet: it is kept for a list of such stations.
    Expected,
    /// The service is degraded or the configuration is wrong.
    Unexpected,
    /// It cannot be told which of the two it is.
    Unknown,
}

impl FailureType {
    /// The kind as it is written in a log entry.
    pub open spec fn label(self) -> Seq<char> {
        match self {
            FailureType::Expected => "EXPECTED"@,
            FailureType::Unexpected => "UNEXPECTED"@,
            FailureType::Unknown => "UNKNOWN"@,
        }
    }

    /// The level at which a failure of this kind is logged.
    pub open spec fn logged_at(self) -> LogLevel {
        match self {
            FailureType::Expected => LogLevel::Debug,
            FailureType::Unexpected => LogLevel::Error,
            FailureType::Unknown => LogLevel::Warning,
        }
    }

    /// The kind as it is written in a log entry.
    pub fn as_str(&self) -> (r: &'static str)
        ensures
            r@ == self.label(),
    {
        match self {
            FailureType::Expected => "EXPECTED",
            FailureType::Unexpected => "UNEXPECTED",
            FailureType::Unknown => "UNKNOWN",
        }
    }

    /// The level at which a failure of this kind is logged: an unexpected
    /// failure as an error, an unknown one as a warning, an expected one as a
    /// debug message.
    pub fn log_level(&self) -> (r: LogLevel)
        ensures
            r == self.logged_at(),
    {
        match self {
            FailureType::Expected => LogLevel::Debug,
            FailureType::Unexpected => LogLevel::Error,
            FailureType::Unknown => LogLevel::Warning,
        }
    }
}

/// The console stream that a line goes to.
#[derive(Debug, Clone, Copy, PartialEq, Eq, Hash, Structural)]
pub enum Stream {
    Stdout,
    Stderr,
}

/// A line for the console.
#[derive(Debug, PartialEq)]
pub struct ConsoleLine {
    pub stream: Stream,
    pub text: String,
}

/// An entry to append to a log file, as a line of its own.
#[derive(Debug, PartialEq)]
pub struct FileLine {
    pub path: String,
    pub entry: String,
}

/// What one message becomes: at most one line for the console and at most
/// one entry for the log file.
#[derive(Debug, PartialEq)]
pub struct LogOutput {
    pub console: Option<ConsoleLine>,
    pub file: Option<FileLine>,
}

/// What a [`LogOutput`] holds, as mathematical values: the console line as
/// its stream and text, the file entry as its path and text.
pub struct LogOutputView {
    pub console: Option<(Stream, Seq<char>)>,
    pub file: Option<(Seq<char>, Seq<char>)>,
}

impl View for LogOutput {
    type V = LogOutputView;

    open spec fn view(&self) -> LogOutputView {
        LogOutputView {
            console: match self.console {
                Some(line) => Some((line.stream, line.text@)),
                None => None,
            },
            file: match self.file {
                Some(line) => Some((line.path@, line.entry@)),
                None => None,
            },
        }
    }
}

/// The output of a message that is not logged.
pub open spec fn nothing() -> LogOutputView {
    LogOutputView { console: None, file: None }
}

/// How a logger is set up, as mathematical values.
pub struct LoggerView {
    pub min_level: LogLevel,
    pub log_file: Option<Seq<char>>,
    pub console_timestamps: bool,
}

/// Decides what is logged and in which form.
#[derive(Debug)]
pub struct Logger {
    /// Messages below this level are dropped.
    min_level: LogLevel,
    /// The file that entries are appended to, if any.
    log_file: Option<String>,
    /// Whether console lines carry the full entry with its time.
    console_timestamps: bool,
}

impl View for Logger {
    type V = LoggerView;

    closed spec fn view(&self) -> LoggerView {
        LoggerView {
            min_level: self.min_level,
            log_file: match self.log_file {
                Some(path) => Some(path@),
                None => None,
            },
            console_timestamps: self.console_timestamps,
        }
    }
}

/// Mathematical form of an optional string.
pub open spec fn text_view(s: Option<&str>) -> Option<Seq<char>> {
    match s {
        Some(x) => Some(x@),
        None => None,
    }
}

/// The site as it follows the source in an entry: ` [site]`, or nothing.
pub open spec fn site_part(site_id: Option<Seq<char>>) -> Seq<char> {
    match site_id {
        Some(site) => " ["@ + site + "]"@,
        None => Seq::<char>::empty(),
    }
}

/// A full log entry: time, level, source, the source again with the site,
/// and the message.
pub open spec fn log_entry(
    timestamp: Seq<char>,
    level: LogLevel,
    source: DataSource,
    site_id: Option<Seq<char>>,
    message: Seq<char>,
) -> Seq<char> {
    timestamp + " "@ + level.label() + " "@ + source.label() + " "@ + source.label() + site_part(
        site_id,
    ) + ": "@ + message
}

/// A short console line: a mark, the source with the site, and the message.
pub open spec fn marked_line(
    mark: Seq<char>,
    source: DataSource,
    site_id: Option<Seq<char>>,
    message: Seq<char>,
) -> Seq<char> {
    mark + source.label() + site_part(site_id) + ": "@ + message
}

/// The console line of a message that is logged.
///
/// With timestamps an error is the full entry and a warning the indented
/// entry, both on standard error; without, both are short lines with a mark.
/// An informational message is the indented message on standard output. A
/// debug message is shown only with timestamps.
pub open spec fn console_line(
    console_timestamps: bool,
    level: LogLevel,
    source: DataSource,
    site_id: Option<Seq<char>>,
    message: Seq<char>,
    timestamp: Seq<char>,
) -> Option<(Stream, Seq<char>)> {
    let entry = log_entry(timestamp, level, source, site_id, message);
    match level {
        LogLevel::Error => if console_timestamps {
            Some((Stream::Stderr, entry))
        } else {
            Some((Stream::Stderr, marked_line("   \u{2717} "@, source, site_id, message)))
        },
        LogLevel::Warning => if console_timestamps {
            Some((Stream::Stderr, "   "@ + entry))
        } else {
            Some((Stream::Stderr, marked_line("   \u{26a0} "@, source, site_id, message)))
        },
        LogLevel::Info => Some((Stream::Stdout, "   "@ + message)),
        LogLevel::Debug => if console_timestamps {
            Some((Stream::Stdout, "   [DEBUG] "@ + message))
        } else {
            None
        },
    }
}

/// What a message becomes under a logger: nothing where its level is below
/// the logger's, else its console line and, where the logger has a file, the
/// full entry for that file.
pub open spec fn log_output(
    logger: LoggerView,
    level: LogLevel,
    source: DataSource,
    site_id: Option<Seq<char>>,
    message: Seq<char>,
    timestamp: Seq<char>,
) -> LogOutputView {
    if level.rank() < logger.min_level.rank() {
        nothing()
    } else {
        LogOutputView {
            console: console_line(
                logger.console_timestamps,
                level,
                source,
                site_id,
                message,
                timestamp,
            ),
            file: match logger.log_file {
                Some(path) => Some((path, log_entry(timestamp, level, source, site_id, message))),
                None => None,
            },
        }
    }
}

/// What a message becomes where there may be no logger yet: nothing without
/// one.
pub open spec fn logged(
    logger: Option<LoggerView>,
    level: LogLevel,
    source: DataSource,
    site_id: Option<Seq<char>>,
    message: Seq<char>,
    timestamp: Seq<char>,
) -> LogOutputView {
    match logger {
        Some(l) => log_output(l, level, source, site_id, message, timestamp),
        None => nothing(),
    }
}

/// Mathematical form of an optional logger.
pub open spec fn logger_view(logger: Option<&Logger>) -> Option<LoggerView> {
    match logger {
        Some(l) => Some(l@),
        None => None,
    }
}

/// Appends the source with the site, a colon and the message to `out`.
fn append_tail(out: &mut String, source: &DataSource, site_id: Option<&str>, message: &str)
    ensures
        final(out)@ == old(out)@ + source.label() + site_part(text_view(site_id)) + ": "@
            + message@,
{
    out.append(source.as_str());
    match site_id {
        Some(site) => {
            out.append(" [");
            out.append(site);
            out.append("]");
        },
        None => {},
    }
    out.append(": ");
    out.append(message);
    assert(out@ =~= old(out)@ + source.label() + site_part(text_view(site_id)) + ": "@ + message@);
}

/// The full entry of a message.
fn entry_of(
    timestamp: &str,
    level: LogLevel,
    source: &DataSource,
    site_id: Option<&str>,
    message: &str,
) -> (r: String)
    ensures
        r@ == log_entry(timestamp@, level, *source, text_view(site_id), message@),
{
    let mut out = String::from_str(timestamp);
    out.append(" ");
    out.append(level.as_str());
    out.append(" ");
    out.append(source.as_str());
    out.append(" ");
    append_tail(&mut out, source, site_id, message);
    assert(out@ =~= log_entry(timestamp@, level, *source, text_view(site_id), message@));
    out
}

/// The short console line of a message, behind `mark`.
fn marked(mark: &str, source: &DataSource, site_id: Option<&str>, message: &str) -> (r: String)
    ensures
        r@ == marked_line(mark@, *source, text_view(site_id), message@),
{
    let mut out = String::from_str(mark);
    append_tail(&mut out, source, site_id, message);
    out
}

impl Logger {
    /// A logger that drops messages below `min_level`, appends entries to
    /// `log_file` where one is given, and shows console lines with or without
    /// their time.
    pub fn init(min_level: LogLevel, log_file: Option<String>, console_timestamps: bool) -> (r:
        Logger)
        ensures
            r@ == (LoggerView {
                min_level,
                log_file: match log_file {
                    Some(path) => Some(path@),
                    None => None,
                },
                console_timestamps,
            }),
    {
        Logger { min_level, log_file, console_timestamps }
    }

    /// The level below which messages are dropped.
    pub fn min_level(&self) -> (r: LogLevel)
        ensures
            r == self@.min_level,
    {
        self.min_level
    }

    /// Whether a message of `level` is logged at all.
    pub fn accepts(&self, level: LogLevel) -> (r: bool)
        ensures
            r == (level.rank() >= self@.min_level.rank()),
    {
        level.severity() >= self.min_level.severity()
    }

    /// What the message becomes: its console line and its file entry.
    /// `timestamp` is the time of logging as it is to be written.
    pub fn log(
        &self,
        level: LogLevel,
        source: &DataSource,
        site_id: Option<&str>,
        message: &str,
        timestamp: &str,
    ) -> (r: LogOutput)
        ensures
            r@ == log_output(self@, level, *source, text_view(site_id), message@, timestamp@),
    {
        if !self.accepts(level) {
            return LogOutput { console: None, file: None };
        }
        let console = match level {
            LogLevel::Error => if self.console_timestamps {
                Some(
                    ConsoleLine {
                        stream: Stream::Stderr,
                        text: entry_of(timestamp, level, source, site_id, message),
                    },
                )
            } else {
                Some(
                    ConsoleLine {
                        stream: Stream::Stderr,
                        text: marked("   \u{2717} ", source, site_id, message),
                    },
                )
            },
            LogLevel::Warning => if self.console_timestamps {
                let mut text = String::from_str("   ");
                text.append(entry_of(timestamp, level, source, site_id, message).as_str());
                Some(ConsoleLine { stream: Stream::Stderr, text })
            } else {
                Some(
                    ConsoleLine {
                        stream: Stream::Stderr,
                        text: marked("   \u{26a0} ", source, site_id, message),
                    },
                )
            },
            LogLevel::Info => {
                let mut text = String::from_str("   ");
                text.append(message);
                Some(ConsoleLine { stream: Stream::Stdout, text })
            },
            LogLevel::Debug => if self.console_timestamps {
                let mut text = String::from_str("   [DEBUG] ");
                text.append(message);
                Some(ConsoleLine { stream: Stream::Stdout, text })
            } else {
                None
            },
        };
        let file = match &self.log_file {
            Some(path) => Some(
                FileLine {
                    path: path.clone(),
                    entry: entry_of(timestamp, level, source, site_id, message),
                },
            ),
            None => None,
        };
        LogOutput { console, file }
    }
}

/// A logger set up as [`Logger::init`] sets it up.
pub fn init_logger(min_level: LogLevel, log_file: Option<&str>, console_timestamps: bool) -> (r:
    Logger)
    ensures
        r@ == (LoggerView { min_level, log_file: text_view(log_file), console_timestamps }),
{
    let file = match log_file {
        Some(path) => Some(String::from_str(path)),
        None => None,
    };
    Logger::init(min_level, file, console_timestamps)
}

/// What a message of `level` becomes under `logger`; nothing where there is
/// no logger.
pub fn emit(
    logger: Option<&Logger>,
    level: LogLevel,
    source: DataSource,
    site_id: Option<&str>,
    message: &str,
    timestamp: &str,
) -> (r: LogOutput)
    ensures
        r@ == logged(logger_view(logger), level, source, text_view(site_id), message@, timestamp@),
{
    match logger {
        Some(l) => l.log(level, &source, site_id, message, timestamp),
        None => LogOutput { console: None, file: None },
    }
}

/// What an informational message becomes.
pub fn info(
    logger: Option<&Logger>,
    source: DataSource,
    site_id: Option<&str>,
    message: &str,
    timestamp: &str,
) -> (r: LogOutput)
    ensures
        r@ == logged(
            logger_view(logger),
            LogLevel::Info,
            source,
            text_view(site_id),
            message@,
            timestamp@,
        ),
{
    emit(logger, LogLevel::Info, source, site_id, message, timestamp)
}

/// What a warning becomes.
pub fn warn(
    logger: Option<&Logger>,
    source: DataSource,
    site_id: Option<&str>,
    message: &str,
    timestamp: &str,
) -> (r: LogOutput)
    ensures
        r@ == logged(
            logger_view(logger),
            LogLevel::Warning,
            source,
            text_view(site_id),
            message@,
            timestamp@,
        ),
{
    emit(logger, LogLevel::Warning, source, site_id, message, timestamp)
}

/// What an error message becomes.
pub fn error(
    logger: Option<&Logger>,
    source: DataSource,
    site_id: Option<&str>,
    message: &str,
    timestamp: &str,
) -> (r: LogOutput)
    ensures
        r@ == logged(
            logger_view(logger),
            LogLevel::Error,
            source,
            text_view(site_id),
            message@,
            timestamp@,
        ),
{
    emit(logger, LogLevel::Error, source, site_id, message, timestamp)
}

/// What a debug message becomes.
pub fn debug(
    logger: Option<&Logger>,
    source: DataSource,
    site_id: Option<&str>,
    message: &str,
    timestamp: &str,
) -> (r: LogOutput)
    ensures
        r@ == logged(
            logger_view(logger),
            LogLevel::Debug,
            source,
            text_view(site_id),
            message@,
            timestamp@,
        ),
{
    emit(logger, LogLevel::Debug, source, site_id, message, timestamp)
}

/// How a failure of a river gauge is judged from the text of its error.
///
/// A text that tells of an empty answer or of the sentinel value cannot be
/// told from an idle station: unknown. Else a text that tells of an HTTP
/// error or of a parse error points at the service: unexpected. Any other
/// text: unknown.
pub open spec fn usgs_failure(error_message: Seq<char>) -> FailureType {
    if has_text(error_message, "empty or contained sentinel values"@) || has_text(
        error_message,
        "No timeSeries entries"@,
    ) {
        FailureType::Unknown
    } else if has_text(error_message, "HTTP error"@) {
        FailureType::Unexpected
    } else if has_text(error_message, "Parse error"@) {
        FailureType::Unexpected
    } else {
        FailureType::Unknown
    }
}

/// How a failure of the telemetry or of the weather service is judged from
/// the text of its error: a text that tells of HTTP or of a timeout points at
/// the service, so it is unexpected; any other text is unknown.
pub open spec fn service_failure(error_message: Seq<char>) -> FailureType {
    if has_text(error_message, "HTTP"@) || has_text(error_message, "timeout"@) {
        FailureType::Unexpected
    } else {
        FailureType::Unknown
    }
}

/// How a failure of `source` is judged from the text of its error. The
/// database and the service itself have no rules: their failures are unknown.
pub open spec fn failure_of(source: DataSource, error_message: Seq<char>) -> FailureType {
    match source {
        DataSource::Usgs => usgs_failure(error_message),
        DataSource::Cwms => service_failure(error_message),
        DataSource::Asos => service_failure(error_message),
        DataSource::Database => FailureType::Unknown,
        DataSource::System => FailureType::Unknown,
    }
}

/// Judges a failure of the river gauge with the site code `_site_code` from
/// the text of its error.
pub fn classify_usgs_failure(_site_code: &str, error_message: &str) -> (r: FailureType)
    ensures
        r == usgs_failure(error_message@),
{
    if contains(error_message, "empty or contained sentinel values") || contains(
        error_message,
        "No timeSeries entries",
    ) {
        FailureType::Unknown
    } else if contains(error_message, "HTTP error") {
        FailureType::Unexpected
    } else if contains(error_message, "Parse error") {
        FailureType::Unexpected
    } else {
        FailureType::Unknown
    }
}

/// Judges a failure of the telemetry location `_location_id` from the text of
/// its error.
pub fn classify_cwms_failure(_location_id: &str, error_message: &str) -> (r: FailureType)
    ensures
        r == service_failure(error_message@),
{
    if contains(error_message, "HTTP") || contains(error_message, "timeout") {
        FailureType::Unexpected
    } else {
        FailureType::Unknown
    }
}

/// Judges a failure of the weather station `_station_id` from the text of its
/// error.
pub fn classify_asos_failure(_station_id: &str, error_message: &str) -> (r: FailureType)
    ensures
        r == service_failure(error_message@),
{
    if contains(error_message, "HTTP") || contains(error_message, "timeout") {
        FailureType::Unexpected
    } else {
        FailureType::Unknown
    }
}

/// Judges a failure of `source` at `identifier` from the text of its error.
pub fn classify_failure(source: DataSource, identifier: &str, error_message: &str) -> (r:
    FailureType)
    ensures
        r == failure_of(source, error_message@),
{
    match source {
        DataSource::Usgs => classify_usgs_failure(identifier, error_message),
        DataSource::Cwms => classify_cwms_failure(identifier, error_message),
        DataSource::Asos => classify_asos_failure(identifier, error_message),
        DataSource::Database => FailureType::Unknown,
        DataSource::System => FailureType::Unknown,
    }
}

/// The message of a failed operation: what failed, the kind of failure and
/// the text of the error.
pub open spec fn failure_message(operation: Seq<char>, kind: FailureType, error_text: Seq<char>) -> Seq<
    char,
> {
    operation + " failed ["@ + kind.label() + "]: "@ + error_text
}

/// What a failure of `source` at `identifier` becomes: its message, logged at
/// the level of its kind.
pub open spec fn failure_logged(
    logger: Option<LoggerView>,
    source: DataSource,
    identifier: Seq<char>,
    operation: Seq<char>,
    error_text: Seq<char>,
    timestamp: Seq<char>,
) -> LogOutputView {
    let kind = failure_of(source, error_text);
    logged(
        logger,
        kind.logged_at(),
        source,
        Some(identifier),
        failure_message(operation, kind, error_text),
        timestamp,
    )
}

/// Judges a failure of `source` and gives what it becomes in the log.
pub fn log_failure(
    logger: Option<&Logger>,
    source: DataSource,
    identifier: &str,
    operation: &str,
    error_text: &str,
    timestamp: &str,
) -> (r: LogOutput)
    ensures
        r@ == failure_logged(
            logger_view(logger),
            source,
            identifier@,
            operation@,
            error_text@,
            timestamp@,
        ),
{
    let kind = classify_failure(source, identifier, error_text);
    let mut message = String::from_str(operation);
    message.append(" failed [");
    message.append(kind.as_str());
    message.append("]: ");
    message.append(error_text);
    assert(message@ =~= failure_message(operation@, kind, error_text@));
    emit(logger, kind.log_level(), source, Some(identifier), message.as_str(), timestamp)
}

/// Judges a failure of the river gauge `site_code` during `operation` and
/// gives what it becomes in the log. `error_text` is the error as text.
pub fn log_usgs_failure(
    logger: Option<&Logger>,
    site_code: &str,
    operation: &str,
    error_text: &str,
    timestamp: &str,
) -> (r: LogOutput)
    ensures
        r@ == failure_logged(
            logger_view(logger),
            DataSource::Usgs,
            site_code@,
            operation@,
            error_text@,
            timestamp@,
        ),
{
    log_failure(logger, DataSource::Usgs, site_code, operation, error_text, timestamp)
}

/// Judges a failure of the telemetry location `location_id` during
/// `operation` and gives what it becomes in the log.
pub fn log_cwms_failure(
    logger: Option<&Logger>,
    location_id: &str,
    operation: &str,
    error_text: &str,
    timestamp: &str,
) -> (r: LogOutput)
    ensures
        r@ == failure_logged(
            logger_view(logger),
            DataSource::Cwms,
            location_id@,
            operation@,
            error_text@,
            timestamp@,
        ),
{
    log_failure(logger, DataSource::Cwms, location_id, operation, error_text, timestamp)
}

/// Judges a failure of the weather station `station_id` during `operation`
/// and gives what it becomes in the log.
pub fn log_asos_failure(
    logger: Option<&Logger>,
    station_id: &str,
    operation: &str,
    error_text: &str,
    timestamp: &str,
) -> (r: LogOutput)
    ensures
        r@ == failure_logged(
            logger_view(logger),
            DataSource::Asos,
            station_id@,
            operation@,
            error_text@,
            timestamp@,
        ),
{
    log_failure(logger, DataSource::Asos, station_id, operation, error_text, timestamp)
}

/// The level of a backfill summary: informational where nothing failed, an
/// error where nothing succeeded, else a warning.
pub open spec fn backfill_level(successful: usize, failed: usize) -> LogLevel {
    if failed == 0 {
        LogLevel::Info
    } else if successful == 0 {
        LogLevel::Error
    } else {
        LogLevel::Warning
    }
}

/// The message of a backfill summary.
pub open spec fn backfill_message(total: usize, successful: usize, failed: usize) -> Seq<char> {
    "Backfill complete: "@ + decimal_text(successful as nat) + "/"@ + decimal_text(total as nat)
        + " successful, "@ + decimal_text(failed as nat) + " failed"@
}

/// What the summary of a backfill becomes in the log.
pub fn log_backfill_summary(
    logger: Option<&Logger>,
    source: DataSource,
    total: usize,
    successful: usize,
    failed: usize,
    timestamp: &str,
) -> (r: LogOutput)
    ensures
        r@ == logged(
            logger_view(logger),
            backfill_level(successful, failed),
            source,
            None,
            backfill_message(total, successful, failed),
            timestamp@,
        ),
{
    let mut message = String::from_str("Backfill complete: ");
    append_decimal(&mut message, successful as u64);
    message.append("/");
    append_decimal(&mut message, total as u64);
    message.append(" successful, ");
    append_decimal(&mut message, failed as u64);
    message.append(" failed");
    assert(message@ =~= backfill_message(total, successful, failed));
    let level = if failed == 0 {
        LogLevel::Info
    } else if successful == 0 {
        LogLevel::Error
    } else {
        LogLevel::Warning
    };
    emit(logger, level, source, None, message.as_str(), timestamp)
}

/// No rule judges a failure as expected, whatever the source and the text.
pub proof fn lemma_never_expected(source: DataSource, error_message: Seq<char>)
    ensures
        failure_of(source, error_message) != FailureType::Expected,
        usgs_failure(error_message) != FailureType::Expected,
        service_failure(error_message) != FailureType::Expected,
{
}

/// A failure of the telemetry or of the weather service whose text tells of
/// HTTP or of a timeout is unexpected.
pub proof fn lemma_transport_failure_unexpected(source: DataSource, error_message: Seq<char>)
    requires
        source == DataSource::Cwms || source == DataSource::Asos,
        has_text(error_message, "HTTP"@) || has_text(error_message, "timeout"@),
    ensures
        failure_of(source, error_message) == FailureType::Unexpected,
{
}

/// A failure of a river gauge whose text tells of an HTTP error, and not of
/// an empty answer or of the sentinel value, is unexpected.
pub proof fn lemma_gauge_http_error_unexpected(error_message: Seq<char>)
    requires
        has_text(error_message, "HTTP error"@),
        !has_text(error_message, "empty or contained sentinel values"@),
        !has_text(error_message, "No timeSeries entries"@),
    ensures
        failure_of(DataSource::Usgs, error_message) == FailureType::Unexpected,
{
}

/// An unexpected failure is logged as an error, an unknown one as a warning
/// and an expected one as a debug message; so a failure that is not expected
/// is never logged below a warning.
pub proof fn lemma_failure_levels(kind: FailureType)
    ensures
        kind == FailureType::Unexpected ==> kind.logged_at() == LogLevel::Error,
        kind == FailureType::Unknown ==> kind.logged_at() == LogLevel::Warning,
        kind == FailureType::Expected ==> kind.logged_at() == LogLevel::Debug,
        kind != FailureType::Expected ==> kind.logged_at().rank() >= LogLevel::Warning.rank(),
{
}

/// A message below the logger's level becomes nothing, and without a logger
/// every message becomes nothing.
pub proof fn lemma_dropped_below_level(
    logger: LoggerView,
    level: LogLevel,
    source: DataSource,
    site_id: Option<Seq<char>>,
    message: Seq<char>,
    timestamp: Seq<char>,
)
    ensures
        level.rank() < logger.min_level.rank() ==> log_output(
            logger,
            level,
            source,
            site_id,
            message,
            timestamp,
        ) == nothing(),
        logged(None, level, source, site_id, message, timestamp) == nothing(),
{
}

/// An error of the gauge service that tells of an HTTP status is judged
/// unexpected, whatever the status.
pub proof fn lemma_http_status_error_unexpected(code: u16)
    ensures
        usgs_failure(NwisError::HttpError(code).text()) == FailureType::Unexpected,
        failure_of(DataSource::Usgs, NwisError::HttpError(code).text()) == FailureType::Unexpected,
{
    let head = "HTTP error: "@;
    let digits = decimal_text(code as nat);
    let text = NwisError::HttpError(code).text();
    reveal_strlit("HTTP error: ");
    reveal_strlit("HTTP error");
    reveal_strlit("empty or contained sentinel values");
    reveal_strlit("No timeSeries entries");
    assert(text == head + digits);
    assert(occurs_at(text, "HTTP error"@, 0)) by {
        assert(text.subrange(0, 10) =~= "HTTP error"@);
    }
    assert forall|i: int| 0 <= i < text.len() implies text[i] != 'm' && text[i] != 'N' by {
        if i >= head.len() {
            lemma_decimal_text_is_digits(code as nat, i - head.len());
            assert(text[i] == digits[i - head.len()]);
        } else {
            assert(text[i] == head[i]);
        }
    }
    lemma_lacking_char_lacks_text(text, "empty or contained sentinel values"@, 1);
    lemma_lacking_char_lacks_text(text, "No timeSeries entries"@, 0);
}

} // verus!
