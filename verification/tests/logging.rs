use flomon_service::logging::{
    classify_asos_failure, classify_cwms_failure, classify_failure, classify_usgs_failure, debug,
    emit, error, info, init_logger, log_asos_failure, log_backfill_summary, log_cwms_failure,
    log_failure, log_usgs_failure, warn, ConsoleLine, DataSource, FailureType, FileLine, LogLevel,
    LogOutput, Logger, Stream,
};
use flomon_service::model::NwisError;

const NOW: &str = "2024-05-01 13:00:00 UTC";

fn silent() -> LogOutput {
    LogOutput { console: None, file: None }
}

fn console(stream: Stream, text: &str) -> LogOutput {
    LogOutput { console: Some(ConsoleLine { stream, text: text.to_string() }), file: None }
}

#[test]
fn test_log_level_ordering() {
    assert!(LogLevel::Debug < LogLevel::Info);
    assert!(LogLevel::Info < LogLevel::Warning);
    assert!(LogLevel::Warning < LogLevel::Error);
}

#[test]
fn test_failure_classification() {
    let empty_series_error = "No data available for site: No timeSeries entries in response";
    let result = classify_usgs_failure("05568500", empty_series_error);
    assert_eq!(result, FailureType::Unknown);

    let http_error = "HTTP error: 500";
    let result = classify_usgs_failure("05568500", http_error);
    assert_eq!(result, FailureType::Unexpected);
}

#[test]
fn gauge_failure_rules() {
    assert_eq!(
        classify_usgs_failure("05568500", "No timeSeries entries in response"),
        FailureType::Unknown
    );
    assert_eq!(
        classify_usgs_failure("05568500", "values were empty or contained sentinel values"),
        FailureType::Unknown
    );
    assert_eq!(classify_usgs_failure("05568500", "Parse error: eof"), FailureType::Unexpected);
    assert_eq!(classify_usgs_failure("05568500", "connection reset"), FailureType::Unknown);
    assert_eq!(classify_usgs_failure("05568500", ""), FailureType::Unknown);
    // The gauge rules ask for "HTTP error", not for "HTTP" alone.
    assert_eq!(classify_usgs_failure("05568500", "HTTP 503"), FailureType::Unknown);
}

#[test]
fn gauge_text_of_an_empty_answer_wins_over_an_http_error() {
    assert_eq!(
        classify_usgs_failure("05568500", "HTTP error: No timeSeries entries in response"),
        FailureType::Unknown
    );
}

#[test]
fn every_gauge_error_has_its_class() {
    let site = "05568500";
    assert_eq!(
        classify_usgs_failure(site, &NwisError::HttpError(404).to_string()),
        FailureType::Unexpected
    );
    assert_eq!(
        classify_usgs_failure(site, &NwisError::ParseError("unexpected token".to_string()).to_string()),
        FailureType::Unexpected
    );
    assert_eq!(
        classify_usgs_failure(site, &NwisError::SiteNotFound(site.to_string()).to_string()),
        FailureType::Unknown
    );
    assert_eq!(
        classify_usgs_failure(site, &NwisError::NoDataAvailable(site.to_string()).to_string()),
        FailureType::Unknown
    );
}

#[test]
fn service_failure_rules() {
    for classify in [classify_cwms_failure, classify_asos_failure] {
        assert_eq!(classify("KPIA", "HTTP 500 Internal Server Error"), FailureType::Unexpected);
        assert_eq!(classify("KPIA", "operation timeout"), FailureType::Unexpected);
        assert_eq!(classify("KPIA", "No data returned for station"), FailureType::Unknown);
        assert_eq!(classify("KPIA", "Timeout"), FailureType::Unknown);
        assert_eq!(classify("KPIA", ""), FailureType::Unknown);
    }
}

#[test]
fn failures_are_classified_by_source() {
    assert_eq!(classify_failure(DataSource::Usgs, "x", "HTTP error: 500"), FailureType::Unexpected);
    assert_eq!(classify_failure(DataSource::Cwms, "x", "HTTP error: 500"), FailureType::Unexpected);
    assert_eq!(classify_failure(DataSource::Asos, "x", "timeout"), FailureType::Unexpected);
    assert_eq!(classify_failure(DataSource::Usgs, "x", "timeout"), FailureType::Unknown);
    assert_eq!(classify_failure(DataSource::Database, "x", "HTTP error: 500"), FailureType::Unknown);
    assert_eq!(classify_failure(DataSource::System, "x", "timeout"), FailureType::Unknown);
}

#[test]
fn failure_kinds_map_to_log_levels() {
    assert_eq!(FailureType::Unexpected.log_level(), LogLevel::Error);
    assert_eq!(FailureType::Unknown.log_level(), LogLevel::Warning);
    assert_eq!(FailureType::Expected.log_level(), LogLevel::Debug);
}

#[test]
fn labels() {
    assert_eq!(LogLevel::Debug.as_str(), "DEBUG");
    assert_eq!(LogLevel::Info.as_str(), "INFO");
    assert_eq!(LogLevel::Warning.as_str(), "WARN");
    assert_eq!(LogLevel::Error.as_str(), "ERROR");
    assert_eq!(DataSource::Usgs.as_str(), "USGS");
    assert_eq!(DataSource::Cwms.as_str(), "CWMS");
    assert_eq!(DataSource::Asos.as_str(), "ASOS");
    assert_eq!(DataSource::Database.as_str(), "DB");
    assert_eq!(DataSource::System.as_str(), "SYS");
    assert_eq!(FailureType::Expected.as_str(), "EXPECTED");
    assert_eq!(FailureType::Unexpected.as_str(), "UNEXPECTED");
    assert_eq!(FailureType::Unknown.as_str(), "UNKNOWN");
    assert_eq!(LogLevel::Warning.severity(), 2);
}

#[test]
fn nothing_is_logged_without_a_logger() {
    assert_eq!(info(None, DataSource::System, None, "started", NOW), silent());
    assert_eq!(error(None, DataSource::Usgs, Some("05568500"), "failed", NOW), silent());
}

#[test]
fn messages_below_the_level_are_dropped() {
    let logger = Logger::init(LogLevel::Warning, Some("flomon.log".to_string()), true);
    assert_eq!(logger.min_level(), LogLevel::Warning);
    assert!(!logger.accepts(LogLevel::Info));
    assert!(logger.accepts(LogLevel::Warning));
    assert_eq!(info(Some(&logger), DataSource::System, None, "started", NOW), silent());
    assert_eq!(debug(Some(&logger), DataSource::System, None, "detail", NOW), silent());
    assert!(warn(Some(&logger), DataSource::System, None, "careful", NOW).console.is_some());
}

#[test]
fn error_with_timestamps_is_the_full_entry() {
    let logger = init_logger(LogLevel::Debug, Some("flomon.log"), true);
    let entry = "2024-05-01 13:00:00 UTC ERROR USGS USGS [05568500]: fetch failed";
    assert_eq!(
        error(Some(&logger), DataSource::Usgs, Some("05568500"), "fetch failed", NOW),
        LogOutput {
            console: Some(ConsoleLine { stream: Stream::Stderr, text: entry.to_string() }),
            file: Some(FileLine { path: "flomon.log".to_string(), entry: entry.to_string() }),
        }
    );
}

#[test]
fn warning_with_timestamps_is_the_indented_entry() {
    let logger = init_logger(LogLevel::Debug, None, true);
    assert_eq!(
        warn(Some(&logger), DataSource::Cwms, None, "slow answer", NOW),
        console(Stream::Stderr, "   2024-05-01 13:00:00 UTC WARN CWMS CWMS: slow answer")
    );
}

#[test]
fn info_and_debug_with_timestamps() {
    let logger = init_logger(LogLevel::Debug, None, true);
    assert_eq!(
        info(Some(&logger), DataSource::Asos, Some("KPIA"), "12 observations", NOW),
        console(Stream::Stdout, "   12 observations")
    );
    assert_eq!(
        debug(Some(&logger), DataSource::Asos, Some("KPIA"), "raw row", NOW),
        console(Stream::Stdout, "   [DEBUG] raw row")
    );
}

#[test]
fn console_lines_without_timestamps() {
    let logger = init_logger(LogLevel::Debug, None, false);
    assert_eq!(
        error(Some(&logger), DataSource::Usgs, Some("05568500"), "fetch failed", NOW),
        console(Stream::Stderr, "   \u{2717} USGS [05568500]: fetch failed")
    );
    assert_eq!(
        warn(Some(&logger), DataSource::Database, None, "retrying", NOW),
        console(Stream::Stderr, "   \u{26a0} DB: retrying")
    );
    assert_eq!(
        info(Some(&logger), DataSource::System, None, "started", NOW),
        console(Stream::Stdout, "   started")
    );
    assert_eq!(debug(Some(&logger), DataSource::System, None, "detail", NOW), silent());
}

#[test]
fn debug_without_timestamps_still_goes_to_the_file() {
    let logger = init_logger(LogLevel::Debug, Some("flomon.log"), false);
    assert_eq!(
        debug(Some(&logger), DataSource::System, None, "detail", NOW),
        LogOutput {
            console: None,
            file: Some(FileLine {
                path: "flomon.log".to_string(),
                entry: "2024-05-01 13:00:00 UTC DEBUG SYS SYS: detail".to_string(),
            }),
        }
    );
}

#[test]
fn emit_is_what_the_four_levels_share() {
    let logger = init_logger(LogLevel::Info, None, false);
    assert_eq!(
        emit(Some(&logger), LogLevel::Error, DataSource::Usgs, None, "m", NOW),
        error(Some(&logger), DataSource::Usgs, None, "m", NOW)
    );
    assert_eq!(
        logger.log(LogLevel::Info, &DataSource::Usgs, None, "m", NOW),
        info(Some(&logger), DataSource::Usgs, None, "m", NOW)
    );
}

#[test]
fn gauge_failure_is_logged_at_the_level_of_its_kind() {
    let logger = init_logger(LogLevel::Debug, None, false);
    assert_eq!(
        log_usgs_failure(Some(&logger), "05568500", "fetch", "HTTP error: 500", NOW),
        console(
            Stream::Stderr,
            "   \u{2717} USGS [05568500]: fetch failed [UNEXPECTED]: HTTP error: 500"
        )
    );
    assert_eq!(
        log_usgs_failure(Some(&logger), "05568500", "fetch", "No timeSeries entries in response", NOW),
        console(
            Stream::Stderr,
            "   \u{26a0} USGS [05568500]: fetch failed [UNKNOWN]: No timeSeries entries in response"
        )
    );
}

#[test]
fn service_failures_are_logged() {
    let logger = init_logger(LogLevel::Debug, None, false);
    assert_eq!(
        log_cwms_failure(Some(&logger), "LaGrange", "catalog", "request timeout", NOW),
        console(
            Stream::Stderr,
            "   \u{2717} CWMS [LaGrange]: catalog failed [UNEXPECTED]: request timeout"
        )
    );
    assert_eq!(
        log_asos_failure(Some(&logger), "KPIA", "poll", "No data returned for station", NOW),
        console(
            Stream::Stderr,
            "   \u{26a0} ASOS [KPIA]: poll failed [UNKNOWN]: No data returned for station"
        )
    );
    assert_eq!(
        log_failure(Some(&logger), DataSource::Database, "readings", "insert", "HTTP", NOW),
        console(Stream::Stderr, "   \u{26a0} DB [readings]: insert failed [UNKNOWN]: HTTP")
    );
    assert_eq!(log_asos_failure(None, "KPIA", "poll", "timeout", NOW), silent());
}

#[test]
fn unknown_failure_is_dropped_by_a_logger_for_errors_only() {
    let logger = init_logger(LogLevel::Error, None, false);
    assert_eq!(
        log_usgs_failure(Some(&logger), "05568500", "fetch", "connection reset", NOW),
        silent()
    );
}

#[test]
fn backfill_summary_levels() {
    let logger = init_logger(LogLevel::Debug, None, false);
    assert_eq!(
        log_backfill_summary(Some(&logger), DataSource::Usgs, 8, 8, 0, NOW),
        console(Stream::Stdout, "   Backfill complete: 8/8 successful, 0 failed")
    );
    assert_eq!(
        log_backfill_summary(Some(&logger), DataSource::Usgs, 8, 0, 8, NOW),
        console(Stream::Stderr, "   \u{2717} USGS: Backfill complete: 0/8 successful, 8 failed")
    );
    assert_eq!(
        log_backfill_summary(Some(&logger), DataSource::Cwms, 12, 7, 5, NOW),
        console(Stream::Stderr, "   \u{26a0} CWMS: Backfill complete: 7/12 successful, 5 failed")
    );
    assert_eq!(
        log_backfill_summary(Some(&logger), DataSource::Asos, 0, 0, 0, NOW),
        console(Stream::Stdout, "   Backfill complete: 0/0 successful, 0 failed")
    );
}
