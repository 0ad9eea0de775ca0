use trident::error::AppError;
use trident::logging::{is_trident_log, LOG_RETENTION_SECONDS};
use trident::state::health_report;
use trident::{millis_as_i64, unix_millis};

#[test]
fn recognises_trident_logs_and_preserves_other_files() {
    assert!(is_trident_log(Some("trident.log")));
    assert!(is_trident_log(Some("trident.2024-01-01.log")));
    assert!(is_trident_log(Some("trident.")));
    assert!(!is_trident_log(Some("capture-fallback.log")));
    assert!(!is_trident_log(Some("trident")));
    assert!(!is_trident_log(Some("Trident.log")));
    assert!(!is_trident_log(Some("")));
    assert!(!is_trident_log(None));
    assert_eq!(LOG_RETENTION_SECONDS, 7 * 24 * 60 * 60);
}

#[test]
fn health_report_carries_the_database_answer_and_version() {
    let health = health_report(true, "0.1.0");

    assert!(health.database_ok);
    assert_eq!(health.watcher_last_tick_age_ms, None);
    assert_eq!(health.platform_error_count, 0);
    assert_eq!(health.version, "0.1.0");

    assert!(!health_report(false, "0.1.0").database_ok);
}

#[test]
fn converts_milliseconds_that_fit_an_i64() {
    assert!(matches!(millis_as_i64(1_700_000_000_000), Ok(1_700_000_000_000)));
    assert!(matches!(millis_as_i64(i64::MAX as u128), Ok(i64::MAX)));
    assert!(matches!(millis_as_i64(i64::MAX as u128 + 1), Err(AppError::Internal(_))));
}

#[test]
fn reads_the_clock_in_unix_milliseconds() {
    let now = match unix_millis() {
        Ok(now) => now,
        Err(error) => panic!("the clock must be readable: {error:?}"),
    };
    let expected = std::time::SystemTime::now()
        .duration_since(std::time::UNIX_EPOCH)
        .map(|duration| duration.as_millis() as i64)
        .unwrap_or_default();

    assert!(now > 1_600_000_000_000);
    assert!((expected - now).abs() < 60_000);
}
