use flomon_service::dev_mode::{DevMode, ReplayWindow};
use flomon_service::time::Timestamp;

#[test]
fn test_dev_mode_creation() {
    let dev = DevMode::new(365);
    assert_eq!(dev.days_offset, 365);
    assert_eq!(dev.update_interval_secs, 900);
}

#[test]
fn window_ends_days_back_and_spans_two_intervals() {
    let dev = DevMode::new(365);
    let now = Timestamp::new(1_714_568_400, 250);
    let end = 1_714_568_400 - 365 * 86_400;
    assert_eq!(
        dev.replay_window(now),
        Some(ReplayWindow {
            start: Timestamp::new(end - 1_800, 250),
            end: Timestamp::new(end, 250),
        })
    );
}

#[test]
fn window_of_today() {
    let dev = DevMode::new(0);
    let now = Timestamp::new(1_000_000, 0);
    assert_eq!(
        dev.replay_window(now),
        Some(ReplayWindow { start: Timestamp::new(998_200, 0), end: now })
    );
}

#[test]
fn window_beyond_the_seconds_that_can_be_held() {
    let now = Timestamp::new(0, 0);
    assert_eq!(DevMode::new(i64::MAX).replay_window(now), None);
    assert_eq!(DevMode::new(i64::MIN).replay_window(now), None);
    let dev = DevMode { days_offset: 0, update_interval_secs: i64::MAX };
    assert_eq!(dev.replay_window(Timestamp::new(-10, 0)), None);
    assert_eq!(
        DevMode::new(0).replay_window(Timestamp::new(i64::MIN + 1_800, 0)),
        Some(ReplayWindow {
            start: Timestamp::new(i64::MIN, 0),
            end: Timestamp::new(i64::MIN + 1_800, 0),
        })
    );
    assert_eq!(DevMode::new(0).replay_window(Timestamp::new(i64::MIN + 1_799, 0)), None);
}

#[test]
fn data_range_needs_both_ends() {
    let a = Timestamp::new(100, 0);
    let b = Timestamp::new(200, 0);
    assert_eq!(DevMode::data_range(Some(a), Some(b)), Some((a, b)));
    assert_eq!(DevMode::data_range(Some(a), None), None);
    assert_eq!(DevMode::data_range(None, Some(b)), None);
    assert_eq!(DevMode::data_range(None, None), None);
}
