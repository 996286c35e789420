use flomon_service::alert::thresholds::{
    check_flood_stage, flood_severity, stage_of, FloodAlert, FloodSeverity,
};
use flomon_service::model::{Decimal, FloodThresholds, GaugeReading};

fn kingston_mines() -> FloodThresholds {
    FloodThresholds {
        action_stage_ft: Decimal::from_units(14),
        flood_stage_ft: Decimal::from_units(16),
        moderate_flood_stage_ft: Decimal::from_units(20),
        major_flood_stage_ft: Decimal::from_units(24),
    }
}

fn stage_reading(micros: i64) -> GaugeReading {
    GaugeReading {
        site_code: "05568500".to_string(),
        site_name: "Illinois River at Kingston Mines, IL".to_string(),
        parameter_code: "00065".to_string(),
        unit: "ft".to_string(),
        value: Decimal::from_micros(micros),
        datetime: "2024-05-01T12:00:00.000-05:00".to_string(),
        qualifier: "P".to_string(),
    }
}

#[test]
fn reading_of_21_feet_is_a_moderate_flood() {
    let alert = check_flood_stage(&stage_reading(21_000_000), &kingston_mines()).unwrap();
    assert_eq!(alert.severity, FloodSeverity::Moderate);
    assert_eq!(
        alert.message,
        "MODERATE FLOOD at Illinois River at Kingston Mines, IL: 21.00 ft (moderate flood stage: 20.00 ft)"
    );
}

#[test]
fn reading_of_13_9_feet_gives_no_alert() {
    assert_eq!(check_flood_stage(&stage_reading(13_900_000), &kingston_mines()), None);
}

#[test]
fn reading_on_a_stage_has_reached_it() {
    let t = kingston_mines();
    assert_eq!(flood_severity(Decimal::from_units(14), &t), Some(FloodSeverity::Action));
    assert_eq!(flood_severity(Decimal::from_units(16), &t), Some(FloodSeverity::Flood));
    assert_eq!(flood_severity(Decimal::from_units(20), &t), Some(FloodSeverity::Moderate));
    assert_eq!(flood_severity(Decimal::from_units(24), &t), Some(FloodSeverity::Major));
}

#[test]
fn reading_just_below_a_stage_has_the_stage_below() {
    let t = kingston_mines();
    assert_eq!(flood_severity(Decimal::from_micros(13_999_999), &t), None);
    assert_eq!(flood_severity(Decimal::from_micros(15_999_999), &t), Some(FloodSeverity::Action));
    assert_eq!(flood_severity(Decimal::from_micros(19_999_999), &t), Some(FloodSeverity::Flood));
    assert_eq!(flood_severity(Decimal::from_micros(23_999_999), &t), Some(FloodSeverity::Moderate));
}

#[test]
fn each_severity_has_its_message() {
    let t = kingston_mines();
    assert_eq!(
        check_flood_stage(&stage_reading(14_250_000), &t),
        Some(FloodAlert {
            severity: FloodSeverity::Action,
            message:
                "Action stage reached at Illinois River at Kingston Mines, IL: 14.25 ft (action stage: 14.00 ft)"
                    .to_string(),
        })
    );
    assert_eq!(
        check_flood_stage(&stage_reading(16_000_000), &t).unwrap().message,
        "FLOOD at Illinois River at Kingston Mines, IL: 16.00 ft (flood stage: 16.00 ft)"
    );
    assert_eq!(
        check_flood_stage(&stage_reading(30_126_000), &t).unwrap().message,
        "MAJOR FLOOD at Illinois River at Kingston Mines, IL: 30.13 ft (major flood stage: 24.00 ft)"
    );
}

#[test]
fn extreme_readings() {
    let t = kingston_mines();
    assert_eq!(flood_severity(Decimal::from_micros(i64::MAX), &t), Some(FloodSeverity::Major));
    assert_eq!(flood_severity(Decimal::from_micros(i64::MIN), &t), None);
    assert_eq!(flood_severity(Decimal::from_micros(0), &t), None);
}

#[test]
fn severities_are_ordered() {
    assert!(FloodSeverity::Action.level() < FloodSeverity::Flood.level());
    assert!(FloodSeverity::Flood.level() < FloodSeverity::Moderate.level());
    assert!(FloodSeverity::Moderate.level() < FloodSeverity::Major.level());
    assert!(FloodSeverity::Major.is_worse_than(&FloodSeverity::Action));
    assert!(!FloodSeverity::Flood.is_worse_than(&FloodSeverity::Flood));
}

#[test]
fn stage_of_each_severity() {
    let t = kingston_mines();
    assert_eq!(stage_of(FloodSeverity::Action, &t), Decimal::from_units(14));
    assert_eq!(stage_of(FloodSeverity::Major, &t), Decimal::from_units(24));
}

#[test]
fn alert_copy_is_equal() {
    let alert = check_flood_stage(&stage_reading(21_000_000), &kingston_mines()).unwrap();
    assert_eq!(alert.clone(), alert);
}
