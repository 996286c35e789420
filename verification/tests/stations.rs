use flomon_service::model::{Decimal, FloodThresholds, PARAM_DISCHARGE, PARAM_STAGE};
use flomon_service::stations::{
    all_site_codes, find_station, sites_with_parameter, station_has_parameter, station_registry,
    RegistryError, Station, StationRegistry,
};

#[test]
fn test_all_site_codes_are_valid_usgs_format() {
    // Site codes for Illinois are 8-digit numeric strings.
    for station in station_registry() {
        assert_eq!(
            station.site_code.len(),
            8,
            "site code for '{}' should be 8 digits, got '{}'",
            station.name,
            station.site_code
        );
        assert!(
            station.site_code.chars().all(|c| c.is_ascii_digit()),
            "site code for '{}' should be numeric, got '{}'",
            station.name,
            station.site_code
        );
    }
}

#[test]
fn test_no_duplicate_site_codes() {
    let mut seen = std::collections::HashSet::new();
    for station in station_registry() {
        assert!(
            seen.insert(station.site_code),
            "duplicate site code '{}' found in the registry",
            station.site_code
        );
    }
}

#[test]
fn test_registry_contains_all_expected_peoria_basin_sites() {
    let expected = [
        "05568500", // Kingston Mines (primary)
        "05567500", // Peoria pool
        "05568000", // Chillicothe
        "05557000", // Henry
        "05568580", // Mackinaw River
        "05570000", // Spoon River
        "05552500", // Marseilles / Starved Rock
        "05536890", // Chicago Sanitary & Ship Canal
    ];
    let codes: Vec<_> = station_registry().iter().map(|s| s.site_code).collect();
    for expected_code in &expected {
        assert!(
            codes.contains(expected_code),
            "registry missing expected site '{}'",
            expected_code
        );
    }
}

#[test]
fn test_find_station_returns_correct_entry() {
    let station = find_station("05568500").expect("Kingston Mines should be in registry");
    assert_eq!(station.site_code, "05568500");
    assert!(station.name.contains("Kingston Mines"));
}

#[test]
fn test_find_station_returns_none_for_unknown_code() {
    assert!(find_station("00000000").is_none());
}

#[test]
fn test_all_site_codes_helper_matches_registry_length() {
    assert_eq!(all_site_codes().len(), station_registry().len());
}

#[test]
fn test_thresholds_are_ordered_ascending_where_defined() {
    for station in station_registry() {
        if let Some(t) = &station.thresholds {
            assert!(
                t.action_stage_ft < t.flood_stage_ft,
                "action must be below flood for '{}'",
                station.name
            );
            assert!(
                t.flood_stage_ft < t.moderate_flood_stage_ft,
                "flood must be below moderate for '{}'",
                station.name
            );
            assert!(
                t.moderate_flood_stage_ft < t.major_flood_stage_ft,
                "moderate must be below major for '{}'",
                station.name
            );
        }
    }
}

#[test]
fn test_parameter_codes_are_valid_and_distinct() {
    assert_eq!(PARAM_DISCHARGE.len(), 5);
    assert_eq!(PARAM_STAGE.len(), 5);
    assert!(PARAM_DISCHARGE.chars().all(|c| c.is_ascii_digit()));
    assert!(PARAM_STAGE.chars().all(|c| c.is_ascii_digit()));
    assert_ne!(PARAM_DISCHARGE, PARAM_STAGE);
}

#[test]
fn test_all_stations_have_at_least_one_expected_parameter() {
    for station in station_registry() {
        assert!(
            !station.expected_parameters.is_empty(),
            "station '{}' must have at least one expected parameter",
            station.name
        );
    }
}

#[test]
fn test_sites_with_parameter_filters_correctly() {
    let discharge_sites = sites_with_parameter(PARAM_DISCHARGE);
    let stage_sites = sites_with_parameter(PARAM_STAGE);

    // All sites should have discharge
    assert_eq!(discharge_sites.len(), 8);

    // Chicago Canal likely doesn't have stage
    assert!(stage_sites.len() >= 7);

    // Kingston Mines should have both
    assert!(discharge_sites.contains(&"05568500"));
    assert!(stage_sites.contains(&"05568500"));
}

#[test]
fn test_station_has_parameter_helper() {
    assert!(station_has_parameter("05568500", PARAM_DISCHARGE));
    assert!(station_has_parameter("05568500", PARAM_STAGE));
    assert!(!station_has_parameter("00000000", PARAM_DISCHARGE)); // non-existent station
}

fn station(site_code: &'static str, expected: Vec<&'static str>) -> Station {
    Station {
        site_code,
        name: "Test River at Testville",
        description: "A station for tests.",
        latitude: Decimal::from_micros(40_000_000),
        longitude: Decimal::from_micros(-89_000_000),
        thresholds: None,
        expected_parameters: expected,
    }
}

fn stages(action: i32, flood: i32, moderate: i32, major: i32) -> FloodThresholds {
    FloodThresholds {
        action_stage_ft: Decimal::from_units(action),
        flood_stage_ft: Decimal::from_units(flood),
        moderate_flood_stage_ft: Decimal::from_units(moderate),
        major_flood_stage_ft: Decimal::from_units(major),
    }
}

#[test]
fn site_codes_come_in_registry_order() {
    assert_eq!(
        all_site_codes(),
        vec![
            "05568500", "05567500", "05568000", "05557000", "05568580", "05570000", "05552500",
            "05536890"
        ]
    );
}

#[test]
fn canal_reports_discharge_only() {
    let stage_sites = sites_with_parameter(PARAM_STAGE);
    assert_eq!(stage_sites.len(), 7);
    assert!(!stage_sites.contains(&"05536890"));
    assert!(station_has_parameter("05536890", PARAM_DISCHARGE));
    assert!(!station_has_parameter("05536890", PARAM_STAGE));
    assert!(sites_with_parameter("00010").is_empty());
}

#[test]
fn kingston_mines_has_its_flood_stages() {
    let station = find_station("05568500").unwrap();
    assert_eq!(station.thresholds, Some(stages(14, 16, 20, 24)));
    assert_eq!(station.latitude, Decimal::from_micros(40_561_400));
    assert_eq!(station.longitude, Decimal::from_micros(-89_995_600));
    assert_eq!(station.expected_parameters, vec![PARAM_DISCHARGE, PARAM_STAGE]);
    assert_eq!(find_station("05567500").unwrap().thresholds, None);
    assert_eq!(find_station("05557000").unwrap().thresholds, Some(stages(13, 15, 19, 22)));
}

#[test]
fn built_in_registry_passes_its_own_check() {
    let registry = StationRegistry::new(station_registry()).expect("the built-in stations are sound");
    assert_eq!(registry.stations().len(), 8);
    assert_eq!(StationRegistry::peoria_basin().stations(), registry.stations());
}

#[test]
fn registry_refuses_a_duplicate_site_code() {
    let result = StationRegistry::new(vec![
        station("00000001", vec![PARAM_DISCHARGE]),
        station("00000002", vec![PARAM_DISCHARGE]),
        station("00000001", vec![PARAM_STAGE]),
    ]);
    assert_eq!(result.err(), Some(RegistryError::DuplicateSiteCode { first: 0, second: 2 }));
}

#[test]
fn registry_refuses_a_station_without_parameters() {
    let result = StationRegistry::new(vec![
        station("00000001", vec![PARAM_DISCHARGE]),
        station("00000002", vec![]),
    ]);
    assert_eq!(result.err(), Some(RegistryError::NoExpectedParameters { index: 1 }));
}

#[test]
fn registry_refuses_flood_stages_that_do_not_rise() {
    let mut odd = station("00000001", vec![PARAM_STAGE]);
    odd.thresholds = Some(stages(14, 14, 20, 24));
    let result = StationRegistry::new(vec![odd]);
    assert_eq!(result.err(), Some(RegistryError::ThresholdsNotAscending { index: 0 }));
}

#[test]
fn registry_names_the_first_fault() {
    let mut odd = station("00000001", vec![PARAM_STAGE]);
    odd.thresholds = Some(stages(24, 20, 16, 14));
    let result = StationRegistry::new(vec![
        station("00000001", vec![PARAM_DISCHARGE]),
        odd,
        station("00000003", vec![]),
    ]);
    assert_eq!(result.err(), Some(RegistryError::ThresholdsNotAscending { index: 1 }));
}

#[test]
fn empty_registry_is_sound_and_finds_nothing() {
    let registry = StationRegistry::new(vec![]).unwrap();
    assert!(registry.site_codes().is_empty());
    assert!(registry.find("05568500").is_none());
    assert!(!registry.has_parameter("05568500", PARAM_DISCHARGE));
    assert!(registry.sites_with_parameter(PARAM_DISCHARGE).is_empty());
}

#[test]
fn small_registry_answers_for_its_own_stations() {
    let registry = StationRegistry::new(vec![
        station("00000001", vec![PARAM_DISCHARGE]),
        station("00000002", vec![PARAM_STAGE, PARAM_DISCHARGE]),
        station("00000003", vec![PARAM_STAGE]),
    ])
    .unwrap();
    assert_eq!(registry.site_codes(), vec!["00000001", "00000002", "00000003"]);
    assert_eq!(registry.sites_with_parameter(PARAM_STAGE), vec!["00000002", "00000003"]);
    assert_eq!(registry.sites_with_parameter(PARAM_DISCHARGE), vec!["00000001", "00000002"]);
    assert!(registry.has_parameter("00000003", PARAM_STAGE));
    assert!(!registry.has_parameter("00000003", PARAM_DISCHARGE));
    assert!(!registry.has_parameter("05568500", PARAM_STAGE));
    assert_eq!(registry.find("00000002").unwrap().expected_parameters.len(), 2);
    assert!(registry.find("00000002").unwrap().expects(PARAM_STAGE));
    assert!(!registry.find("00000001").unwrap().expects(PARAM_STAGE));
}

#[test]
fn station_copy_is_equal() {
    let mut s = station("00000001", vec![PARAM_DISCHARGE, PARAM_STAGE]);
    s.thresholds = Some(stages(12, 14, 18, 22));
    assert_eq!(s.clone(), s);
}
