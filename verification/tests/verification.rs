use flomon_service::ingest::iem::AsosObservation;
use flomon_service::model::Decimal;
use flomon_service::time::Timestamp;
use flomon_service::verify::{
    clone_note, clone_strings, configuration_note, cwms_sample_target, lists, missing_parameters,
    run_full_verification, status_of, tally, verify_asos_station, verify_cwms_location,
    verify_usgs_station, AsosVerification, CwmsVerification, TimeSeries, UsgsResponse,
    UsgsVerification, VerificationReport, VerificationStatus, VerificationSummary,
};

fn strings(items: &[&str]) -> Vec<String> {
    items.iter().map(|s| s.to_string()).collect()
}

fn series(code: Option<&str>, counts: &[usize]) -> TimeSeries {
    TimeSeries { parameter_code: code.map(|c| c.to_string()), value_counts: counts.to_vec() }
}

fn observation(temp: bool, precip: bool, wind: bool, pressure: bool) -> AsosObservation {
    let some = |present: bool| if present { Some(Decimal::from_units(1)) } else { None };
    AsosObservation {
        station_id: "PIA".to_string(),
        timestamp: Timestamp::new(1_714_568_400, 0),
        temp_f: some(temp),
        dewpoint_f: None,
        relative_humidity: None,
        wind_direction_deg: None,
        wind_speed_knots: some(wind),
        wind_gust_knots: None,
        precip_1hr_in: some(precip),
        pressure_mb: some(pressure),
        visibility_mi: None,
        sky_condition: None,
        weather_codes: None,
    }
}

#[test]
fn four_states_of_a_check() {
    assert_eq!(status_of(false, 0, 0), VerificationStatus::Failed);
    assert_eq!(status_of(false, 10, 0), VerificationStatus::Failed);
    assert_eq!(status_of(true, 0, 0), VerificationStatus::Failed);
    assert_eq!(status_of(true, 0, 2), VerificationStatus::Failed);
    assert_eq!(status_of(true, 1, 0), VerificationStatus::Success);
    assert_eq!(status_of(true, 1, 1), VerificationStatus::PartialSuccess);
    assert!(VerificationStatus::Success.is_working());
    assert!(VerificationStatus::PartialSuccess.is_working());
    assert!(!VerificationStatus::Failed.is_working());
}

#[test]
fn gauge_with_all_parameters_succeeds() {
    let response = UsgsResponse::Series(vec![
        series(Some("00060"), &[16]),
        series(Some("00065"), &[10, 6]),
    ]);
    let expected = strings(&["00060", "00065"]);
    let check = verify_usgs_station("05568500", "Kingston Mines", &expected, &response, true);
    assert_eq!(
        check,
        UsgsVerification {
            site_code: "05568500".to_string(),
            name: "Kingston Mines".to_string(),
            status: VerificationStatus::Success,
            site_exists: true,
            parameters_available: strings(&["00060", "00065"]),
            parameters_expected: strings(&["00060", "00065"]),
            parameters_missing: vec![],
            sample_data_count: 32,
            peak_flow_available: true,
            error_message: None,
        }
    );
}

#[test]
fn gauge_with_a_missing_parameter_succeeds_in_part() {
    let response = UsgsResponse::Series(vec![series(Some("00060"), &[16]), series(None, &[3])]);
    let expected = strings(&["00060", "00065", "00010"]);
    let check = verify_usgs_station("05536890", "Romeoville", &expected, &response, false);
    assert_eq!(check.status, VerificationStatus::PartialSuccess);
    assert_eq!(check.parameters_available, strings(&["00060"]));
    assert_eq!(check.parameters_missing, strings(&["00065", "00010"]));
    assert_eq!(check.sample_data_count, 19);
    assert!(!check.peak_flow_available);
    assert!(check.site_exists);
}

#[test]
fn gauge_without_values_fails() {
    let response = UsgsResponse::Series(vec![series(Some("00060"), &[]), series(Some("00065"), &[0])]);
    let check = verify_usgs_station("05568500", "Kingston Mines", &strings(&["00060"]), &response, true);
    assert_eq!(check.status, VerificationStatus::Failed);
    assert!(check.site_exists);
    assert_eq!(check.sample_data_count, 0);
    assert_eq!(check.error_message, None);

    let check = verify_usgs_station("05568500", "K", &strings(&["00060"]), &UsgsResponse::Series(vec![]), true);
    assert_eq!(check.status, VerificationStatus::Failed);
    assert_eq!(check.parameters_missing, strings(&["00060"]));
}

#[test]
fn gauge_that_could_not_be_reached_fails_with_a_message() {
    let expected = strings(&["00060"]);
    let check = verify_usgs_station(
        "05568500",
        "K",
        &expected,
        &UsgsResponse::RequestFailed("connection refused".to_string()),
        false,
    );
    assert_eq!(check.status, VerificationStatus::Failed);
    assert!(!check.site_exists);
    assert_eq!(check.error_message, Some("Request failed: connection refused".to_string()));
    assert_eq!(check.parameters_missing, expected);

    let check = verify_usgs_station(
        "05568500",
        "K",
        &expected,
        &UsgsResponse::Refused("404 Not Found".to_string()),
        false,
    );
    assert!(!check.site_exists);
    assert_eq!(check.error_message, Some("HTTP 404 Not Found".to_string()));

    let check = verify_usgs_station(
        "05568500",
        "K",
        &expected,
        &UsgsResponse::Unreadable("expected value at line 1".to_string()),
        true,
    );
    assert_eq!(check.status, VerificationStatus::Failed);
    assert!(check.site_exists);
    assert_eq!(check.error_message, Some("Parse error: expected value at line 1".to_string()));
}

#[test]
fn gauge_value_count_is_capped() {
    let response = UsgsResponse::Series(vec![
        series(Some("00060"), &[usize::MAX, 5]),
        series(Some("00065"), &[7]),
    ]);
    let check = verify_usgs_station("05568500", "K", &strings(&["00060"]), &response, true);
    assert_eq!(check.sample_data_count, usize::MAX);
    assert_eq!(check.status, VerificationStatus::Success);
}

#[test]
fn missing_parameters_keep_their_order() {
    let expected = strings(&["a", "b", "c", "b"]);
    assert_eq!(missing_parameters(&expected, &strings(&["c"])), strings(&["a", "b", "b"]));
    assert_eq!(missing_parameters(&expected, &strings(&["a", "b", "c"])), strings(&[]));
    assert_eq!(missing_parameters(&expected, &strings(&[])), expected);
    assert_eq!(missing_parameters(&strings(&[]), &strings(&["a"])), strings(&[]));
    assert!(lists(&expected, "c"));
    assert!(!lists(&expected, "d"));
}

#[test]
fn location_with_a_sample_succeeds() {
    let catalog = Ok(strings(&["LaGrange.Stage.Inst.15Minutes.0.rev", "LaGrange.Flow.Inst.0.0.rev"]));
    assert_eq!(cwms_sample_target(&catalog), Some(&"LaGrange.Stage.Inst.15Minutes.0.rev".to_string()));
    let check = verify_cwms_location("LaGrange Lock", "MVR", "LaGrange", &catalog, Some(96));
    assert_eq!(
        check,
        CwmsVerification {
            name: "LaGrange Lock".to_string(),
            office: "MVR".to_string(),
            cwms_location: "LaGrange".to_string(),
            status: VerificationStatus::Success,
            catalog_found: true,
            timeseries_discovered: strings(&[
                "LaGrange.Stage.Inst.15Minutes.0.rev",
                "LaGrange.Flow.Inst.0.0.rev"
            ]),
            sample_data_available: true,
            sample_data_count: 96,
            error_message: None,
        }
    );
}

#[test]
fn location_without_a_sample_succeeds_in_part() {
    let catalog = Ok(strings(&["Peoria.Stage"]));
    for sample in [None, Some(0)] {
        let check = verify_cwms_location("Peoria Lock", "MVR", "Peoria", &catalog, sample);
        assert_eq!(check.status, VerificationStatus::PartialSuccess);
        assert!(check.catalog_found);
        assert!(!check.sample_data_available);
        assert_eq!(check.sample_data_count, 0);
        assert_eq!(check.error_message, None);
    }
}

#[test]
fn location_with_an_empty_or_failed_catalog_fails() {
    let empty: Result<Vec<String>, String> = Ok(vec![]);
    assert_eq!(cwms_sample_target(&empty), None);
    let check = verify_cwms_location("Nowhere", "MVR", "Nowhere", &empty, Some(5));
    assert_eq!(check.status, VerificationStatus::Failed);
    assert!(!check.catalog_found);
    assert_eq!(check.sample_data_count, 0);
    assert!(!check.sample_data_available);
    assert_eq!(check.error_message, Some("No timeseries found in catalog".to_string()));

    let failed: Result<Vec<String>, String> = Err("HTTP 503".to_string());
    assert_eq!(cwms_sample_target(&failed), None);
    let check = verify_cwms_location("Nowhere", "MVR", "Nowhere", &failed, None);
    assert_eq!(check.status, VerificationStatus::Failed);
    assert_eq!(check.error_message, Some("Catalog query failed: HTTP 503".to_string()));
    assert!(check.timeseries_discovered.is_empty());
}

#[test]
fn weather_station_with_observations_succeeds() {
    let fetched = Ok(vec![
        observation(true, false, false, false),
        observation(false, false, true, false),
        observation(true, false, false, true),
    ]);
    let check = verify_asos_station("KPIA", "Peoria Airport", &fetched);
    assert_eq!(
        check,
        AsosVerification {
            station_id: "KPIA".to_string(),
            name: "Peoria Airport".to_string(),
            status: VerificationStatus::Success,
            api_responsive: true,
            sample_data_count: 3,
            data_types_available: strings(&["temperature", "wind", "pressure"]),
            error_message: None,
        }
    );
    let all = Ok(vec![observation(true, true, true, true)]);
    assert_eq!(
        verify_asos_station("KPIA", "Peoria Airport", &all).data_types_available,
        strings(&["temperature", "precipitation", "wind", "pressure"])
    );
}

#[test]
fn weather_station_without_observations_fails() {
    let check = verify_asos_station("KPIA", "Peoria Airport", &Ok(vec![]));
    assert_eq!(check.status, VerificationStatus::Failed);
    assert!(check.api_responsive);
    assert_eq!(check.sample_data_count, 0);
    assert!(check.data_types_available.is_empty());
    assert_eq!(check.error_message, None);
}

#[test]
fn weather_station_that_could_not_be_reached_fails_with_a_message() {
    let check = verify_asos_station("KPIA", "Peoria Airport", &Err("timeout".to_string()));
    assert_eq!(check.status, VerificationStatus::Failed);
    assert!(!check.api_responsive);
    assert_eq!(check.error_message, Some("API request failed: timeout".to_string()));
}

fn gauge_check(site: &str, status: VerificationStatus) -> UsgsVerification {
    UsgsVerification {
        site_code: site.to_string(),
        name: site.to_string(),
        status,
        site_exists: status != VerificationStatus::Failed,
        parameters_available: vec![],
        parameters_expected: vec![],
        parameters_missing: vec![],
        sample_data_count: 1,
        peak_flow_available: false,
        error_message: None,
    }
}

fn location_check(name: &str, status: VerificationStatus) -> CwmsVerification {
    CwmsVerification {
        name: name.to_string(),
        office: "MVR".to_string(),
        cwms_location: name.to_string(),
        status,
        catalog_found: status != VerificationStatus::Failed,
        timeseries_discovered: vec![],
        sample_data_available: status == VerificationStatus::Success,
        sample_data_count: 0,
        error_message: None,
    }
}

fn weather_check(id: &str, status: VerificationStatus) -> AsosVerification {
    AsosVerification {
        station_id: id.to_string(),
        name: id.to_string(),
        status,
        api_responsive: status != VerificationStatus::Failed,
        sample_data_count: 0,
        data_types_available: vec![],
        error_message: None,
    }
}

#[test]
fn report_counts_each_check_once() {
    let (report, notes) = run_full_verification(
        "2024-05-01T13:00:00+00:00".to_string(),
        vec![gauge_check("1", VerificationStatus::Success), gauge_check("2", VerificationStatus::Failed), gauge_check("3", VerificationStatus::PartialSuccess)],
        Ok(vec![location_check("a", VerificationStatus::Failed), location_check("b", VerificationStatus::Failed)]),
        Ok(vec![weather_check("KPIA", VerificationStatus::Success)]),
    );
    assert!(notes.is_empty());
    assert_eq!(
        report.summary,
        VerificationSummary {
            usgs_total: 3,
            usgs_working: 2,
            usgs_failed: 1,
            cwms_total: 2,
            cwms_working: 0,
            cwms_failed: 2,
            asos_total: 1,
            asos_working: 1,
            asos_failed: 0,
        }
    );
    assert_eq!(report.timestamp, "2024-05-01T13:00:00+00:00");
    assert!(report.is_consistent());
    assert_eq!(report.summary.total_working(), 3);
    assert_eq!(report.summary.total_checked(), 6);
}

#[test]
fn failed_check_does_not_hide_the_others() {
    let (report, _) = run_full_verification(
        String::new(),
        vec![gauge_check("1", VerificationStatus::Failed), gauge_check("2", VerificationStatus::Success), gauge_check("3", VerificationStatus::Failed)],
        Ok(vec![]),
        Ok(vec![]),
    );
    let sites: Vec<&str> = report.usgs_results.iter().map(|r| r.site_code.as_str()).collect();
    assert_eq!(sites, vec!["1", "2", "3"]);
    assert_eq!(report.usgs_results[1].status, VerificationStatus::Success);
    assert_eq!(report.summary.usgs_total, report.summary.usgs_working + report.summary.usgs_failed);
}

#[test]
fn provider_without_configuration_is_reported_empty_with_a_note() {
    let (report, notes) = run_full_verification(
        String::new(),
        vec![gauge_check("1", VerificationStatus::Success)],
        Err("usace_iem.toml: No such file".to_string()),
        Err("./iem_asos.toml: No such file".to_string()),
    );
    assert_eq!(report.summary.cwms_total, 0);
    assert_eq!(report.summary.cwms_working, 0);
    assert_eq!(report.summary.asos_total, 0);
    assert!(report.cwms_results.is_empty());
    assert!(report.asos_results.is_empty());
    assert_eq!(report.summary.usgs_total, 1);
    assert_eq!(
        notes,
        vec![
            "Warning: Could not load CWMS configuration: usace_iem.toml: No such file".to_string(),
            "Warning: Could not load ASOS configuration: ./iem_asos.toml: No such file".to_string(),
        ]
    );
    assert_eq!(
        configuration_note("CWMS", "missing"),
        "Warning: Could not load CWMS configuration: missing"
    );
}

#[test]
fn report_grows_one_check_at_a_time() {
    let mut report = VerificationReport::new("2024-05-01T13:00:00+00:00".to_string());
    assert!(report.is_consistent());
    assert_eq!(report.summary.total_checked(), 0);
    report.record_usgs(gauge_check("1", VerificationStatus::Failed));
    report.record_usgs(gauge_check("2", VerificationStatus::Success));
    report.record_cwms(location_check("a", VerificationStatus::PartialSuccess));
    report.record_asos(weather_check("KPIA", VerificationStatus::Failed));
    report.record_asos(weather_check("KORD", VerificationStatus::Failed));
    assert!(report.is_consistent());
    let (batch, _) = run_full_verification(
        "2024-05-01T13:00:00+00:00".to_string(),
        vec![gauge_check("1", VerificationStatus::Failed), gauge_check("2", VerificationStatus::Success)],
        Ok(vec![location_check("a", VerificationStatus::PartialSuccess)]),
        Ok(vec![weather_check("KPIA", VerificationStatus::Failed), weather_check("KORD", VerificationStatus::Failed)]),
    );
    assert_eq!(report, batch);
    assert_eq!(report.summary.asos_failed, 2);
    assert_eq!(report.summary.cwms_working, 1);
}

#[test]
fn report_with_wrong_counts_is_not_consistent() {
    let mut report = VerificationReport::new(String::new());
    report.record_usgs(gauge_check("1", VerificationStatus::Success));
    report.summary.usgs_failed = 1;
    assert!(!report.is_consistent());
}

#[test]
fn statuses_are_tallied() {
    assert_eq!(tally(&vec![]), (0, 0));
    assert_eq!(tally(&vec![VerificationStatus::Success, VerificationStatus::Failed, VerificationStatus::PartialSuccess, VerificationStatus::Failed, VerificationStatus::Failed]), (2, 3));
}

#[test]
fn checks_are_copied_whole() {
    let gauge = gauge_check("1", VerificationStatus::Success);
    assert_eq!(gauge.clone(), gauge);
    let location = location_check("a", VerificationStatus::Failed);
    assert_eq!(location.clone(), location);
    let weather = weather_check("KPIA", VerificationStatus::PartialSuccess);
    assert_eq!(weather.clone(), weather);
    assert_eq!(clone_strings(&strings(&["a", "b"])), strings(&["a", "b"]));
    assert_eq!(clone_note(&Some("x".to_string())), Some("x".to_string()));
    assert_eq!(clone_note(&None), None);
}
