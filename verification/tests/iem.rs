use flomon_service::ingest::iem::{
    calculate_cumulative_precip, calculate_precip_intensity, current_observation,
    detect_rainfall_event, parse_asos_csv, parse_observation, precip_micros, AsosObservation,
    IemCurrentResponse, IemObservation,
};
use flomon_service::model::Decimal;
use flomon_service::time::Timestamp;

fn inches(micros: i64) -> Option<Decimal> {
    Some(Decimal::from_micros(micros))
}

fn observation(precip_1hr_in: Option<Decimal>) -> AsosObservation {
    AsosObservation {
        station_id: "KPIA".to_string(),
        timestamp: Timestamp::now(),
        temp_f: None,
        dewpoint_f: None,
        relative_humidity: None,
        wind_direction_deg: None,
        wind_speed_knots: None,
        wind_gust_knots: None,
        precip_1hr_in,
        pressure_mb: None,
        visibility_mi: None,
        sky_condition: None,
        weather_codes: None,
    }
}

#[test]
fn test_cumulative_precip() {
    let obs = vec![
        AsosObservation {
            station_id: "KPIA".to_string(),
            timestamp: Timestamp::now(),
            temp_f: inches(65_000_000),
            dewpoint_f: inches(55_000_000),
            relative_humidity: None,
            wind_direction_deg: inches(180_000_000),
            wind_speed_knots: inches(10_000_000),
            wind_gust_knots: None,
            precip_1hr_in: inches(250_000),
            pressure_mb: inches(1_013_000_000),
            visibility_mi: inches(10_000_000),
            sky_condition: None,
            weather_codes: None,
        },
        AsosObservation {
            station_id: "KPIA".to_string(),
            timestamp: Timestamp::now(),
            temp_f: inches(64_000_000),
            dewpoint_f: inches(54_000_000),
            relative_humidity: None,
            wind_direction_deg: inches(190_000_000),
            wind_speed_knots: inches(12_000_000),
            wind_gust_knots: None,
            precip_1hr_in: inches(300_000),
            pressure_mb: inches(1_012_000_000),
            visibility_mi: inches(8_000_000),
            sky_condition: None,
            weather_codes: None,
        },
    ];

    assert_eq!(calculate_cumulative_precip(&obs), inches(550_000));
}

#[test]
fn test_detect_rainfall_event() {
    let obs = vec![observation(inches(750_000))];

    assert!(detect_rainfall_event(&obs, Decimal::from_micros(500_000)));
    assert!(!detect_rainfall_event(&obs, Decimal::from_micros(1_000_000)));
}

#[test]
fn rain_that_equals_the_threshold_is_an_event() {
    let obs = vec![observation(inches(250_000)), observation(None), observation(inches(250_000))];
    assert!(detect_rainfall_event(&obs, Decimal::from_micros(500_000)));
    assert!(!detect_rainfall_event(&obs, Decimal::from_micros(500_001)));
}

#[test]
fn no_observations_no_rain() {
    assert_eq!(calculate_cumulative_precip(&[]), inches(0));
    assert_eq!(precip_micros(&[]), 0);
    assert!(detect_rainfall_event(&[], Decimal::from_micros(0)));
    assert!(!detect_rainfall_event(&[], Decimal::from_micros(1)));
    assert_eq!(calculate_cumulative_precip(&[observation(None)]), inches(0));
}

#[test]
fn rain_beyond_what_a_decimal_holds() {
    let obs = vec![observation(inches(i64::MAX)), observation(inches(1))];
    assert_eq!(calculate_cumulative_precip(&obs), None);
    assert_eq!(precip_micros(&obs), i64::MAX as i128 + 1);
    assert!(detect_rainfall_event(&obs, Decimal::from_micros(i64::MAX)));
    assert_eq!(calculate_precip_intensity(&obs, 1), None);
    assert_eq!(calculate_precip_intensity(&obs, 2), inches(4_611_686_018_427_387_904));
}

#[test]
fn intensity_is_rain_per_hour() {
    let obs = vec![observation(inches(250_000)), observation(inches(300_000))];
    assert_eq!(calculate_precip_intensity(&obs, 2), inches(275_000));
    assert_eq!(calculate_precip_intensity(&obs, 1), inches(550_000));
    assert_eq!(calculate_precip_intensity(&obs, 3), inches(183_333));
    assert_eq!(calculate_precip_intensity(&obs, 0), None);
    assert_eq!(calculate_precip_intensity(&[], 4), None);
}

#[test]
fn intensity_rounds_toward_zero() {
    let obs = vec![observation(inches(-550_000))];
    assert_eq!(calculate_precip_intensity(&obs, 3), inches(-183_333));
}

fn sent(valid: &str) -> IemObservation {
    IemObservation {
        station: "PIA".to_string(),
        valid: valid.to_string(),
        temp_f: inches(65_000_000),
        dewpoint_f: inches(55_000_000),
        relative_humidity: inches(70_100_000),
        drct: inches(180_000_000),
        sknt: inches(10_000_000),
        precip_1hr_in: inches(250_000),
        alti: inches(29_920_000),
        sea_level_pressure_mb: inches(1_013_200_000),
        vsby: inches(10_000_000),
        wind_gust_knots: None,
        skyc1: Some("OVC".to_string()),
        wxcodes: Some("RA".to_string()),
    }
}

#[test]
fn sent_observation_becomes_a_stored_one() {
    let obs = parse_observation(sent("2024-05-01T08:00:00-05:00")).unwrap();
    assert_eq!(
        obs,
        AsosObservation {
            station_id: "PIA".to_string(),
            timestamp: Timestamp::new(1_714_568_400, 0),
            temp_f: inches(65_000_000),
            dewpoint_f: inches(55_000_000),
            relative_humidity: inches(70_100_000),
            wind_direction_deg: inches(180_000_000),
            wind_speed_knots: inches(10_000_000),
            wind_gust_knots: None,
            precip_1hr_in: inches(250_000),
            pressure_mb: inches(1_013_200_000),
            visibility_mi: inches(10_000_000),
            sky_condition: Some("OVC".to_string()),
            weather_codes: Some("RA".to_string()),
        }
    );
}

#[test]
fn sent_observation_with_an_unreadable_time() {
    assert_eq!(
        parse_observation(sent("2024-05-01 08:00")),
        Err("cannot parse observation time: 2024-05-01 08:00".to_string())
    );
}

#[test]
fn current_observation_is_the_first_one() {
    let response = IemCurrentResponse {
        data: vec![sent("2024-05-01T13:00:00Z"), sent("2024-05-01T12:00:00Z")],
    };
    assert_eq!(
        current_observation(response).unwrap().timestamp,
        Timestamp::new(1_714_568_400, 0)
    );
    assert_eq!(
        current_observation(IemCurrentResponse { data: vec![] }),
        Err("No data returned for station".to_string())
    );
    assert!(current_observation(IemCurrentResponse { data: vec![sent("soon")] }).is_err());
}

const HEADER: &str = "station,valid,tmpf,dwpf,relh,drct,sknt,p01i,alti,mslp,vsby,gust,skyc1,skyc2,skyc3,skyc4,skyl1,skyl2,skyl3,skyl4,wxcodes";

fn csv(rows: &[&str]) -> String {
    let mut text = String::from(HEADER);
    for row in rows {
        text.push('\n');
        text.push_str(row);
    }
    text
}

#[test]
fn csv_row_becomes_an_observation() {
    let text = csv(&[
        "PIA,2026-02-21 19:54,65.00,55.00,70.10,180.00,10.00,0.25,29.92,1013.20,10.00,null,BKN,OVC,null,null,4500.00,7000.00,null,null,-RA BR",
    ]);
    let rows = parse_asos_csv(&text, "KPIA").unwrap();
    assert_eq!(
        rows,
        vec![AsosObservation {
            station_id: "PIA".to_string(),
            timestamp: Timestamp::new(1_771_703_640, 0),
            temp_f: inches(65_000_000),
            dewpoint_f: inches(55_000_000),
            relative_humidity: inches(70_100_000),
            wind_direction_deg: inches(180_000_000),
            wind_speed_knots: inches(10_000_000),
            wind_gust_knots: None,
            precip_1hr_in: inches(250_000),
            pressure_mb: inches(1_013_200_000),
            visibility_mi: inches(10_000_000),
            sky_condition: Some("BKN/OVC".to_string()),
            weather_codes: Some("-RA BR".to_string()),
        }]
    );
}

#[test]
fn csv_header_blank_and_short_lines_are_passed_over() {
    let row = "PIA,2026-02-21 19:54,65.00,null,null,null,null,null,null,null,null,null,null,null,null,null,null,null,null,null,null";
    let short = "PIA,2026-02-21 20:54,65.00,55.00";
    let text = csv(&["", row, "   ", short, row]);
    let rows = parse_asos_csv(&text, "KPIA").unwrap();
    assert_eq!(rows.len(), 2);
    assert_eq!(rows[0], rows[1]);
    assert_eq!(rows[0].temp_f, inches(65_000_000));
    assert_eq!(rows[0].sky_condition, None);
    assert_eq!(rows[0].weather_codes, None);
    // A first line is the header even where it looks like a row.
    assert_eq!(parse_asos_csv(row, "KPIA"), Ok(vec![]));
    assert_eq!(parse_asos_csv("", "KPIA"), Ok(vec![]));
    assert_eq!(parse_asos_csv(HEADER, "KPIA"), Ok(vec![]));
}

#[test]
fn csv_lines_may_end_in_carriage_return_and_line_feed() {
    let row = "PIA,2026-02-21 19:54,65.00,null,null,null,null,null,null,null,null,null,null,null,null,null,null,null,null,null,RA";
    let text = format!("{}\r\n{}\r\n{}\r\n", HEADER, row, row);
    let rows = parse_asos_csv(&text, "KPIA").unwrap();
    assert_eq!(rows.len(), 2);
    assert_eq!(rows[1].weather_codes, Some("RA".to_string()));
    // Without a line feed behind it, a carriage return belongs to the field.
    let text = format!("{}\n{}\r", HEADER, row);
    let rows = parse_asos_csv(&text, "KPIA").unwrap();
    assert_eq!(rows[0].weather_codes, Some("RA\r".to_string()));
}

#[test]
fn csv_row_with_an_unreadable_time_is_an_error() {
    let good = "PIA,2026-02-21 19:54,65.00,null,null,null,null,null,null,null,null,null,null,null,null,null,null,null,null,null,null";
    let bad = "PIA,2026-02-21T19:54,65.00,null,null,null,null,null,null,null,null,null,null,null,null,null,null,null,null,null,null";
    assert_eq!(
        parse_asos_csv(&csv(&[good, bad, good]), "KPIA"),
        Err("Failed to parse timestamp".to_string())
    );
    // A short line is passed over before its time is read.
    assert_eq!(parse_asos_csv(&csv(&["PIA,never,65.00"]), "KPIA"), Ok(vec![]));
}

#[test]
fn csv_fields_are_trimmed_and_odd_numbers_hold_no_value() {
    let row = "PIA,2026-02-21 19:54, 65.5 ,M,,1e2,-3.25,+0.0001,x,1013.2.1, 9 ,.5, FEW , ,null,SCT ,0,0,0,0, TS ";
    let rows = parse_asos_csv(&csv(&[row]), "KPIA").unwrap();
    let obs = &rows[0];
    assert_eq!(obs.temp_f, inches(65_500_000));
    assert_eq!(obs.dewpoint_f, None);
    assert_eq!(obs.relative_humidity, None);
    assert_eq!(obs.wind_direction_deg, None);
    assert_eq!(obs.wind_speed_knots, inches(-3_250_000));
    assert_eq!(obs.precip_1hr_in, inches(100));
    assert_eq!(obs.pressure_mb, None);
    assert_eq!(obs.visibility_mi, inches(9_000_000));
    assert_eq!(obs.wind_gust_knots, inches(500_000));
    assert_eq!(obs.sky_condition, Some("FEW/SCT".to_string()));
    assert_eq!(obs.weather_codes, Some(" TS ".to_string()));
}

#[test]
fn csv_row_may_have_more_than_21_fields() {
    let row = "PIA,2026-02-21 19:54,1,2,3,4,5,6,7,8,9,10,A,B,C,D,0,0,0,0,RA,extra,more";
    let rows = parse_asos_csv(&csv(&[row]), "KPIA").unwrap();
    assert_eq!(rows[0].sky_condition, Some("A/B/C/D".to_string()));
    assert_eq!(rows[0].wind_gust_knots, inches(10_000_000));
    assert_eq!(rows[0].pressure_mb, inches(8_000_000));
}
