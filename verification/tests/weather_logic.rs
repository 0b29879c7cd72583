use cyber_weather::animation::{scene_for_mode, WeatherScene};
use cyber_weather::calendar::{parse_date, CalendarDate};
use cyber_weather::console::{location_label, pick_auto_animation_mode, ConsoleState};
use cyber_weather::geocoding_service::{geocode_inputs, select_geocoding_result, GeocodingResult};
use cyber_weather::history_service::{export_file_name, history_csv_rows, history_file_path};
use cyber_weather::models::{
    quick_cities, summarize_sources, AnimationMode, HistoryEntry, InputMode, LocationQuery,
    WeatherDayRecord, WeatherQueryResult,
};
use cyber_weather::text::{text_before, text_contains};
use cyber_weather::weather_code_map::map_weather_code;
use cyber_weather::weather_service::{
    build_day_records, build_query_result, expand_i32_vec, merge_by_date, merge_split_payloads,
    payload_from_response, plan_fetch, EndpointKind, FetchPlan, OpenMeteoCurrent, OpenMeteoDaily,
    OpenMeteoResponse, PartialWeatherPayload,
};

fn date(y: i32, m: u32, d: u32) -> CalendarDate {
    CalendarDate::from_ymd(y, m, d).unwrap()
}

fn ymd(d: &CalendarDate) -> (i32, u32, u32) {
    (d.year(), d.month(), d.day())
}

fn day(date_text: &str, code: Option<i32>, source: &str, high: f64) -> WeatherDayRecord<f64> {
    WeatherDayRecord {
        day_date: date_text.to_string(),
        temperature_max_c: Some(high),
        temperature_min_c: None,
        precipitation_mm: None,
        wind_speed_max_kmh: None,
        weather_code: code,
        weather_description: "x".to_string(),
        source: source.to_string(),
    }
}

fn result_with(days: Vec<WeatherDayRecord<f64>>, current: Option<i32>) -> WeatherQueryResult<f64> {
    WeatherQueryResult {
        fetched_at: "2024-05-01T10:00:00+02:00".to_string(),
        city: Some("Phoenix".to_string()),
        state: Some("Arizona".to_string()),
        latitude: 33.4,
        longitude: -112.0,
        timezone: "America/Phoenix".to_string(),
        start_date: "2024-05-01".to_string(),
        end_date: "2024-05-02".to_string(),
        current_temperature_c: Some(30.5),
        current_apparent_temperature_c: None,
        current_weather_code: current,
        current_weather_description: None,
        days,
    }
}

#[test]
fn weather_codes_map_to_descriptions_and_modes() {
    assert_eq!(map_weather_code(0), ("Clear sky", AnimationMode::Sunny));
    assert_eq!(map_weather_code(2), ("Mainly clear", AnimationMode::Cloud));
    assert_eq!(map_weather_code(48), ("Fog", AnimationMode::Cloud));
    assert_eq!(map_weather_code(57), ("Freezing drizzle", AnimationMode::Snow));
    assert_eq!(map_weather_code(65), ("Rain", AnimationMode::Rain));
    assert_eq!(map_weather_code(77), ("Snow", AnimationMode::Snow));
    assert_eq!(map_weather_code(82), ("Rain showers", AnimationMode::Rain));
    assert_eq!(map_weather_code(95), ("Thunderstorm", AnimationMode::Rain));
    assert_eq!(map_weather_code(99), ("Thunderstorm with hail", AnimationMode::Rain));
    assert_eq!(map_weather_code(4), ("Unknown conditions", AnimationMode::Cloud));
    assert_eq!(map_weather_code(-1), ("Unknown conditions", AnimationMode::Cloud));
}

#[test]
fn animation_modes_and_labels() {
    let all = AnimationMode::all();
    let labels: Vec<&str> = all.iter().map(|m| m.label()).collect();
    assert_eq!(labels, vec!["Auto", "Sunny", "Rain", "Snow", "Cloud"]);
    assert_eq!(scene_for_mode(AnimationMode::Auto), WeatherScene::Cloud);
    assert_eq!(scene_for_mode(AnimationMode::Snow), WeatherScene::Snow);
}

#[test]
fn quick_city_list() {
    let cities = quick_cities();
    assert_eq!(cities[0].city, "Phoenix");
    assert_eq!(cities[0].state, "AZ");
    assert_eq!(cities[5].city, "Seattle");
    assert_eq!(cities[5].state, "WA");
}

#[test]
fn parse_date_reads_trimmed_iso_dates() {
    let d = parse_date("  2024-02-29 ").unwrap();
    assert_eq!(ymd(&d), (2024, 2, 29));
    assert_eq!(
        parse_date("2023-02-29").err().unwrap(),
        "Invalid date '2023-02-29'. Use YYYY-MM-DD."
    );
    assert_eq!(parse_date("May 1").err().unwrap(), "Invalid date 'May 1'. Use YYYY-MM-DD.");
}

#[test]
fn calendar_validity_order_and_previous_day() {
    assert!(CalendarDate::from_ymd(2023, 2, 29).is_none());
    assert!(CalendarDate::from_ymd(1900, 2, 29).is_none());
    assert!(CalendarDate::from_ymd(2000, 2, 29).is_some());
    assert!(CalendarDate::from_ymd(2024, 13, 1).is_none());
    assert!(date(2024, 1, 31).is_before(&date(2024, 2, 1)));
    assert!(!date(2024, 2, 1).is_before(&date(2024, 2, 1)));
    assert_eq!(ymd(&date(2024, 3, 1).previous_day().unwrap()), (2024, 2, 29));
    assert_eq!(ymd(&date(2024, 1, 1).previous_day().unwrap()), (2023, 12, 31));
    assert_eq!(ymd(&date(2024, 5, 10).previous_day().unwrap()), (2024, 5, 9));
    assert!(date(-262143, 1, 1).previous_day().is_none());
}

#[test]
fn dates_format_as_chrono_does() {
    assert_eq!(date(2024, 3, 5).format_ymd(), "2024-03-05");
    assert_eq!(date(987, 12, 31).format_ymd(), "0987-12-31");
    assert_eq!(date(-1, 1, 1).format_ymd(), "-0001-01-01");
    assert_eq!(date(10000, 1, 1).format_ymd(), "+10000-01-01");
}

#[test]
fn text_helpers() {
    assert!(text_contains("ARIZONA", "ZON"));
    assert!(!text_contains("AZ", "ARIZONA"));
    assert!(text_before("2024-01-31", "2024-02-01"));
    assert!(!text_before("2024-02-01", "2024-02-01"));
    assert!(text_before("2024", "2024-01"));
}

#[test]
fn sources_are_summarized() {
    let both = vec![day("2024-05-01", None, "archive", 1.0), day("2024-05-02", None, "forecast", 2.0)];
    assert_eq!(summarize_sources(&both), "archive+forecast");
    assert_eq!(summarize_sources(&both[..1]), "archive");
    assert_eq!(summarize_sources(&both[1..]), "forecast");
    assert_eq!(summarize_sources::<f64>(&[]), "unknown");
    assert_eq!(summarize_sources(&[day("2024-05-01", None, "other", 1.0)]), "unknown");
}

#[test]
fn history_entry_snapshots_a_result() {
    let mut result = result_with(vec![day("2024-05-01", Some(0), "forecast", 20.0)], Some(3));
    let entry = HistoryEntry::from_result(&result);
    assert_eq!(entry.timestamp, "2024-05-01T10:00:00+02:00");
    assert_eq!(entry.city, "Phoenix");
    assert_eq!(entry.state, "Arizona");
    assert_eq!(entry.source, "forecast");
    assert_eq!(entry.days.len(), 1);
    assert_eq!(entry.latitude, 33.4);
    result.city = None;
    result.state = None;
    result.days.clear();
    let entry = HistoryEntry::from_result(&result);
    assert_eq!(entry.city, "(coords)");
    assert_eq!(entry.state, "-");
    assert_eq!(entry.source, "unknown");
}

#[test]
fn auto_animation_prefers_first_day_then_current() {
    let r = result_with(vec![day("2024-05-01", Some(71), "forecast", 1.0)], Some(0));
    assert_eq!(pick_auto_animation_mode(&r), AnimationMode::Snow);
    let r = result_with(vec![day("2024-05-01", None, "forecast", 1.0)], Some(0));
    assert_eq!(pick_auto_animation_mode(&r), AnimationMode::Sunny);
    let r = result_with(vec![], None);
    assert_eq!(pick_auto_animation_mode(&r), AnimationMode::Cloud);
}

#[test]
fn expanding_per_day_lists() {
    assert_eq!(expand_i32_vec(Some(vec![1, 2]), 2), vec![Some(1), Some(2)]);
    assert_eq!(expand_i32_vec(Some(vec![1]), 2), vec![None, None]);
    assert_eq!(expand_i32_vec(None, 3), vec![None, None, None]);
}

fn daily(times: &[&str]) -> OpenMeteoDaily<f64> {
    OpenMeteoDaily {
        time: times.iter().map(|t| t.to_string()).collect(),
        temperature_2m_max: Some(vec![10.0; times.len()]),
        temperature_2m_min: Some(vec![1.0]),
        precipitation_sum: None,
        wind_speed_10m_max: Some(vec![5.0; times.len()]),
        weather_code: Some(vec![61; times.len()]),
    }
}

#[test]
fn day_records_are_built_and_checked() {
    let days = build_day_records(daily(&["2024-05-01", "2024-05-02"]), "archive").unwrap();
    assert_eq!(days.len(), 2);
    assert_eq!(days[1].day_date, "2024-05-02");
    assert_eq!(days[1].temperature_max_c, Some(10.0));
    assert_eq!(days[1].temperature_min_c, None);
    assert_eq!(days[1].weather_code, Some(61));
    assert_eq!(days[1].weather_description, "Rain");
    assert_eq!(days[1].source, "archive");

    let mut no_codes = daily(&["2024-05-01"]);
    no_codes.weather_code = None;
    assert_eq!(build_day_records(no_codes, "forecast").unwrap()[0].weather_description, "Unavailable");

    assert_eq!(
        build_day_records(daily(&[]), "archive").err().unwrap(),
        "Weather API returned no daily records for that date range."
    );
    assert_eq!(
        build_day_records(daily(&["2024-05-01", "bad", "worse"]), "archive").err().unwrap(),
        "Invalid date 'bad'. Use YYYY-MM-DD."
    );
}

#[test]
fn responses_become_payloads() {
    let response = OpenMeteoResponse {
        timezone: None,
        current: Some(OpenMeteoCurrent {
            temperature_2m: Some(21.5),
            apparent_temperature: None,
            weather_code: Some(2),
        }),
        daily: Some(daily(&["2024-05-01"])),
    };
    let payload = payload_from_response(EndpointKind::Forecast, response).unwrap();
    assert_eq!(payload.timezone, "unknown");
    assert_eq!(payload.current_temperature_c, Some(21.5));
    assert_eq!(payload.current_weather_code, Some(2));
    assert_eq!(payload.days[0].source, "forecast");

    let empty: OpenMeteoResponse<f64> = OpenMeteoResponse { timezone: None, current: None, daily: None };
    assert_eq!(
        payload_from_response(EndpointKind::Archive, empty).err().unwrap(),
        "Weather API did not return daily fields."
    );
    assert_eq!(EndpointKind::Archive.url(), "https://archive-api.open-meteo.com/v1/archive");
    assert!(EndpointKind::Forecast.requests_current());
    assert!(!EndpointKind::Archive.requests_current());
}

#[test]
fn fetch_plans_follow_today() {
    let today = date(2024, 3, 1);
    match plan_fetch(&date(2024, 2, 1), &date(2024, 2, 10), &today).unwrap() {
        FetchPlan::Single { kind, start, end } => {
            assert_eq!(kind, EndpointKind::Archive);
            assert_eq!(ymd(&start), (2024, 2, 1));
            assert_eq!(ymd(&end), (2024, 2, 10));
        }
        FetchPlan::Split { .. } => panic!("expected one endpoint"),
    }
    match plan_fetch(&date(2024, 3, 1), &date(2024, 3, 5), &today).unwrap() {
        FetchPlan::Single { kind, .. } => assert_eq!(kind, EndpointKind::Forecast),
        FetchPlan::Split { .. } => panic!("expected one endpoint"),
    }
    match plan_fetch(&date(2024, 2, 20), &date(2024, 3, 5), &today).unwrap() {
        FetchPlan::Split { archive_start, archive_end, forecast_start, forecast_end } => {
            assert_eq!(ymd(&archive_start), (2024, 2, 20));
            assert_eq!(ymd(&archive_end), (2024, 2, 29));
            assert_eq!(ymd(&forecast_start), (2024, 3, 1));
            assert_eq!(ymd(&forecast_end), (2024, 3, 5));
        }
        FetchPlan::Single { .. } => panic!("expected a split"),
    }
}

#[test]
fn merging_keeps_one_record_per_date_in_order() {
    let records = vec![
        day("2024-05-03", None, "archive", 3.0),
        day("2024-05-01", None, "archive", 1.0),
        day("2024-05-03", None, "forecast", 30.0),
        day("2024-05-02", None, "forecast", 2.0),
    ];
    let merged = merge_by_date(&records);
    let dates: Vec<&str> = merged.iter().map(|d| d.day_date.as_str()).collect();
    assert_eq!(dates, vec!["2024-05-01", "2024-05-02", "2024-05-03"]);
    assert_eq!(merged[2].source, "forecast");
    assert_eq!(merged[2].temperature_max_c, Some(30.0));
}

#[test]
fn split_payloads_merge_with_forecast_preferred() {
    let archive = PartialWeatherPayload {
        timezone: "UTC".to_string(),
        current_temperature_c: None,
        current_apparent_temperature_c: None,
        current_weather_code: None,
        days: vec![day("2024-02-28", None, "archive", 1.0), day("2024-02-29", None, "archive", 2.0)],
    };
    let forecast = PartialWeatherPayload {
        timezone: String::new(),
        current_temperature_c: Some(5.0),
        current_apparent_temperature_c: Some(4.0),
        current_weather_code: Some(3),
        days: vec![day("2024-02-29", None, "forecast", 20.0), day("2024-03-01", None, "forecast", 3.0)],
    };
    let merged = merge_split_payloads(archive, forecast);
    assert_eq!(merged.timezone, "UTC");
    assert_eq!(merged.current_weather_code, Some(3));
    assert_eq!(merged.days.len(), 3);
    assert_eq!(merged.days[1].source, "forecast");
    assert_eq!(merged.days[1].temperature_max_c, Some(20.0));
}

#[test]
fn query_results_are_assembled() {
    let payload = PartialWeatherPayload {
        timezone: "America/Phoenix".to_string(),
        current_temperature_c: Some(30.0),
        current_apparent_temperature_c: Some(29.0),
        current_weather_code: Some(95),
        days: vec![],
    };
    let r = build_query_result(
        "stamp".to_string(),
        None,
        None,
        1.5,
        2.5,
        &date(2024, 1, 2),
        &date(2024, 1, 9),
        payload,
    );
    assert_eq!(r.start_date, "2024-01-02");
    assert_eq!(r.end_date, "2024-01-09");
    assert_eq!(r.current_weather_description.as_deref(), Some("Thunderstorm"));
    assert_eq!(r.latitude, 1.5);
}

fn place(name: &str, admin1: Option<&str>, country: Option<&str>, lat: f64) -> GeocodingResult<f64> {
    GeocodingResult {
        name: name.to_string(),
        admin1: admin1.map(|a| a.to_string()),
        country_code: country.map(|c| c.to_string()),
        latitude: lat,
        longitude: -1.0,
        timezone: None,
    }
}

#[test]
fn geocoding_inputs_are_checked_and_trimmed() {
    assert_eq!(
        geocode_inputs("  Phoenix ", " AZ").unwrap(),
        ("Phoenix".to_string(), "AZ".to_string())
    );
    assert_eq!(geocode_inputs("  ", "AZ").err().unwrap(), "City and state are required.");
    assert_eq!(geocode_inputs("Phoenix", "").err().unwrap(), "City and state are required.");
}

#[test]
fn geocoding_prefers_state_matches() {
    let results = vec![
        place("Springfield", Some("Missouri"), Some("US"), 1.0),
        place("Springfield", Some("Illinois"), Some("US"), 2.0),
        place("Springfield", Some("Illinois"), Some("CA"), 3.0),
    ];
    let loc = select_geocoding_result(Some(results), "Springfield", "illinois").unwrap();
    assert_eq!(loc.latitude, 2.0);
    assert_eq!(loc.state, "Illinois");

    let results = vec![place("Paris", Some("Texas"), Some("US"), 4.0)];
    let loc = select_geocoding_result(Some(results), "Paris", "TN").unwrap();
    assert_eq!(loc.latitude, 4.0);

    let results = vec![place("Phoenix", None, Some("US"), 5.0)];
    let loc = select_geocoding_result(Some(results), "Phoenix", "AZ").unwrap();
    assert_eq!(loc.state, "AZ");

    let results = vec![place("Paris", Some("Ile-de-France"), Some("FR"), 6.0)];
    assert_eq!(
        select_geocoding_result(Some(results), "Paris", "TX").err().unwrap(),
        "No matching US city found for Paris, TX."
    );
    assert_eq!(
        select_geocoding_result::<f64>(None, "Paris", "TX").err().unwrap(),
        "No matching city results from geocoding API."
    );
}

fn entry_with(days: Vec<WeatherDayRecord<f64>>) -> HistoryEntry<f64> {
    HistoryEntry::from_result(&result_with(days, None))
}

#[test]
fn csv_rows_flatten_history() {
    let entries = vec![
        entry_with(vec![]),
        entry_with(vec![day("2024-05-01", Some(1), "archive", 1.0), day("2024-05-02", None, "forecast", 2.0)]),
    ];
    let rows = history_csv_rows(&entries);
    assert_eq!(rows.len(), 3);
    assert_eq!(rows[0].day_date, "");
    assert_eq!(rows[0].source, "unknown");
    assert_eq!(rows[0].day_weather_code, None);
    assert_eq!(rows[1].day_date, "2024-05-01");
    assert_eq!(rows[1].day_weather_code, Some(1));
    assert_eq!(rows[2].source, "forecast");
    assert_eq!(rows[2].city, "Phoenix");
}

#[test]
fn history_paths_and_export_names() {
    assert_eq!(history_file_path(), std::path::PathBuf::from("weather_history.json"));
    assert_eq!(export_file_name("20240501_101500"), "weather_history_export_20240501_101500.csv");
}

#[test]
fn console_builds_requests_from_the_form() {
    let mut s: ConsoleState<f64> = ConsoleState::new("2024-05-01", vec![]);
    assert_eq!(s.status_text, "Ready");
    let req = s.build_request(None, None).unwrap();
    match &req.location {
        LocationQuery::CityState { city, state } => {
            assert_eq!(city, "Phoenix");
            assert_eq!(state, "AZ");
        }
        LocationQuery::Coordinates { .. } => panic!("expected city/state"),
    }
    s.end_date_input = "2024-04-30".to_string();
    assert_eq!(s.build_request(None, None).err().unwrap(), "Start date must be on or before End date.");
    s.end_date_input = "  ".to_string();
    assert_eq!(s.build_request(None, None).err().unwrap(), "End date is required.");
    s.end_date_input = "2024-05-03".to_string();
    s.start_date_input = "".to_string();
    assert_eq!(s.build_request(None, None).err().unwrap(), "Start date is required.");
    s.start_date_input = "2024-05-01".to_string();
    s.city_input = " ".to_string();
    assert_eq!(
        s.build_request(None, None).err().unwrap(),
        "City and state are required in City/State mode."
    );
    s.input_mode = InputMode::Coordinates;
    assert_eq!(s.build_request(None, Some(1.0)).err().unwrap(), "Invalid latitude. Enter a numeric value.");
    assert_eq!(s.build_request(Some(1.0), None).err().unwrap(), "Invalid longitude. Enter a numeric value.");
    let req = s.build_request(Some(33.0), Some(-112.0)).unwrap();
    assert!(matches!(req.location, LocationQuery::Coordinates { latitude, longitude } if latitude == 33.0 && longitude == -112.0));
    s.latitude_input = "".to_string();
    assert_eq!(
        s.build_request(Some(1.0), Some(1.0)).err().unwrap(),
        "Latitude and longitude are required in coordinate mode."
    );
}

#[test]
fn console_fetch_lifecycle() {
    let mut s: ConsoleState<f64> = ConsoleState::new("2024-05-01", vec![]);
    let req = s.start_fetch(None, None);
    assert!(req.is_some());
    assert!(s.loading);
    assert_eq!(s.status_text, "Fetching weather...");
    assert!(s.start_fetch(None, None).is_none());
    s.apply_worker_success(result_with(vec![day("2024-05-01", Some(0), "forecast", 1.0)], None));
    assert!(!s.loading);
    assert_eq!(s.status_text, "Weather loaded");
    assert_eq!(s.auto_animation_mode, AnimationMode::Sunny);
    assert_eq!(s.history_entries.len(), 1);
    assert_eq!(s.effective_animation_mode(), AnimationMode::Sunny);
    s.animation_override = AnimationMode::Rain;
    assert_eq!(s.effective_animation_mode(), AnimationMode::Rain);
    s.note_history_save_failed("disk full");
    assert_eq!(s.status_text, "Weather loaded, but failed to save history: disk full");

    s.start_date_input = "nope".to_string();
    assert!(s.start_fetch(None, None).is_none());
    assert_eq!(s.status_text, "Error: Invalid date 'nope'. Use YYYY-MM-DD.");
    assert!(!s.loading);

    s.start_date_input = "2024-05-01".to_string();
    assert!(s.start_fetch(None, None).is_some());
    s.apply_worker_error("timeout");
    assert_eq!(s.status_text, "Error: timeout");
    assert!(!s.loading);

    s.status_text = "Fetching weather...".to_string();
    s.loading = true;
    s.apply_worker_disconnected();
    assert_eq!(s.status_text, "Error: worker channel disconnected");
    s.apply_worker_disconnected();
    assert_eq!(s.status_text, "Error: worker channel disconnected");
}

#[test]
fn console_buttons() {
    let mut s: ConsoleState<f64> = ConsoleState::new("2024-05-01", vec![entry_with(vec![])]);
    s.input_mode = InputMode::Coordinates;
    s.select_quick_city(quick_cities()[3]);
    assert_eq!(s.input_mode, InputMode::CityState);
    assert_eq!(s.city_input, "Chicago");
    assert_eq!(s.state_input, "IL");
    assert_eq!(s.status_text, "Quick city selected");
    s.choose_today_range("2024-06-01");
    assert_eq!(s.start_date_input, "2024-06-01");
    assert_eq!(s.end_date_input, "2024-06-01");
    assert_eq!(s.status_text, "Date range set to today");
    s.apply_export_result(Ok("out.csv".to_string()));
    assert_eq!(s.status_text, "Export complete: out.csv");
    assert_eq!(s.export_popup_message, "CSV export complete.\n\nSaved to:\nout.csv");
    assert!(s.show_export_popup);
    s.apply_export_result(Err("denied".to_string()));
    assert_eq!(s.status_text, "Error: CSV export failed: denied");
    s.apply_history_cleared(Err("locked".to_string()));
    assert_eq!(s.history_entries.len(), 1);
    assert_eq!(s.status_text, "Error: failed to clear log: locked");
    s.apply_history_cleared(Ok(()));
    assert!(s.history_entries.is_empty());
    assert_eq!(s.status_text, "Log cleared");
}

#[test]
fn location_labels() {
    let mut r = result_with(vec![], None);
    assert_eq!(location_label(&r), "Phoenix, Arizona");
    r.state = None;
    assert_eq!(location_label(&r), "Manual coordinates");
}
