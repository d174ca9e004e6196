use weather_view::build_upstream_url;
use weather_view::build_view_model;
use weather_view::background_image_name;
use weather_view::config_error_status;
use weather_view::data_contract_error_status;
use weather_view::format_date;
use weather_view::i32_to_string;
use weather_view::icon_for;
use weather_view::is_metric;
use weather_view::is_southern_hemisphere;
use weather_view::location_error_status;
use weather_view::month_name;
use weather_view::request_error_body;
use weather_view::request_error_status;
use weather_view::resolve_api_key;
use weather_view::resolve_units;
use weather_view::route;
use weather_view::route_content_type;
use weather_view::route_status;
use weather_view::season_for;
use weather_view::str_eq;
use weather_view::strip_quotes;
use weather_view::u32_to_string;
use weather_view::upstream_error_status;
use weather_view::weekday_full;
use weather_view::weekday_of_date;
use weather_view::weekday_of_epoch;
use weather_view::weekday_short;
use weather_view::ConfigError;
use weather_view::CurrentConditions;
use weather_view::DailyForecast;
use weather_view::DataContractError;
use weather_view::LocalDate;
use weather_view::Location;
use weather_view::LocationError;
use weather_view::RequestError;
use weather_view::RouteOutcome;
use weather_view::Season;
use weather_view::UpstreamError;
use weather_view::WeatherCondition;
use weather_view::WeatherSnapshot;

fn condition(description: &str, icon: &str) -> WeatherCondition {
    WeatherCondition { description: description.to_string(), icon: icon.to_string() }
}

fn sample_location() -> Location {
    Location {
        city: "Lisbon".to_string(),
        country: "Portugal".to_string(),
        latitude: "38.72".to_string(),
        longitude: "-9.14".to_string(),
    }
}

fn sample_snapshot() -> WeatherSnapshot {
    WeatherSnapshot {
        current: CurrentConditions {
            temp: 21,
            wind: "3.6".to_string(),
            humidity: "58".to_string(),
            weather: vec![condition("light rain\"", "10d")],
        },
        daily: vec![
            DailyForecast {
                dt: 1717372800,
                temp_day: 22,
                weather: vec![condition("clear sky", "01d")],
            },
            DailyForecast {
                dt: 1717459200,
                temp_day: 24,
                weather: vec![condition("few clouds", "02d")],
            },
            DailyForecast {
                dt: 1717545600,
                temp_day: -3,
                weather: vec![condition("snow", "13d")],
            },
            DailyForecast {
                dt: 1717632000,
                temp_day: 19,
                weather: vec![condition("thunderstorm", "11n")],
            },
        ],
        minutely: vec!["0.25".to_string(), "0".to_string()],
    }
}

// The local date of the sample render: Monday, 3 June 2024.
fn sample_date() -> LocalDate {
    LocalDate { year: 2024, month: 6, day: 3 }
}

#[test]
fn units_default_to_metric() {
    let token = resolve_units(None);
    assert_eq!(token, "metric");
    assert!(is_metric(&token));
}

#[test]
fn units_imperial_is_not_metric() {
    let token = resolve_units(Some("imperial".to_string()));
    assert_eq!(token, "imperial");
    assert!(!is_metric(&token));
}

#[test]
fn units_unrecognized_token_is_forwarded_verbatim() {
    let token = resolve_units(Some("bogus".to_string()));
    assert!(!is_metric(&token));
    assert_eq!(token, "bogus");
    let url = build_upstream_url("1.5", "2.5", "k", &token);
    assert!(url.ends_with("&units=bogus"));
}

#[test]
fn season_july_northern_is_summer() {
    assert_eq!(season_for(7, is_southern_hemisphere("45")), Season::Summer);
}

#[test]
fn season_july_southern_is_winter() {
    assert_eq!(season_for(7, is_southern_hemisphere("-45")), Season::Winter);
}

#[test]
fn season_january_northern_is_winter() {
    assert_eq!(season_for(1, is_southern_hemisphere("45")), Season::Winter);
}

#[test]
fn season_january_southern_is_summer() {
    assert_eq!(season_for(1, is_southern_hemisphere("-45")), Season::Summer);
}

#[test]
fn season_transition_months() {
    assert_eq!(season_for(3, false), Season::Spring);
    assert_eq!(season_for(5, false), Season::Spring);
    assert_eq!(season_for(9, false), Season::Autumn);
    assert_eq!(season_for(12, false), Season::Winter);
    assert_eq!(season_for(4, true), Season::Autumn);
    assert_eq!(season_for(10, true), Season::Spring);
}

#[test]
fn background_image_names_follow_season() {
    assert_eq!(background_image_name(Season::Spring), "spring.jpg");
    assert_eq!(background_image_name(Season::Summer), "summer.jpg");
    assert_eq!(background_image_name(Season::Autumn), "autumn.jpg");
    assert_eq!(background_image_name(Season::Winter), "winter.jpg");
}

#[test]
fn southern_hemisphere_follows_latitude_sign() {
    assert!(is_southern_hemisphere("-45.0"));
    assert!(!is_southern_hemisphere("45.0"));
    assert!(!is_southern_hemisphere(""));
}

#[test]
fn router_post_root_is_method_not_allowed() {
    let outcome = route("POST", "/");
    assert_eq!(outcome, RouteOutcome::MethodNotAllowed);
    assert_eq!(route_status(outcome), 405);
}

#[test]
fn router_unknown_path_is_not_found() {
    let outcome = route("GET", "/does-not-exist");
    assert_eq!(outcome, RouteOutcome::NotFound);
    assert_eq!(route_status(outcome), 404);
}

#[test]
fn router_style_css_is_ok_with_css_content_type() {
    let outcome = route("GET", "/style.css");
    assert_eq!(outcome, RouteOutcome::StyleSheet);
    assert_eq!(route_status(outcome), 200);
    assert_eq!(route_content_type(outcome), "text/css");
}

#[test]
fn router_known_paths_dispatch() {
    assert_eq!(route("GET", "/"), RouteOutcome::WeatherView);
    assert_eq!(route("GET", "/bg-image.jpg"), RouteOutcome::BackgroundImage);
    assert_eq!(route("GET", "/feather.min.js"), RouteOutcome::Script);
    assert_eq!(route_content_type(RouteOutcome::Script), "text/javascript");
    assert_eq!(route_content_type(RouteOutcome::BackgroundImage), "image/jpeg");
}

#[test]
fn icon_codes_map_to_canonical_names() {
    assert_eq!(icon_for("01d"), "sun");
    assert_eq!(icon_for("01n"), "moon");
    assert_eq!(icon_for("02d"), "cloud");
    assert_eq!(icon_for("03n"), "cloud");
    assert_eq!(icon_for("04d"), "cloud");
    assert_eq!(icon_for("09n"), "cloud-drizzle");
    assert_eq!(icon_for("10d"), "cloud-rain");
    assert_eq!(icon_for("11n"), "cloud-lightning");
    assert_eq!(icon_for("13d"), "cloud-snow");
    assert_eq!(icon_for("50d"), "wind");
    assert_eq!(icon_for("owl"), "cloud");
}

#[test]
fn weekdays_from_dates_and_epochs() {
    assert_eq!(weekday_of_date(&sample_date()), 0);
    assert_eq!(weekday_full(0), "Monday");
    assert_eq!(weekday_short(0), "Mon");
    // The epoch fell on a Thursday.
    assert_eq!(weekday_of_epoch(0), 3);
    assert_eq!(weekday_full(3), "Thursday");
    // Three days later: Sunday, 4 January 1970.
    assert_eq!(weekday_of_epoch(259200), 6);
    assert_eq!(weekday_full(6), "Sunday");
    // Saturday, 1 January 2000.
    assert_eq!(weekday_of_date(&LocalDate { year: 2000, month: 1, day: 1 }), 5);
}

#[test]
fn date_line_has_no_padding() {
    assert_eq!(format_date(&sample_date()), "3 June 2024");
    assert_eq!(format_date(&LocalDate { year: 2026, month: 10, day: 12 }), "12 October 2026");
    assert_eq!(month_name(2), "February");
}

#[test]
fn integers_format_in_decimal() {
    assert_eq!(u32_to_string(0), "0");
    assert_eq!(u32_to_string(4294967295), "4294967295");
    assert_eq!(i32_to_string(0), "0");
    assert_eq!(i32_to_string(7), "7");
    assert_eq!(i32_to_string(-12), "-12");
    assert_eq!(i32_to_string(i32::MIN), "-2147483648");
}

#[test]
fn string_equality_is_exact() {
    assert!(str_eq("metric", "metric"));
    assert!(!str_eq("metric", "metri"));
    assert!(!str_eq("metric", "Metric"));
    assert!(str_eq("", ""));
}

#[test]
fn quotes_are_stripped_from_descriptions() {
    assert_eq!(strip_quotes("light rain\""), "light rain");
    assert_eq!(strip_quotes("\"a\"b\""), "ab");
    assert_eq!(strip_quotes("clear sky"), "clear sky");
}

#[test]
fn view_model_of_a_valid_snapshot() {
    let ctx = build_view_model(&sample_snapshot(), &sample_location(), &sample_date(), "metric")
        .expect("a valid snapshot must build");
    assert_eq!(ctx.day, "Monday");
    assert_eq!(ctx.day_short, "Mon");
    assert_eq!(ctx.date, "3 June 2024");
    assert_eq!(ctx.city, "Lisbon");
    assert_eq!(ctx.temp, "21");
    assert_eq!(ctx.rain, "0.25");
    assert_eq!(ctx.wind, "3.6");
    assert_eq!(ctx.humidity, "58");
    assert_eq!(ctx.description, "light rain");
    assert_eq!(ctx.icon, "cloud-rain");
    assert!(ctx.is_metric);
}

#[test]
fn next_days_are_the_three_days_after_today() {
    let ctx = build_view_model(&sample_snapshot(), &sample_location(), &sample_date(), "metric")
        .expect("a valid snapshot must build");
    assert_eq!(ctx.next_days.len(), 3);
    // 4 June 2024 was a Tuesday; the following days a Wednesday and a Thursday.
    assert_eq!(ctx.next_days[0].day, "Tuesday");
    assert_eq!(ctx.next_days[0].temp, "24");
    assert_eq!(ctx.next_days[0].icon, "cloud");
    assert_eq!(ctx.next_days[1].day, "Wednesday");
    assert_eq!(ctx.next_days[1].temp, "-3");
    assert_eq!(ctx.next_days[1].icon, "cloud-snow");
    assert_eq!(ctx.next_days[2].day, "Thursday");
    assert_eq!(ctx.next_days[2].temp, "19");
    assert_eq!(ctx.next_days[2].icon, "cloud-lightning");
}

#[test]
fn view_model_is_not_metric_for_other_units() {
    let ctx = build_view_model(&sample_snapshot(), &sample_location(), &sample_date(), "imperial")
        .expect("a valid snapshot must build");
    assert!(!ctx.is_metric);
}

#[test]
fn builder_is_deterministic() {
    let a = build_view_model(&sample_snapshot(), &sample_location(), &sample_date(), "metric")
        .expect("a valid snapshot must build");
    let b = build_view_model(&sample_snapshot(), &sample_location(), &sample_date(), "metric")
        .expect("a valid snapshot must build");
    assert_eq!(a.day, b.day);
    assert_eq!(a.day_short, b.day_short);
    assert_eq!(a.date, b.date);
    assert_eq!(a.city, b.city);
    assert_eq!(a.temp, b.temp);
    assert_eq!(a.rain, b.rain);
    assert_eq!(a.wind, b.wind);
    assert_eq!(a.humidity, b.humidity);
    assert_eq!(a.description, b.description);
    assert_eq!(a.icon, b.icon);
    assert_eq!(a.is_metric, b.is_metric);
    assert_eq!(a.next_days.len(), b.next_days.len());
    for (x, y) in a.next_days.iter().zip(b.next_days.iter()) {
        assert_eq!(x.day, y.day);
        assert_eq!(x.temp, y.temp);
        assert_eq!(x.icon, y.icon);
    }
}

#[test]
fn too_few_daily_entries_fail_the_contract() {
    let mut snapshot = sample_snapshot();
    snapshot.daily.truncate(3);
    let err = build_view_model(&snapshot, &sample_location(), &sample_date(), "metric")
        .expect_err("three daily entries are too few");
    assert_eq!(err, DataContractError::TooFewDailyEntries);
}

#[test]
fn empty_minutely_fails_the_contract() {
    let mut snapshot = sample_snapshot();
    snapshot.minutely.clear();
    let err = build_view_model(&snapshot, &sample_location(), &sample_date(), "metric")
        .expect_err("no precipitation sample");
    assert_eq!(err, DataContractError::NoPrecipitationSamples);
}

#[test]
fn empty_current_conditions_fail_the_contract() {
    let mut snapshot = sample_snapshot();
    snapshot.current.weather.clear();
    let err = build_view_model(&snapshot, &sample_location(), &sample_date(), "metric")
        .expect_err("no current weather condition");
    assert_eq!(err, DataContractError::NoWeatherConditions);
}

#[test]
fn empty_daily_conditions_fail_the_contract() {
    let mut snapshot = sample_snapshot();
    snapshot.daily[2].weather.clear();
    let err = build_view_model(&snapshot, &sample_location(), &sample_date(), "metric")
        .expect_err("a daily entry without conditions");
    assert_eq!(err, DataContractError::NoWeatherConditions);
}

#[test]
fn upstream_url_is_built_verbatim() {
    let url = build_upstream_url("38.72", "-9.14", "k123", "metric");
    assert_eq!(
        url,
        "http://api.openweathermap.org/data/2.5/onecall?lat=38.72&lon=-9.14&appid=k123&units=metric"
    );
}

#[test]
fn api_key_lookup_results() {
    assert_eq!(resolve_api_key(Some("k".to_string())), Ok("k".to_string()));
    assert_eq!(resolve_api_key(None), Err(ConfigError::MissingApiKey));
}

#[test]
fn error_statuses_follow_the_taxonomy() {
    assert_eq!(request_error_status(RequestError::MethodNotAllowed), 405);
    assert_eq!(request_error_status(RequestError::NotFound), 404);
    assert_eq!(request_error_body(RequestError::MethodNotAllowed), "This method is not allowed");
    assert_eq!(
        request_error_body(RequestError::NotFound),
        "The page you requested could not be found"
    );
    assert_eq!(location_error_status(LocationError::Unresolved), 502);
    assert_eq!(config_error_status(ConfigError::MissingApiKey), 500);
    assert_eq!(upstream_error_status(UpstreamError::NetworkFailure), 502);
    assert_eq!(upstream_error_status(UpstreamError::NonSuccessStatus), 502);
    assert_eq!(upstream_error_status(UpstreamError::DecodeFailure), 502);
    assert_eq!(upstream_error_status(UpstreamError::Timeout), 504);
    assert_eq!(data_contract_error_status(DataContractError::TooFewDailyEntries), 500);
}
