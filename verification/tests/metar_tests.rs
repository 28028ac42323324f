use wxfetch::config::{Config, LatLong, Position};
use wxfetch::metar::{colourise_clouds, colourise_qnh, colourise_temperature, colourise_visibility,
    colourise_wind, colourise_wind_var, colourise_wx_code, colourize_timestamp, get_qnh,
    get_remarks, get_temp, get_visibility, get_wind_var, get_winds, is_exact_match, Metar,
    WxField};
use wxfetch::clouds::Clouds;
use wxfetch::report::ReportValue;
use wxfetch::span::TextColor;
use wxfetch::time::{now_epoch_seconds, parse_instant, Instant};
use wxfetch::units::{AltitudeUnit, DistanceUnit, PressureUnit, SpeedUnit, TemperatureUnit, Units};
use wxfetch::wxcodes::{WxCode, WxCodeDescription, WxCodeIntensity, WxCodeProximity};

fn conv(v: &serde_json::Value) -> ReportValue {
    match v {
        serde_json::Value::Null => ReportValue::Null,
        serde_json::Value::Bool(b) => ReportValue::Bool(*b),
        serde_json::Value::Number(n) => {
            if let Some(i) = n.as_i64() {
                ReportValue::Int(i)
            } else {
                ReportValue::Frac((n.as_f64().unwrap() * 1_000_000.0).round() as i64)
            }
        }
        serde_json::Value::String(s) => ReportValue::Text(s.clone()),
        serde_json::Value::Array(items) => ReportValue::List(items.iter().map(conv).collect()),
        serde_json::Value::Object(entries) => {
            ReportValue::Object(entries.iter().map(|(k, v)| (k.clone(), conv(v))).collect())
        }
    }
}

fn tree(text: &str) -> ReportValue {
    conv(&serde_json::from_str::<serde_json::Value>(text).unwrap())
}

#[test]
fn test_metar_from_json_icao() {
    let json = tree("{\"station\":\"EDRK\"}");
    let config = Config {
        position: Position::Airfield("EDRK".to_string()),
        ..Default::default()
    };
    let metar = Metar::from_json(&json, &config);
    assert!(metar.is_some_and(|m| m.icao_code == "EDRK"));
}

#[test]
fn test_metar_from_json_time() {
    let json = tree("{\"station\":\"EDRK\",\"time\":{\"dt\":\"2024-06-21T05:50:00Z\"}}");
    let config = Config {
        position: Position::Airfield("EDRK".to_string()),
        ..Default::default()
    };
    let expected = parse_instant("2024-06-21T05:50:00Z").unwrap();
    let metar = Metar::from_json(&json, &config);
    assert!(metar.is_some_and(|m| m.fields.contains(&WxField::TimeStamp(expected))));
}

#[test]
fn test_is_exact_match_positive() {
    let config = Config {
        position: Position::Airfield("EDDK".to_string()),
        ..Default::default()
    };
    assert!(is_exact_match("EDDK", &config));
}

#[test]
fn test_is_exact_match_negative() {
    let config = Config {
        position: Position::Airfield("EDDK".to_string()),
        ..Default::default()
    };
    assert!(!is_exact_match("EDRK", &config));
}

#[test]
fn test_is_exact_match_geoip() {
    let config = Config {
        position: Position::GeoIP,
        ..Default::default()
    };
    assert!(is_exact_match("EDRK", &config));
}

#[test]
fn test_is_exact_match_latlong() {
    let config = Config {
        position: Position::LatLong(LatLong(10_000_000, 10_000_000)),
        ..Default::default()
    };
    assert!(is_exact_match("EDRK", &config));
}

#[test]
fn test_colourise_visibility_good() {
    let config = Config::default();
    let spans = colourise_visibility(9999, &config);
    assert_eq!(spans[0].fg, Some(TextColor::Green));
}

#[test]
fn test_colourise_visibility_medium() {
    let config = Config::default();
    let spans = colourise_visibility(2000, &config);
    assert_eq!(spans[0].fg, Some(TextColor::Yellow));
}

#[test]
fn test_colourise_visibility_bad() {
    let config = Config::default();
    let spans = colourise_visibility(1000, &config);
    assert_eq!(spans[0].fg, Some(TextColor::Red));
}

#[test]
fn test_get_winds() {
    let json = tree(
        "{\"wind_direction\": {\"value\":100}, \"wind_speed\":{\"value\":10}, \"wind_gust\":{\"value\":15}}",
    );
    let expected = WxField::Wind {
        direction: 100,
        strength: 10,
        gusts: 15,
        unit: SpeedUnit::Kt,
    };
    let actual = get_winds(&json, Units::default());
    assert!(actual.is_some_and(|w| w == expected));
}

#[test]
fn test_get_winds_no_gust() {
    let json = tree("{\"wind_direction\": {\"value\":100}, \"wind_speed\":{\"value\":10}}");
    let expected = WxField::Wind {
        direction: 100,
        strength: 10,
        gusts: 0,
        unit: SpeedUnit::Kt,
    };
    let actual = get_winds(&json, Units::default());
    assert!(actual.is_some_and(|w| w == expected));
}

#[test]
fn test_get_qnh() {
    let json = tree("{\"altimeter\":{\"value\": 1013}}");
    let expected = WxField::Qnh(1013, PressureUnit::Hpa);
    let actual = get_qnh(&json, Units::default());
    assert!(actual.is_some_and(|q| q == expected));
}

#[test]
fn test_get_qnh_inhg() {
    let json = tree("{\"altimeter\":{\"value\": 29.92}}");
    let expected = WxField::Qnh(2992, PressureUnit::Inhg);
    let units = Units {
        pressure: PressureUnit::Inhg,
        altitude: AltitudeUnit::Ft,
        wind_speed: SpeedUnit::Kt,
        temperature: TemperatureUnit::C,
        distance: DistanceUnit::M,
    };
    let actual = get_qnh(&json, units);
    println!("{:?}", actual);
    assert!(actual.is_some_and(|q| q == expected));
}

#[test]
fn test_get_remarks() {
    let json = tree("{\"remarks\":\"RWY UNAVAILABLE\"}");
    let expected = "RWY UNAVAILABLE".to_string();
    let actual = get_remarks(&json);
    assert!(actual.is_some_and(|r| r == WxField::Remarks(expected)));
}

#[test]
fn test_get_temp() {
    let json = tree("{\"temperature\":{\"value\": 10}, \"dewpoint\":{\"value\": 9}}");
    let expected = WxField::Temperature {
        temp: 10,
        dewpoint: 9,
        unit: TemperatureUnit::C,
    };
    let actual = get_temp(&json, Units::default());
    assert!(actual.is_some_and(|t| t == expected));
}

#[test]
fn test_get_wind_var() {
    let json = tree("{\"wind_variable_direction\":[{\"value\" : 80},{\"value\" : 150}]}");
    let expected = WxField::WindVariability {
        low_dir: 80,
        hi_dir: 150,
    };
    let actual = get_wind_var(&json);
    assert!(actual.is_some_and(|v| v == expected));
}

#[test]
fn test_get_visibility() {
    let json = tree("{\"visibility\":{\"value\":9999}}");
    let expected = WxField::Visibility(9999);
    let actual = get_visibility(&json, Units::default());
    assert!(actual.is_some_and(|v| v == expected));
}

#[test]
fn test_colourise_vis() {
    let config = Config::default();
    let vis = WxField::Visibility(9999);
    let expected = colourise_visibility(9999, &config);
    let actual = vis.colourise(&config);
    assert_eq!(actual, expected);
}

#[test]
fn test_colourise_wind() {
    let config = Config::default();
    let wind = WxField::Wind {
        direction: 0,
        strength: 0,
        gusts: 0,
        unit: SpeedUnit::Kt,
    };
    let expected = colourise_wind(0, 0, 0, SpeedUnit::Kt, &config);
    let actual = wind.colourise(&config);
    assert_eq!(actual, expected);
}

#[test]
fn test_colourise_wind_var() {
    let config = Config::default();
    let wind = WxField::WindVariability {
        low_dir: 0,
        hi_dir: 10,
    };
    let expected = colourise_wind_var(0, 10, &config);
    let actual = wind.colourise(&config);
    assert_eq!(actual, expected);
}

#[test]
fn test_colourise_temp() {
    let config = Config::default();
    let temp = WxField::Temperature {
        temp: 20,
        dewpoint: 10,
        unit: TemperatureUnit::C,
    };
    let expected = colourise_temperature(20, 10, TemperatureUnit::C, &config);
    let actual = temp.colourise(&config);
    assert_eq!(actual, expected);
}

#[test]
fn test_colourise_qnh() {
    let config = Config::default();
    let qnh = WxField::Qnh(1013, PressureUnit::Hpa);
    let expected = colourise_qnh(1013, PressureUnit::Hpa, &config);
    let actual = qnh.colourise(&config);
    assert_eq!(actual, expected);
}

#[test]
fn test_colourise_wxcode() {
    let config = Config::default();
    let wxcode = WxField::WxCode(
        WxCode::Ra,
        WxCodeIntensity::Moderate,
        WxCodeProximity::OnStation,
        WxCodeDescription::NoDescriptor,
    );
    let expected = colourise_wx_code(
        &WxCode::Ra,
        &WxCodeIntensity::Moderate,
        &WxCodeProximity::OnStation,
        &WxCodeDescription::NoDescriptor,
        &config,
    );
    let actual = wxcode.colourise(&config);
    assert_eq!(actual, expected);
}

#[test]
fn test_colourise_rmk() {
    let config = Config::default();
    let rmk = WxField::Remarks("NONE".to_string());
    let actual = rmk.colourise(&config);
    assert_eq!(actual.len(), 1);
    assert_eq!(actual[0].text, "NONE");
    assert_eq!(actual[0].fg, Some(TextColor::Black));
    assert_eq!(actual[0].bg, Some(TextColor::White));
}

#[test]
fn test_colourise_clouds() {
    let config = Config::default();
    let clouds = WxField::Clouds(Clouds::Sct, 50);
    let expected = colourise_clouds(&Clouds::Sct, 50, &config);
    let actual = clouds.colourise(&config);
    assert_eq!(actual, expected);
}

#[test]
fn test_colourise_timestamp() {
    let config = Config::default();
    let fixed_offset = Instant {
        epoch_sec: now_epoch_seconds(),
        day: 1,
        hour: 0,
        minute: 0,
    };
    let timestamp = WxField::TimeStamp(fixed_offset);
    let expected = colourize_timestamp(&fixed_offset, &config);
    let actual = timestamp.colourise(&config);
    assert_eq!(actual, expected);
}

#[test]
fn test_colourise_clouds_marginal() {
    let config = Config::default();
    let clouds = WxField::Clouds(Clouds::Ovc, 8);
    let expected = colourise_clouds(&Clouds::Ovc, 8, &config);
    let actual = clouds.colourise(&config);
    assert_eq!(actual, expected);
}

#[test]
fn test_colourise_clouds_bad() {
    let config = Config::default();
    let clouds = WxField::Clouds(Clouds::Brk, 5);
    let expected = colourise_clouds(&Clouds::Brk, 5, &config);
    let actual = clouds.colourise(&config);
    assert_eq!(actual, expected);
}

#[test]
fn test_metar_from_json_station_not_text_fails() {
    let json = tree("{\"station\": 5}");
    let config = Config::default();
    assert!(Metar::from_json(&json, &config).is_none());
}

#[test]
fn test_metar_from_json_station_absent_fails() {
    let json = tree("{\"time\":{\"dt\":\"2024-06-21T05:50:00Z\"}}");
    let config = Config::default();
    assert!(Metar::from_json(&json, &config).is_none());
}

#[test]
fn test_metar_colorise_station_badge() {
    let json = tree("{\"station\":\"EDRK\",\"visibility\":{\"value\":9999}}");
    let config = Config {
        position: Position::Airfield("EDRK".to_string()),
        ..Default::default()
    };
    let metar = Metar::from_json(&json, &config).unwrap();
    let spans = metar.colorise(&config);
    assert_eq!(spans[0].text, "EDRK");
    assert_eq!(spans[0].fg, Some(TextColor::BrightWhite));
    assert_eq!(spans[0].bg, Some(TextColor::Blue));
    let text: String = spans.iter().map(|s| s.text.clone()).collect();
    assert_eq!(text, "EDRK 9999");
}
