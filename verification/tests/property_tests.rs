use wxfetch::clouds::{clouds_from_str, Clouds};
use wxfetch::config::{Config, ConfigOverrides, Position};
use wxfetch::metar::{colourise_clouds, colourise_visibility, get_wind_var, Metar, WxField};
use wxfetch::report::ReportValue;
use wxfetch::span::TextColor;
use wxfetch::time::parse_instant;
use wxfetch::units::SpeedUnit;
use wxfetch::wxcodes::{wxcode_from_str, WxCode, WxCodeDescription, WxCodeIntensity,
    WxCodeProximity};

fn dirs_tree(values: &[i64]) -> ReportValue {
    let items: Vec<ReportValue> = values
        .iter()
        .map(|v| ReportValue::Object(vec![("value".to_string(), ReportValue::Int(*v))]))
        .collect();
    ReportValue::Object(vec![(
        "wind_variable_direction".to_string(),
        ReportValue::List(items),
    )])
}

#[test]
fn test_wind_var_permutation_invariant() {
    let expected = WxField::WindVariability {
        low_dir: 80,
        hi_dir: 150,
    };
    let one = get_wind_var(&dirs_tree(&[150, 80]));
    let other = get_wind_var(&dirs_tree(&[80, 150]));
    assert_eq!(one, Some(expected));
    assert_eq!(one, other);
}

#[test]
fn test_cloud_height_colour_monotonic() {
    let config = Config::default();
    let severities = |color: Option<TextColor>| match color {
        Some(TextColor::Red) => 2,
        Some(TextColor::Yellow) => 1,
        _ => 0,
    };
    let mut last = 2;
    for height in 0..30 {
        let spans = colourise_clouds(&Clouds::Few, height, &config);
        let rank = severities(spans[1].fg);
        assert!(rank <= last, "severity must not worsen as height grows");
        last = rank;
    }
    assert_eq!(severities(colourise_clouds(&Clouds::Few, 6, &config)[1].fg), 2);
    assert_eq!(severities(colourise_clouds(&Clouds::Few, 7, &config)[1].fg), 1);
    assert_eq!(severities(colourise_clouds(&Clouds::Few, 15, &config)[1].fg), 1);
    assert_eq!(severities(colourise_clouds(&Clouds::Few, 16, &config)[1].fg), 0);
}

#[test]
fn test_wx_token_roundtrip_samples() {
    let cases: Vec<(&str, WxField)> = vec![
        (
            "-RA",
            WxField::WxCode(
                WxCode::Ra,
                WxCodeIntensity::Light,
                WxCodeProximity::OnStation,
                WxCodeDescription::NoDescriptor,
            ),
        ),
        (
            "+TSGR",
            WxField::WxCode(
                WxCode::Gr,
                WxCodeIntensity::Heavy,
                WxCodeProximity::OnStation,
                WxCodeDescription::Ts,
            ),
        ),
        (
            "SHRAVC",
            WxField::WxCode(
                WxCode::Ra,
                WxCodeIntensity::Moderate,
                WxCodeProximity::Vicinity,
                WxCodeDescription::Sh,
            ),
        ),
        (
            "FZFGDSNT",
            WxField::WxCode(
                WxCode::Fg,
                WxCodeIntensity::Moderate,
                WxCodeProximity::Distant,
                WxCodeDescription::Fz,
            ),
        ),
    ];
    for (token, expected) in cases {
        assert_eq!(wxcode_from_str(token), Some(expected), "token {}", token);
    }
}

#[test]
fn test_wx_token_unknown_code_yields_no_field() {
    assert_eq!(wxcode_from_str("XX"), None);
    assert_eq!(wxcode_from_str("+TSXY"), None);
    assert_eq!(wxcode_from_str(""), None);
}

#[test]
fn test_cloud_token_unknown_coverage_yields_no_field() {
    assert_eq!(clouds_from_str("XYZ123"), None);
    assert_eq!(clouds_from_str(""), None);
}

#[test]
fn test_parse_instant_known_epoch() {
    let t = parse_instant("2024-06-21T05:50:00Z").unwrap();
    assert_eq!(t.epoch_sec, 1718949000);
    assert_eq!(t.day, 21);
    assert_eq!(t.hour, 5);
    assert_eq!(t.minute, 50);
}

#[test]
fn test_parse_instant_offset_changes_day() {
    let t = parse_instant("2024-06-21T01:30:00+05:00").unwrap();
    assert_eq!(t.epoch_sec, 1718915400);
    assert_eq!(t.day, 20);
    assert_eq!(t.hour, 20);
    assert_eq!(t.minute, 30);
}

#[test]
fn test_parse_instant_fraction_ignored() {
    let with_fraction = parse_instant("2024-06-21T05:50:00.123Z").unwrap();
    let without = parse_instant("2024-06-21T05:50:00Z").unwrap();
    assert_eq!(with_fraction, without);
}

#[test]
fn test_parse_instant_rejects_malformed() {
    assert!(parse_instant("2024-06-21").is_none());
    assert!(parse_instant("2024-13-21T05:50:00Z").is_none());
    assert!(parse_instant("2024-02-30T05:50:00Z").is_none());
    assert!(parse_instant("2024-06-21T24:00:00Z").is_none());
    assert!(parse_instant("2024-06-21T05:50:00").is_none());
    assert!(parse_instant("2024-06-21T05:50:00+25:00").is_none());
}

#[test]
fn test_parse_instant_leap_day() {
    let t = parse_instant("2024-02-29T00:00:00Z").unwrap();
    assert_eq!(t.epoch_sec, 1709164800);
    assert!(parse_instant("2023-02-29T00:00:00Z").is_none());
}

#[test]
fn test_config_default_values() {
    let config = Config::default();
    assert_eq!(config.position, Position::GeoIP);
    assert_eq!(config.cloud_minimum, 6);
    assert_eq!(config.cloud_marginal, 15);
    assert_eq!(config.temp_minimum, 0);
    assert_eq!(config.spread_minimum, 3);
    assert_eq!(config.wind_var_maximum, 45);
    assert_eq!(config.wind_maximum, 15);
    assert_eq!(config.gust_maximum, 10);
    assert_eq!(config.age_maximum, 21600);
    assert_eq!(config.age_marginal, 3600);
    assert_eq!(config.visibility_minimum, 1500);
    assert_eq!(config.visibility_marginal, 5000);
    assert!(config.show_change_times);
}

#[test]
fn test_config_with_overrides() {
    let overrides = ConfigOverrides {
        position: Some(Position::Airfield("EDDK".to_string())),
        visibility_minimum: Some(2000),
        ..Default::default()
    };
    let config = Config::with_overrides(&overrides);
    assert_eq!(config.position, Position::Airfield("EDDK".to_string()));
    assert_eq!(config.visibility_minimum, 2000);
    assert_eq!(config.visibility_marginal, 5000);
    assert_eq!(config.cloud_minimum, 6);
}

fn conv(v: &serde_json::Value) -> ReportValue {
    match v {
        serde_json::Value::Null => ReportValue::Null,
        serde_json::Value::Bool(b) => ReportValue::Bool(*b),
        serde_json::Value::Number(n) => {
            if let Some(i) = n.as_i64() {
                ReportValue::Int(i)
            } else {
                ReportValue::Frac((n.as_f64().unwrap() * 1_000_000.0).round() as i64)
            }
        }
        serde_json::Value::String(s) => ReportValue::Text(s.clone()),
        serde_json::Value::Array(items) => ReportValue::List(items.iter().map(conv).collect()),
        serde_json::Value::Object(entries) => {
            ReportValue::Object(entries.iter().map(|(k, v)| (k.clone(), conv(v))).collect())
        }
    }
}

#[test]
fn test_end_to_end_station_and_time() {
    let json = conv(
        &serde_json::from_str::<serde_json::Value>(
            "{\"station\":\"EDRK\",\"time\":{\"dt\":\"2024-06-21T05:50:00Z\"}}",
        )
        .unwrap(),
    );
    let config = Config::default();
    let metar = Metar::from_json(&json, &config).unwrap();
    assert_eq!(metar.icao_code, "EDRK");
    let expected = parse_instant("2024-06-21T05:50:00Z").unwrap();
    assert_eq!(metar.fields, vec![WxField::TimeStamp(expected)]);
}

#[test]
fn test_end_to_end_wind_without_gusts() {
    let json = conv(
        &serde_json::from_str::<serde_json::Value>(
            "{\"station\":\"EDRK\",\"wind_direction\":{\"value\":100},\"wind_speed\":{\"value\":10}}",
        )
        .unwrap(),
    );
    let config = Config::default();
    let metar = Metar::from_json(&json, &config).unwrap();
    assert_eq!(
        metar.fields,
        vec![WxField::Wind { direction: 100, strength: 10, gusts: 0, unit: SpeedUnit::Kt }]
    );
}

#[test]
fn test_wind_rendering_exact_text() {
    let config = Config::default();
    let field = WxField::Wind { direction: 100, strength: 10, gusts: 15, unit: SpeedUnit::Kt };
    let spans = field.colourise(&config);
    let text: String = spans.iter().map(|s| s.text.clone()).collect();
    assert_eq!(text, "10010G15KT");
    let calm = WxField::Wind { direction: 0, strength: 5, gusts: 0, unit: SpeedUnit::Kt };
    let calm_text: String =
        calm.colourise(&config).iter().map(|s| s.text.clone()).collect();
    assert_eq!(calm_text, "00005KT");
}

#[test]
fn test_visibility_rendering_zero_padded() {
    let config = Config::default();
    let spans = colourise_visibility(800, &config);
    assert_eq!(spans[0].text, "0800");
    assert_eq!(spans[0].fg, Some(TextColor::Red));
}
