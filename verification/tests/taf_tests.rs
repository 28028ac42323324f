use wxfetch::config::Config;
use wxfetch::report::ReportValue;
use wxfetch::taf::{PeriodType, Taf};

fn conv(v: &serde_json::Value) -> ReportValue {
    match v {
        serde_json::Value::Null => ReportValue::Null,
        serde_json::Value::Bool(b) => ReportValue::Bool(*b),
        serde_json::Value::Number(n) => {
            if let Some(i) = n.as_i64() {
                ReportValue::Int(i)
            } else {
                ReportValue::Frac((n.as_f64().unwrap() * 1_000_000.0).round() as i64)
            }
        }
        serde_json::Value::String(s) => ReportValue::Text(s.clone()),
        serde_json::Value::Array(items) => ReportValue::List(items.iter().map(conv).collect()),
        serde_json::Value::Object(entries) => {
            ReportValue::Object(entries.iter().map(|(k, v)| (k.clone(), conv(v))).collect())
        }
    }
}

fn kjfk_taf_data() -> ReportValue {
    conv(
        &serde_json::from_str::<serde_json::Value>(
            "{\
             \"station\":\"KJFK\",\
             \"time\":{\"dt\":\"2024-06-21T10:00:00Z\"},\
             \"start_time\":{\"dt\":\"2024-06-21T12:00:00Z\"},\
             \"end_time\":{\"dt\":\"2024-06-22T12:00:00Z\"},\
             \"forecast\":[\
               {\"wind_direction\":{\"value\":230},\"wind_speed\":{\"value\":10},\
                \"visibility\":{\"value\":9999},\"clouds\":[{\"repr\":\"SCT050\"}]},\
               {\"type\":\"BECMG\",\
                \"start_time\":{\"dt\":\"2024-06-21T18:00:00Z\"},\
                \"end_time\":{\"dt\":\"2024-06-21T20:00:00Z\"},\
                \"wind_direction\":{\"value\":180},\"wind_speed\":{\"value\":15}}\
             ]}",
        )
        .unwrap(),
    )
}

fn eddf_taf_prob_data() -> ReportValue {
    conv(
        &serde_json::from_str::<serde_json::Value>(
            "{\
             \"station\":\"EDDF\",\
             \"time\":{\"dt\":\"2024-06-21T10:00:00Z\"},\
             \"start_time\":{\"dt\":\"2024-06-21T12:00:00Z\"},\
             \"end_time\":{\"dt\":\"2024-06-22T12:00:00Z\"},\
             \"forecast\":[\
               {\"wind_direction\":{\"value\":230},\"wind_speed\":{\"value\":8},\
                \"visibility\":{\"value\":9999}},\
               {\"type\":\"PROB\",\"probability\":{\"value\":30},\
                \"start_time\":{\"dt\":\"2024-06-21T18:00:00Z\"},\
                \"end_time\":{\"dt\":\"2024-06-21T22:00:00Z\"},\
                \"visibility\":{\"value\":2000}}\
             ]}",
        )
        .unwrap(),
    )
}

fn spans_text(spans: &[wxfetch::span::Span]) -> String {
    spans.iter().map(|s| s.text.clone()).collect()
}

#[test]
fn test_taf_from_json_basic() {
    let value = kjfk_taf_data();
    let config = Config::default();
    let taf = Taf::from_json(&value, &config);

    assert!(taf.is_some());
    assert_eq!(taf.unwrap().icao_code, "KJFK");
}

#[test]
fn test_forecast_period_parsing() {
    let value = kjfk_taf_data();
    let config = Config::default();
    let taf = Taf::from_json(&value, &config);

    assert!(taf.is_some());
    let taf = taf.unwrap();
    assert_eq!(taf.forecast_periods.len(), 2);
    assert_eq!(taf.forecast_periods[1].period_type, PeriodType::Becoming);
}

#[test]
fn test_taf_colorization() {
    let value = kjfk_taf_data();
    let config = Config::default();
    let taf = Taf::from_json(&value, &config);

    assert!(taf.is_some());
    let taf = taf.unwrap();
    let colored = taf.colourise(&config);

    assert!(spans_text(&colored).contains("KJFK"));
}

#[test]
fn test_taf_format_structure() {
    let value = kjfk_taf_data();
    let config = Config::default();
    let taf = Taf::from_json(&value, &config);

    assert!(taf.is_some());
    let taf = taf.unwrap();
    let colored = taf.colourise(&config);
    let output = spans_text(&colored);

    println!("TAF Output:\n{}", output);

    assert!(
        output.starts_with("TAF "),
        "TAF should start with 'TAF ' header, but got: '{}'",
        output
    );
    assert!(output.contains("KJFK"), "Should contain station identifier");
    assert!(output.contains("21"), "Should contain validity period");
    assert!(output.contains("BECMG"), "Should contain change group indicator");

    let taf_pos = output.find("TAF").expect("TAF header not found");
    let kjfk_pos = output.find("KJFK").expect("KJFK not found");
    assert!(taf_pos < kjfk_pos, "TAF header should come before station identifier");
}

#[test]
fn test_taf_prob_group() {
    let value = eddf_taf_prob_data();
    let config = Config::default();
    let taf = Taf::from_json(&value, &config);

    assert!(taf.is_some());
    let taf = taf.unwrap();
    let colored = taf.colourise(&config);
    let output = spans_text(&colored);

    assert!(output.starts_with("TAF "), "TAF should start with 'TAF ' header");
    assert!(output.contains("EDDF"), "Should contain station identifier");
    assert!(output.contains("PROB30"), "Should contain probability indicator");
    assert!(output.contains("2118/2122"), "Should contain time period for PROB group");

    println!("TAF PROB Output:\n{}", output);
}

#[test]
fn test_taf_missing_validity_fails() {
    let value = conv(
        &serde_json::from_str::<serde_json::Value>(
            "{\"station\":\"KJFK\",\"time\":{\"dt\":\"2024-06-21T10:00:00Z\"},\"forecast\":[]}",
        )
        .unwrap(),
    );
    let config = Config::default();
    assert!(Taf::from_json(&value, &config).is_none());
}

#[test]
fn test_taf_missing_station_fails() {
    let value = conv(
        &serde_json::from_str::<serde_json::Value>(
            "{\"time\":{\"dt\":\"2024-06-21T10:00:00Z\"},\
              \"start_time\":{\"dt\":\"2024-06-21T12:00:00Z\"},\
              \"end_time\":{\"dt\":\"2024-06-22T12:00:00Z\"},\"forecast\":[]}",
        )
        .unwrap(),
    );
    let config = Config::default();
    assert!(Taf::from_json(&value, &config).is_none());
}

#[test]
fn test_taf_unknown_group_kind_skipped() {
    let value = conv(
        &serde_json::from_str::<serde_json::Value>(
            "{\"station\":\"KJFK\",\"time\":{\"dt\":\"2024-06-21T10:00:00Z\"},\
              \"start_time\":{\"dt\":\"2024-06-21T12:00:00Z\"},\
              \"end_time\":{\"dt\":\"2024-06-22T12:00:00Z\"},\
              \"forecast\":[{\"visibility\":{\"value\":9999}},{\"type\":\"NOSUCH\"}]}",
        )
        .unwrap(),
    );
    let config = Config::default();
    let taf = Taf::from_json(&value, &config).unwrap();
    assert_eq!(taf.forecast_periods.len(), 1);
    assert_eq!(taf.forecast_periods[0].period_type, PeriodType::Initial);
}

#[test]
fn test_taf_indicator_hidden_when_disabled() {
    let value = kjfk_taf_data();
    let config = Config {
        show_change_times: false,
        ..Default::default()
    };
    let taf = Taf::from_json(&value, &config).unwrap();
    let output = spans_text(&taf.colourise(&config));
    assert!(!output.contains("BECMG"));
}
