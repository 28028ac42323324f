use wxfetch::report::ReportValue;
use wxfetch::units::{AltitudeUnit, DistanceUnit, PressureUnit, SpeedUnit, TemperatureUnit, Units};

fn conv(v: &serde_json::Value) -> ReportValue {
    match v {
        serde_json::Value::Null => ReportValue::Null,
        serde_json::Value::Bool(b) => ReportValue::Bool(*b),
        serde_json::Value::Number(n) => {
            if let Some(i) = n.as_i64() {
                ReportValue::Int(i)
            } else {
                ReportValue::Frac((n.as_f64().unwrap() * 1_000_000.0).round() as i64)
            }
        }
        serde_json::Value::String(s) => ReportValue::Text(s.clone()),
        serde_json::Value::Array(items) => ReportValue::List(items.iter().map(conv).collect()),
        serde_json::Value::Object(entries) => {
            ReportValue::Object(entries.iter().map(|(k, v)| (k.clone(), conv(v))).collect())
        }
    }
}

fn tree(text: &str) -> ReportValue {
    conv(&serde_json::from_str::<serde_json::Value>(text).unwrap())
}

#[test]
fn test_units_from_json_empty() {
    let json = tree("{}");
    let expected = Units {
        pressure: PressureUnit::Hpa,
        altitude: AltitudeUnit::Ft,
        wind_speed: SpeedUnit::Kt,
        temperature: TemperatureUnit::C,
        distance: DistanceUnit::M,
    };
    let actual = Units::from_json(&json);
    assert_eq!(actual, expected);
}

#[test]
fn test_units_from_json_invalid() {
    let json = tree(
        "{\"units\":{\"altimeter\": \"aa\",\"altitude\":\"bb\",\"temperature\":\"cc\",\"wind_speed\": \"dd\", \"visibility\":\"ee\"}}",
    );
    let expected = Units {
        pressure: PressureUnit::Hpa,
        altitude: AltitudeUnit::Ft,
        wind_speed: SpeedUnit::Kt,
        temperature: TemperatureUnit::C,
        distance: DistanceUnit::M,
    };
    let actual = Units::from_json(&json);
    assert_eq!(actual, expected);
}

#[test]
fn test_units_from_json_us_units() {
    let json = tree(
        "{\"units\":{\"altimeter\": \"inHg\",\"altitude\":\"ft\",\"temperature\":\"F\",\"wind_speed\": \"mph\", \"visibility\":\"mi\"}}",
    );
    let expected = Units {
        pressure: PressureUnit::Inhg,
        altitude: AltitudeUnit::Ft,
        wind_speed: SpeedUnit::Mph,
        temperature: TemperatureUnit::F,
        distance: DistanceUnit::Mi,
    };
    let actual = Units::from_json(&json);
    assert_eq!(actual, expected);
}
