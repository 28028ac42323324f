use wxfetch::clouds::{clouds_from_str, get_clouds_from_json, Clouds};
use wxfetch::metar::WxField;
use wxfetch::report::ReportValue;

fn conv(v: &serde_json::Value) -> ReportValue {
    match v {
        serde_json::Value::Null => ReportValue::Null,
        serde_json::Value::Bool(b) => ReportValue::Bool(*b),
        serde_json::Value::Number(n) => {
            if let Some(i) = n.as_i64() {
                ReportValue::Int(i)
            } else {
                ReportValue::Frac((n.as_f64().unwrap() * 1_000_000.0).round() as i64)
            }
        }
        serde_json::Value::String(s) => ReportValue::Text(s.clone()),
        serde_json::Value::Array(items) => ReportValue::List(items.iter().map(conv).collect()),
        serde_json::Value::Object(entries) => {
            ReportValue::Object(entries.iter().map(|(k, v)| (k.clone(), conv(v))).collect())
        }
    }
}

fn tree(text: &str) -> ReportValue {
    conv(&serde_json::from_str::<serde_json::Value>(text).unwrap())
}

#[test]
fn clouds_test_get_regex() {
    let expected: &str = "SKC|FEW|SCT|BRK|OVC";
    let actual = Clouds::get_regex();
    assert_eq!(expected, actual);
}

#[test]
fn test_clouds_from_str() {
    let expected = WxField::Clouds(Clouds::Skc, 0);
    let actual = clouds_from_str("SKC");
    assert_eq!(Some(expected), actual);
}

#[test]
fn test_clouds_from_str_sct() {
    let expected = WxField::Clouds(Clouds::Sct, 50);
    let actual = clouds_from_str("SCT50");
    assert_eq!(Some(expected), actual);
}

#[test]
fn test_clouds_from_str_err() {
    let actual = clouds_from_str("OCC33");
    assert!(actual.is_none());
}

#[test]
fn test_from_str_err() {
    let s = "CLS9999";
    assert!(Clouds::from_str(s).is_err());
}

#[test]
fn test_get_clouds() {
    let json = tree(
        "{\"clouds\":[{\"repr\": \"SCT050\"},{\"repr\": \"BRK100\"},{\"repr\": \"OVC200\"}]}",
    );
    let expected: Vec<WxField> = vec![
        WxField::Clouds(Clouds::Sct, 50),
        WxField::Clouds(Clouds::Brk, 100),
        WxField::Clouds(Clouds::Ovc, 200),
    ];
    let actual = get_clouds_from_json(&json);
    assert_eq!(expected, actual);
}

#[test]
fn test_clouds_from_str_case_insensitive_parse() {
    assert_eq!(Clouds::from_str("skc"), Ok(Clouds::Skc));
    assert_eq!(Clouds::from_str("Ovc"), Ok(Clouds::Ovc));
}

#[test]
fn test_clouds_display_roundtrip_all() {
    for k in Clouds::variants() {
        let text = k.to_canonical_string();
        let decoded = clouds_from_str(text.as_str());
        assert_eq!(decoded, Some(WxField::Clouds(k, 0)));
    }
}

#[test]
fn test_clouds_from_str_huge_level_is_zero() {
    let actual = clouds_from_str("SCT99999999999999999999");
    assert_eq!(actual, Some(WxField::Clouds(Clouds::Sct, 0)));
}
