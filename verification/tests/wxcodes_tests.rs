use wxfetch::metar::WxField;
use wxfetch::report::ReportValue;
use wxfetch::wxcodes::{get_wxcodes_from_json, WxCode, WxCodeDescription, WxCodeIntensity,
    WxCodeProximity};

fn conv(v: &serde_json::Value) -> ReportValue {
    match v {
        serde_json::Value::Null => ReportValue::Null,
        serde_json::Value::Bool(b) => ReportValue::Bool(*b),
        serde_json::Value::Number(n) => {
            if let Some(i) = n.as_i64() {
                ReportValue::Int(i)
            } else {
                ReportValue::Frac((n.as_f64().unwrap() * 1_000_000.0).round() as i64)
            }
        }
        serde_json::Value::String(s) => ReportValue::Text(s.clone()),
        serde_json::Value::Array(items) => ReportValue::List(items.iter().map(conv).collect()),
        serde_json::Value::Object(entries) => {
            ReportValue::Object(entries.iter().map(|(k, v)| (k.clone(), conv(v))).collect())
        }
    }
}

fn tree(text: &str) -> ReportValue {
    conv(&serde_json::from_str::<serde_json::Value>(text).unwrap())
}

#[test]
fn wxcodes_test_get_regex() {
    let expected: &str = "RA|DZ|GR|GS|IC|PL|SG|SN|UP|BR|DU|FG|FU|HZ|PY|SA|VA|DS|FC|PO|SQ|SS";
    let actual = WxCode::get_regex();
    assert_eq!(expected, actual);
}

#[test]
fn test_get_wxcodes_empty() {
    let json = tree("{\"wx_codes\":[]}");
    let actual = get_wxcodes_from_json(&json);
    assert!(actual.is_empty());
}

#[test]
fn test_get_wxcodes_no_field() {
    let json = tree("{}");
    let actual = get_wxcodes_from_json(&json);
    assert!(actual.is_empty());
}

#[test]
fn test_get_wxcodes_one() {
    let expected: Vec<WxField> = vec![WxField::WxCode(
        WxCode::Ra,
        WxCodeIntensity::Light,
        WxCodeProximity::OnStation,
        WxCodeDescription::NoDescriptor,
    )];
    let json = tree("{\"wx_codes\":[{\"repr\":\"-RA\"}]}");
    let actual = get_wxcodes_from_json(&json);
    assert_eq!(expected, actual);
}

#[test]
fn test_wxcode_from_str_ra() {
    assert_eq!(WxCode::from_str("RA"), Ok(WxCode::Ra));
}

#[test]
fn test_wxcode_from_str_dz() {
    assert_eq!(WxCode::from_str("DZ"), Ok(WxCode::Dz));
}

#[test]
fn test_wxcode_from_str_gr() {
    assert_eq!(WxCode::from_str("GR"), Ok(WxCode::Gr));
}

#[test]
fn test_wxcode_from_str_gs() {
    assert_eq!(WxCode::from_str("GS"), Ok(WxCode::Gs));
}

#[test]
fn test_wxcode_from_str_ic() {
    assert_eq!(WxCode::from_str("IC"), Ok(WxCode::Ic));
}

#[test]
fn test_wxcode_from_str_pl() {
    assert_eq!(WxCode::from_str("PL"), Ok(WxCode::Pl));
}

#[test]
fn test_wxcode_from_str_sg() {
    assert_eq!(WxCode::from_str("SG"), Ok(WxCode::Sg));
}

#[test]
fn test_wxcode_from_str_sn() {
    assert_eq!(WxCode::from_str("SN"), Ok(WxCode::Sn));
}

#[test]
fn test_wxcode_from_str_up() {
    assert_eq!(WxCode::from_str("UP"), Ok(WxCode::Up));
}

#[test]
fn test_wxcode_from_str_br() {
    assert_eq!(WxCode::from_str("BR"), Ok(WxCode::Br));
}

#[test]
fn test_wxcode_from_str_du() {
    assert_eq!(WxCode::from_str("DU"), Ok(WxCode::Du));
}

#[test]
fn test_wxcode_from_str_fg() {
    assert_eq!(WxCode::from_str("FG"), Ok(WxCode::Fg));
}

#[test]
fn test_wxcode_from_str_fu() {
    assert_eq!(WxCode::from_str("FU"), Ok(WxCode::Fu));
}

#[test]
fn test_wxcode_from_str_hz() {
    assert_eq!(WxCode::from_str("HZ"), Ok(WxCode::Hz));
}

#[test]
fn test_wxcode_from_str_py() {
    assert_eq!(WxCode::from_str("PY"), Ok(WxCode::Py));
}

#[test]
fn test_wxcode_from_str_sa() {
    assert_eq!(WxCode::from_str("SA"), Ok(WxCode::Sa));
}

#[test]
fn test_wxcode_from_str_va() {
    assert_eq!(WxCode::from_str("VA"), Ok(WxCode::Va));
}

#[test]
fn test_wxcode_from_str_ds() {
    assert_eq!(WxCode::from_str("DS"), Ok(WxCode::Ds));
}

#[test]
fn test_wxcode_from_str_fc() {
    assert_eq!(WxCode::from_str("FC"), Ok(WxCode::Fc));
}

#[test]
fn test_wxcode_from_str_po() {
    assert_eq!(WxCode::from_str("PO"), Ok(WxCode::Po));
}

#[test]
fn test_wxcode_from_str_sq() {
    assert_eq!(WxCode::from_str("SQ"), Ok(WxCode::Sq));
}

#[test]
fn test_wxcode_from_str_ss() {
    assert_eq!(WxCode::from_str("SS"), Ok(WxCode::Ss));
}

#[test]
fn test_wxcode_from_str_invalid() {
    assert!(WxCode::from_str("INVALID").is_err());
}

#[test]
fn test_prox_from_str_dist() {
    assert_eq!(WxCodeProximity::from_str("DSNT"), Ok(WxCodeProximity::Distant));
}

#[test]
fn test_prox_from_str_vic() {
    assert_eq!(WxCodeProximity::from_str("VC"), Ok(WxCodeProximity::Vicinity));
}

#[test]
fn test_prox_from_str_invalid() {
    assert!(WxCodeProximity::from_str("SOMEWHEREELSE").is_err());
}

#[test]
fn test_desc_from_str_ts() {
    assert_eq!(WxCodeDescription::from_str("TS"), Ok(WxCodeDescription::Ts));
}

#[test]
fn test_desc_from_str_bc() {
    assert_eq!(WxCodeDescription::from_str("BC"), Ok(WxCodeDescription::Bc));
}

#[test]
fn test_desc_from_str_bl() {
    assert_eq!(WxCodeDescription::from_str("BL"), Ok(WxCodeDescription::Bl));
}

#[test]
fn test_desc_from_str_dr() {
    assert_eq!(WxCodeDescription::from_str("DR"), Ok(WxCodeDescription::Dr));
}

#[test]
fn test_desc_from_str_fz() {
    assert_eq!(WxCodeDescription::from_str("FZ"), Ok(WxCodeDescription::Fz));
}

#[test]
fn test_desc_from_str_mi() {
    assert_eq!(WxCodeDescription::from_str("MI"), Ok(WxCodeDescription::Mi));
}

#[test]
fn test_desc_from_str_pr() {
    assert_eq!(WxCodeDescription::from_str("PR"), Ok(WxCodeDescription::Pr));
}

#[test]
fn test_desc_from_str_sh() {
    assert_eq!(WxCodeDescription::from_str("SH"), Ok(WxCodeDescription::Sh));
}

#[test]
fn test_desc_from_str_invalid() {
    assert!(WxCodeDescription::from_str("SOME").is_err());
}

#[test]
fn test_intens_from_str_invalid() {
    assert!(WxCodeIntensity::from_str("#").is_err())
}

#[test]
fn test_intens_display_light() {
    let code = WxCodeIntensity::Light;
    let expected = "-";
    let actual = code.to_canonical_string();
    assert_eq!(expected, actual);
}

#[test]
fn test_intens_display_moderate() {
    let code = WxCodeIntensity::Moderate;
    let expected = "";
    let actual = code.to_canonical_string();
    assert_eq!(expected, actual);
}

#[test]
fn test_intens_display_heavy() {
    let code = WxCodeIntensity::Heavy;
    let expected = "+";
    let actual = code.to_canonical_string();
    assert_eq!(expected, actual);
}
