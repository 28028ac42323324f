//! Current-conditions reports. A report arrives as a value tree; decoding
//! extracts an ordered sequence of typed weather fields, each optional on
//! its own, and the renderer maps every field to severity-coloured text
//! fragments driven by the threshold configuration.

use vstd::prelude::*;

use crate::clouds::{get_clouds_from_json, spec_clouds_from_json, Clouds};
use crate::config::{Config, PositionModel, Position};
use crate::report::{spec_as_int, spec_as_text, spec_get, spec_get2, spec_int_at, spec_text_at,
    ReportValue};
use crate::span::{models, Span, SpanModel, TextColor};
use crate::text::{dec_int, dec_int_pad, eq_ignore_ascii_case, push_dec_i64, push_dec_i64_pad,
    str_eq_ignore_case, string_from_chars};
use crate::time::{spec_instant_epoch, spec_instant_of_epoch, Instant};
use crate::units::{spec_units_from, PressureUnit, SpeedUnit, TemperatureUnit, Units};
use crate::wxcodes::{get_wxcodes_from_json, spec_wxcodes_from_json, WxCode, WxCodeDescription,
    WxCodeIntensity, WxCodeProximity};

verus! {

/// One decoded element of a weather report.
#[derive(Debug, PartialEq, Eq)]
pub enum WxField {
    /// Issue time.
    TimeStamp(Instant),
    /// Prevailing winds.
    Wind { direction: i64, strength: i64, gusts: i64, unit: SpeedUnit },
    /// Provided if the wind direction is changing.
    WindVariability { low_dir: i64, hi_dir: i64 },
    /// Visibility.
    Visibility(i64),
    /// Temperature and dewpoint.
    Temperature { temp: i64, dewpoint: i64, unit: TemperatureUnit },
    /// Altimeter setting.
    Qnh(i64, PressureUnit),
    /// An observed cloud layer, its height in flight levels.
    Clouds(Clouds, i64),
    /// A prevailing weather phenomenon.
    WxCode(WxCode, WxCodeIntensity, WxCodeProximity, WxCodeDescription),
    /// Free-text remarks.
    Remarks(String),
}

/// A report was issued by the requested station exactly when the requested
/// position is that airfield, compared case-insensitively; a report for a
/// coordinate or network-derived position has no requested station and
/// always counts as exact.
pub open spec fn spec_is_exact_match(station: Seq<char>, pos: PositionModel) -> bool {
    match pos {
        PositionModel::Airfield(icao) => eq_ignore_ascii_case(station, icao),
        _ => true,
    }
}

/// Whether the decoded station is the one the configuration asked for.
pub fn is_exact_match(station: &str, config: &Config) -> (r: bool)
    ensures
        r == spec_is_exact_match(station@, config.position@),
{
    match &config.position {
        Position::Airfield(icao) => str_eq_ignore_case(station, icao.as_str()),
        _ => true,
    }
}

/// The remarks field of a report: its free `remarks` text, unchanged.
pub open spec fn spec_remarks(json: ReportValue) -> Option<Seq<char>> {
    match spec_get(json, "remarks"@) {
        Option::Some(node) => spec_as_text(node),
        Option::None => Option::None,
    }
}

/// Extract the remarks field, absent when the report has none.
pub fn get_remarks(json: &ReportValue) -> (r: Option<WxField>)
    ensures
        (match r {
            Option::Some(f) => f matches WxField::Remarks(t) && spec_remarks(*json) == Option::Some(
                t@,
            ),
            Option::None => spec_remarks(*json) is None,
        }),
{
    match json.get("remarks") {
        Option::Some(node) => match node.as_text() {
            Option::Some(t) => Option::Some(WxField::Remarks(t.clone())),
            Option::None => Option::None,
        },
        Option::None => Option::None,
    }
}

/// The timestamp field of a report: the instant its `time.dt` text denotes.
pub open spec fn spec_timestamp(json: ReportValue) -> Option<Instant> {
    match spec_text_at(json, "time"@, "dt"@) {
        Option::Some(t) => match spec_instant_epoch(t) {
            Option::Some(e) => Option::Some(spec_instant_of_epoch(e)),
            Option::None => Option::None,
        },
        Option::None => Option::None,
    }
}

/// Extract the issue time, absent when the report has none or its text does
/// not decode.
pub fn get_timestamp(json: &ReportValue) -> (r: Option<WxField>)
    ensures
        (match spec_timestamp(*json) {
            Option::Some(t) => r == Option::Some(WxField::TimeStamp(t)),
            Option::None => r is None,
        }),
{
    match json.text_at("time", "dt") {
        Option::Some(t) => match crate::time::parse_instant(t.as_str()) {
            Option::Some(inst) => Option::Some(WxField::TimeStamp(inst)),
            Option::None => Option::None,
        },
        Option::None => Option::None,
    }
}

/// A fractional altimeter value in millionths, scaled to hundredths and
/// rounded to the nearest whole, halves away from zero.
pub open spec fn spec_round_micros_to_hundredths(m: int) -> int {
    if m >= 0 {
        (m + 5000) / 10000
    } else {
        -((-m + 5000) / 10000)
    }
}

/// The altimeter field of a report: a whole `altimeter.value` unchanged, a
/// fractional one normalised to hundredths, tagged with the resolved
/// pressure unit.
pub open spec fn spec_qnh(json: ReportValue, units: Units) -> Option<(int, PressureUnit)> {
    match spec_get2(json, "altimeter"@, "value"@) {
        Option::Some(node) => match node {
            ReportValue::Int(v) => Option::Some((v as int, units.pressure)),
            ReportValue::Frac(m) => Option::Some(
                (spec_round_micros_to_hundredths(m as int), units.pressure),
            ),
            _ => Option::None,
        },
        Option::None => Option::None,
    }
}

/// Extract the altimeter setting, normalising a fractional value (inches
/// reported as a decimal) into the same whole-number domain as hectopascals.
pub fn get_qnh(json: &ReportValue, units: Units) -> (r: Option<WxField>)
    ensures
        (match spec_qnh(*json, units) {
            Option::Some(qu) => r == Option::Some(WxField::Qnh(qu.0 as i64, qu.1)),
            Option::None => r is None,
        }),
{
    match json.get("altimeter") {
        Option::Some(alt) => match alt.get("value") {
            Option::Some(node) => match node {
                ReportValue::Int(v) => Option::Some(WxField::Qnh(*v, units.pressure)),
                ReportValue::Frac(m) => {
                    let mm = *m;
                    let rounded: i64 = if mm >= 0 {
                        (((mm as i128) + 5000) / 10000) as i64
                    } else {
                        (-(((-(mm as i128)) + 5000) / 10000)) as i64
                    };
                    Option::Some(WxField::Qnh(rounded, units.pressure))
                },
                _ => Option::None,
            },
            Option::None => Option::None,
        },
        Option::None => Option::None,
    }
}

/// The temperature field of a report: `temperature.value` and
/// `dewpoint.value`, both required, tagged with the resolved unit.
pub open spec fn spec_temp(json: ReportValue, units: Units) -> Option<(i64, i64)> {
    match spec_int_at(json, "temperature"@, "value"@) {
        Option::Some(t) => match spec_int_at(json, "dewpoint"@, "value"@) {
            Option::Some(d) => Option::Some((t, d)),
            Option::None => Option::None,
        },
        Option::None => Option::None,
    }
}

/// Extract temperature and dewpoint, absent unless both are present.
pub fn get_temp(json: &ReportValue, units: Units) -> (r: Option<WxField>)
    ensures
        (match spec_temp(*json, units) {
            Option::Some(td) => r == Option::Some(
                WxField::Temperature { temp: td.0, dewpoint: td.1, unit: units.temperature },
            ),
            Option::None => r is None,
        }),
{
    match json.int_at("temperature", "value") {
        Option::Some(temp) => match json.int_at("dewpoint", "value") {
            Option::Some(dewpoint) => Option::Some(
                WxField::Temperature { temp, dewpoint, unit: units.temperature },
            ),
            Option::None => Option::None,
        },
        Option::None => Option::None,
    }
}

/// The wind field of a report: direction and speed required, gusts zero
/// when absent, tagged with the resolved speed unit.
pub open spec fn spec_winds(json: ReportValue, units: Units) -> Option<(i64, i64, i64)> {
    match spec_int_at(json, "wind_direction"@, "value"@) {
        Option::Some(direction) => match spec_int_at(json, "wind_speed"@, "value"@) {
            Option::Some(strength) => {
                let gusts = (match spec_int_at(json, "wind_gust"@, "value"@) {
                    Option::Some(g) => g,
                    Option::None => 0,
                });
                Option::Some((direction, strength, gusts))
            },
            Option::None => Option::None,
        },
        Option::None => Option::None,
    }
}

/// Extract the wind field; gusts default to zero when not reported.
pub fn get_winds(json: &ReportValue, units: Units) -> (r: Option<WxField>)
    ensures
        (match spec_winds(*json, units) {
            Option::Some(w) => r == Option::Some(
                WxField::Wind {
                    direction: w.0,
                    strength: w.1,
                    gusts: w.2,
                    unit: units.wind_speed,
                },
            ),
            Option::None => r is None,
        }),
{
    match json.int_at("wind_direction", "value") {
        Option::Some(direction) => match json.int_at("wind_speed", "value") {
            Option::Some(strength) => {
                let gusts = (match json.int_at("wind_gust", "value") {
                    Option::Some(g) => g,
                    Option::None => 0,
                });
                Option::Some(
                    WxField::Wind { direction, strength, gusts, unit: units.wind_speed },
                )
            },
            Option::None => Option::None,
        },
        Option::None => Option::None,
    }
}

/// The visibility field of a report: its whole `visibility.value`.
pub open spec fn spec_visibility(json: ReportValue) -> Option<i64> {
    spec_int_at(json, "visibility"@, "value"@)
}

/// Extract the visibility field.
pub fn get_visibility(json: &ReportValue, _units: Units) -> (r: Option<WxField>)
    ensures
        (match spec_visibility(*json) {
            Option::Some(vis) => r == Option::Some(WxField::Visibility(vis)),
            Option::None => r is None,
        }),
{
    match json.int_at("visibility", "value") {
        Option::Some(vis) => Option::Some(WxField::Visibility(vis)),
        Option::None => Option::None,
    }
}

/// The `value` entries of the variable-direction list, all required to be
/// whole numbers for the field to exist.
pub open spec fn spec_wind_var_values(items: Seq<ReportValue>) -> Option<Seq<i64>>
    decreases items.len(),
{
    if items.len() == 0 {
        Option::Some(Seq::empty())
    } else {
        match spec_wind_var_values(items.drop_last()) {
            Option::Some(vals) => match spec_get(items.last(), "value"@) {
                Option::Some(node) => match spec_as_int(node) {
                    Option::Some(v) => Option::Some(vals.push(v)),
                    Option::None => Option::None,
                },
                Option::None => Option::None,
            },
            Option::None => Option::None,
        }
    }
}

/// The least element of a non-empty sequence.
pub open spec fn seq_min(s: Seq<i64>) -> i64
    recommends
        s.len() > 0,
    decreases s.len(),
{
    if s.len() <= 1 {
        s[0]
    } else {
        let m = seq_min(s.drop_last());
        if s.last() < m {
            s.last()
        } else {
            m
        }
    }
}

/// The greatest element of a non-empty sequence.
pub open spec fn seq_max(s: Seq<i64>) -> i64
    recommends
        s.len() > 0,
    decreases s.len(),
{
    if s.len() <= 1 {
        s[0]
    } else {
        let m = seq_max(s.drop_last());
        if s.last() > m {
            s.last()
        } else {
            m
        }
    }
}

/// The wind-variability field of a report: the least and greatest of the
/// reported variable directions, absent when the list is missing, empty or
/// holds anything but whole numbers.
pub open spec fn spec_wind_var(json: ReportValue) -> Option<(i64, i64)> {
    match spec_get(json, "wind_variable_direction"@) {
        Option::Some(node) => match node {
            ReportValue::List(items) => match spec_wind_var_values(items@) {
                Option::Some(vals) => if vals.len() == 0 {
                    Option::None
                } else {
                    Option::Some((seq_min(vals), seq_max(vals)))
                },
                Option::None => Option::None,
            },
            _ => Option::None,
        },
        Option::None => Option::None,
    }
}

/// Extract the wind-variability field: the reported directions are ordered,
/// and the least and greatest kept.
pub fn get_wind_var(json: &ReportValue) -> (r: Option<WxField>)
    ensures
        (match spec_wind_var(*json) {
            Option::Some(lh) => r == Option::Some(
                WxField::WindVariability { low_dir: lh.0, hi_dir: lh.1 },
            ),
            Option::None => r is None,
        }),
{
    let items = (match json.get("wind_variable_direction") {
        Option::Some(node) => match node.as_list() {
            Option::Some(items) => items,
            Option::None => {
                return Option::None;
            },
        },
        Option::None => {
            return Option::None;
        },
    });
    match wind_var_min_max(items) {
        Option::Some(lh) => Option::Some(
            WxField::WindVariability { low_dir: lh.0, hi_dir: lh.1 },
        ),
        Option::None => Option::None,
    }
}

/// The least and greatest of the `value` entries, absent when the list is
/// empty or any entry is not a whole number.
fn wind_var_min_max(items: &Vec<ReportValue>) -> (r: Option<(i64, i64)>)
    ensures
        (match spec_wind_var_values(items@) {
            Option::Some(vals) => r == (if vals.len() == 0 {
                Option::<(i64, i64)>::None
            } else {
                Option::Some((seq_min(vals), seq_max(vals)))
            }),
            Option::None => r is None,
        }),
{
    let n = items.len();
    if n == 0 {
        proof {
            assert(items@.take(0) =~= items@);
        }
        return Option::None;
    }
    let mut low: i64 = 0;
    let mut hi: i64 = 0;
    let mut i: usize = 0;
    while i < n
        invariant
            i <= n,
            n == items@.len(),
            (match spec_wind_var_values(items@.take(i as int)) {
                Option::Some(vals) => vals.len() == i && (i > 0 ==> low == seq_min(vals) && hi
                    == seq_max(vals)),
                Option::None => false,
            }),
        decreases n - i,
    {
        let v = (match items[i].get("value") {
            Option::Some(node) => match node.as_int() {
                Option::Some(v) => v,
                Option::None => {
                    proof {
                        lemma_wind_var_values_fail(items@, i as int);
                    }
                    return Option::None;
                },
            },
            Option::None => {
                proof {
                    lemma_wind_var_values_fail(items@, i as int);
                }
                return Option::None;
            },
        });
        if i == 0 {
            low = v;
            hi = v;
        } else {
            if v < low {
                low = v;
            }
            if v > hi {
                hi = v;
            }
        }
        i = i + 1;
        proof {
            assert(items@.take(i as int).drop_last() =~= items@.take(i as int - 1));
            assert(items@.take(i as int).last() == items@[i - 1]);
            let vals = spec_wind_var_values(items@.take(i as int));
            assert(vals is Some);
            if i > 1 {
                assert(vals.unwrap().drop_last()
                    == spec_wind_var_values(items@.take(i as int - 1)).unwrap());
            }
        }
    }
    proof {
        assert(items@.take(n as int) =~= items@);
    }
    Option::Some((low, hi))
}

/// When the values of a prefix all parse but the next entry does not, the
/// whole list does not.
proof fn lemma_wind_var_values_fail(items: Seq<ReportValue>, i: int)
    requires
        0 <= i < items.len(),
        spec_wind_var_values(items.take(i)) is Some,
        (match spec_get(items[i], "value"@) {
            Option::Some(node) => spec_as_int(node) is None,
            Option::None => true,
        }),
    ensures
        spec_wind_var_values(items.take(items.len() as int)) is None,
        spec_wind_var_values(items) is None,
    decreases items.len() - i,
{
    lemma_wind_var_prefix_fail(items, i + 1, items.len() as int);
    assert(items.take(i + 1).drop_last() =~= items.take(i));
    assert(items.take(i + 1).last() == items[i]);
    assert(items.take(items.len() as int) =~= items);
}

/// A failing prefix makes every longer prefix fail.
proof fn lemma_wind_var_prefix_fail(items: Seq<ReportValue>, i: int, j: int)
    requires
        0 < i <= j <= items.len(),
        spec_wind_var_values(items.take(i)) is None || spec_wind_var_values(items.take(i)) is Some,
    ensures
        spec_wind_var_values(items.take(i)) is None ==> spec_wind_var_values(items.take(j))
            is None,
    decreases j - i,
{
    if i < j {
        lemma_wind_var_prefix_fail(items, i + 1, j);
        assert(items.take(i + 1).drop_last() =~= items.take(i));
    }
}

/// The decoded station of a report: the text under its `station` key, and
/// nothing — a failed decode — when the key is absent or holds anything
/// but text.
pub open spec fn spec_metar_station(json: ReportValue) -> Option<Seq<char>> {
    match spec_get(json, "station"@) {
        Option::Some(node) => spec_as_text(node),
        Option::None => Option::None,
    }
}

/// A sequence of no fields or one.
pub open spec fn opt_field(o: Option<WxField>) -> Seq<WxField> {
    match o {
        Option::Some(f) => seq![f],
        Option::None => Seq::empty(),
    }
}

/// The timestamp field, if the report has a decodable issue time.
pub open spec fn spec_timestamp_field(json: ReportValue) -> Option<WxField> {
    match spec_timestamp(json) {
        Option::Some(t) => Option::Some(WxField::TimeStamp(t)),
        Option::None => Option::None,
    }
}

/// The wind field, if present.
pub open spec fn spec_wind_field(json: ReportValue, units: Units) -> Option<WxField> {
    match spec_winds(json, units) {
        Option::Some(w) => Option::Some(
            WxField::Wind { direction: w.0, strength: w.1, gusts: w.2, unit: units.wind_speed },
        ),
        Option::None => Option::None,
    }
}

/// The wind-variability field, if present.
pub open spec fn spec_wind_var_field(json: ReportValue) -> Option<WxField> {
    match spec_wind_var(json) {
        Option::Some(lh) => Option::Some(WxField::WindVariability { low_dir: lh.0, hi_dir: lh.1 }),
        Option::None => Option::None,
    }
}

/// The visibility field, if present.
pub open spec fn spec_visibility_field(json: ReportValue) -> Option<WxField> {
    match spec_visibility(json) {
        Option::Some(vis) => Option::Some(WxField::Visibility(vis)),
        Option::None => Option::None,
    }
}

/// The temperature field, if present.
pub open spec fn spec_temp_field(json: ReportValue, units: Units) -> Option<WxField> {
    match spec_temp(json, units) {
        Option::Some(td) => Option::Some(
            WxField::Temperature { temp: td.0, dewpoint: td.1, unit: units.temperature },
        ),
        Option::None => Option::None,
    }
}

/// The altimeter field, if present.
pub open spec fn spec_qnh_field(json: ReportValue, units: Units) -> Option<WxField> {
    match spec_qnh(json, units) {
        Option::Some(qu) => Option::Some(WxField::Qnh(qu.0 as i64, qu.1)),
        Option::None => Option::None,
    }
}

/// The ordered field sequence a report decodes to: timestamp, wind,
/// wind variability, visibility, temperature, altimeter, then every
/// phenomenon and every cloud layer, each present only where its sub-tree
/// decodes. The remarks field, which carries owned text, closes the
/// sequence and is stated separately.
pub open spec fn spec_metar_fields(json: ReportValue) -> Seq<WxField> {
    let units = spec_units_from(json);
    opt_field(spec_timestamp_field(json)) + opt_field(spec_wind_field(json, units)) + opt_field(
        spec_wind_var_field(json),
    ) + opt_field(spec_visibility_field(json)) + opt_field(spec_temp_field(json, units))
        + opt_field(spec_qnh_field(json, units)) + spec_wxcodes_from_json(json)
        + spec_clouds_from_json(json)
}

/// A decoded current-conditions report.
#[derive(Debug)]
pub struct Metar {
    /// Code of the issuing station.
    pub icao_code: String,
    /// The decoded fields, in report order.
    pub fields: Vec<WxField>,
    /// Whether the exact requested station issued this report.
    pub exact_match: bool,
}

impl Metar {
    /// Decode a report: the station name, the ordered fields, and whether
    /// the station is the requested one. A report whose `station` key is
    /// absent, or holds anything but text, fails to decode as a whole.
    #[verifier::rlimit(80)]
    pub fn from_json(json: &ReportValue, config: &Config) -> (r: Option<Metar>)
        ensures
            (match spec_metar_station(*json) {
                Option::Some(station) => r matches Option::Some(m) && {
                    &&& m.icao_code@ == station
                    &&& m.exact_match == spec_is_exact_match(station, config.position@)
                    &&& (match spec_remarks(*json) {
                        Option::Some(text) => {
                            &&& m.fields@.len() == spec_metar_fields(*json).len() + 1
                            &&& m.fields@.take(spec_metar_fields(*json).len() as int)
                                == spec_metar_fields(*json)
                            &&& m.fields@.last() matches WxField::Remarks(t) && t@ == text
                        },
                        Option::None => m.fields@ == spec_metar_fields(*json),
                    })
                },
                Option::None => r is None,
            }),
    {
        let station: String = (match json.get("station") {
            Option::Some(node) => match node.as_text() {
                Option::Some(t) => t.clone(),
                Option::None => {
                    return Option::None;
                },
            },
            Option::None => {
                return Option::None;
            },
        });
        let units = Units::from_json(json);
        let mut fields: Vec<WxField> = Vec::new();
        if let Option::Some(time) = get_timestamp(json) {
            fields.push(time);
        }
        proof {
            assert(fields@ =~= opt_field(spec_timestamp_field(*json)));
        }
        if let Option::Some(wind) = get_winds(json, units) {
            fields.push(wind);
        }
        proof {
            assert(fields@ =~= opt_field(spec_timestamp_field(*json)) + opt_field(
                spec_wind_field(*json, units),
            ));
        }
        if let Option::Some(wind_var) = get_wind_var(json) {
            fields.push(wind_var);
        }
        proof {
            assert(fields@ =~= opt_field(spec_timestamp_field(*json)) + opt_field(
                spec_wind_field(*json, units),
            ) + opt_field(spec_wind_var_field(*json)));
        }
        if let Option::Some(vis) = get_visibility(json, units) {
            fields.push(vis);
        }
        proof {
            assert(fields@ =~= opt_field(spec_timestamp_field(*json)) + opt_field(
                spec_wind_field(*json, units),
            ) + opt_field(spec_wind_var_field(*json)) + opt_field(spec_visibility_field(*json)));
        }
        if let Option::Some(temp) = get_temp(json, units) {
            fields.push(temp);
        }
        if let Option::Some(qnh) = get_qnh(json, units) {
            fields.push(qnh);
        }
        proof {
            assert(fields@ =~= opt_field(spec_timestamp_field(*json)) + opt_field(
                spec_wind_field(*json, units),
            ) + opt_field(spec_wind_var_field(*json)) + opt_field(spec_visibility_field(*json))
                + opt_field(spec_temp_field(*json, units)) + opt_field(
                spec_qnh_field(*json, units),
            ));
        }
        let mut wxcodes = get_wxcodes_from_json(json);
        fields.append(&mut wxcodes);
        let mut clouds = get_clouds_from_json(json);
        fields.append(&mut clouds);
        proof {
            assert(fields@ =~= spec_metar_fields(*json));
        }
        if let Option::Some(rmks) = get_remarks(json) {
            fields.push(rmks);
            proof {
                assert(fields@.take(spec_metar_fields(*json).len() as int) =~= spec_metar_fields(
                    *json,
                ));
            }
        }
        let exact_match = is_exact_match(station.as_str(), config);
        Option::Some(Metar { icao_code: station, fields, exact_match })
    }
}

/// An uncoloured span model over the given text.
pub open spec fn plain_span(text: Seq<char>) -> SpanModel {
    SpanModel { text, fg: None, bg: None }
}

/// A foreground-coloured span model over the given text.
pub open spec fn fg_span(text: Seq<char>, color: TextColor) -> SpanModel {
    SpanModel { text, fg: Some(color), bg: None }
}

/// The severity colour of a visibility: good at or above the marginal
/// threshold, marginal strictly above the minimum, bad otherwise.
pub open spec fn spec_visibility_color(vis: i64, c: Config) -> TextColor {
    if vis >= c.visibility_marginal {
        TextColor::Green
    } else if vis > c.visibility_minimum {
        TextColor::Yellow
    } else {
        TextColor::Red
    }
}

/// The rendered visibility: four digits, severity-coloured.
pub open spec fn spec_visibility_spans(vis: i64, c: Config) -> Seq<SpanModel> {
    seq![fg_span(dec_int_pad(vis as int, 4), spec_visibility_color(vis, c))]
}

/// Render a visibility value.
pub fn colourise_visibility(vis: i64, config: &Config) -> (r: Vec<Span>)
    ensures
        models(r@) == spec_visibility_spans(vis, *config),
{
    let mut chars: Vec<char> = Vec::new();
    push_dec_i64_pad(&mut chars, vis, 4);
    let text = string_from_chars(&chars);
    let color = if vis >= config.visibility_marginal {
        TextColor::Green
    } else if vis > config.visibility_minimum {
        TextColor::Yellow
    } else {
        TextColor::Red
    };
    let mut out: Vec<Span> = Vec::new();
    out.push(Span::new(text, Some(color), None));
    proof {
        assert(models(out@) =~= spec_visibility_spans(vis, *config));
    }
    out
}

/// The age colour of an issue time: good under the marginal age, marginal
/// under the maximum age, bad from there on.
pub open spec fn spec_age_color(t: Instant, now: int, c: Config) -> TextColor {
    let dt = now - t.epoch_sec;
    if dt < c.age_marginal {
        TextColor::Green
    } else if dt < c.age_maximum {
        TextColor::Yellow
    } else {
        TextColor::Red
    }
}

/// The rendered issue time: day, hour and minute, two digits each, a `Z`
/// suffix, age-coloured against the time of rendering.
pub open spec fn spec_timestamp_spans(t: Instant, now: int, c: Config) -> Seq<SpanModel> {
    seq![
        fg_span(
            dec_int_pad(t.day as int, 2) + dec_int_pad(t.hour as int, 2) + dec_int_pad(
                t.minute as int,
                2,
            ) + seq!['Z'],
            spec_age_color(t, now, c),
        ),
    ]
}

/// Render an issue time against an explicit rendering time.
pub fn colourize_timestamp_at(t: &Instant, now: i64, config: &Config) -> (r: Vec<Span>)
    ensures
        models(r@) == spec_timestamp_spans(*t, now as int, *config),
{
    let mut chars: Vec<char> = Vec::new();
    push_dec_i64_pad(&mut chars, t.day as i64, 2);
    push_dec_i64_pad(&mut chars, t.hour as i64, 2);
    push_dec_i64_pad(&mut chars, t.minute as i64, 2);
    chars.push('Z');
    proof {
        assert(chars@ =~= dec_int_pad(t.day as int, 2) + dec_int_pad(t.hour as int, 2)
            + dec_int_pad(t.minute as int, 2) + seq!['Z']);
    }
    let text = string_from_chars(&chars);
    let dt: i128 = now as i128 - t.epoch_sec as i128;
    let color = if dt < config.age_marginal as i128 {
        TextColor::Green
    } else if dt < config.age_maximum as i128 {
        TextColor::Yellow
    } else {
        TextColor::Red
    };
    let mut out: Vec<Span> = Vec::new();
    out.push(Span::new(text, Some(color), None));
    proof {
        assert(models(out@) =~= spec_timestamp_spans(*t, now as int, *config));
    }
    out
}

/// Render an issue time, age-coloured against the clock.
pub fn colourize_timestamp(t: &Instant, config: &Config) -> (r: Vec<Span>)
    ensures
        exists|now: int| models(r@) == spec_timestamp_spans(*t, now, *config),
{
    let now = crate::time::now_epoch_seconds();
    let r = colourize_timestamp_at(t, now, config);
    proof {
        assert(models(r@) == spec_timestamp_spans(*t, now as int, *config));
    }
    r
}

/// The rendered wind: direction (three digits, uncoloured), speed (two
/// digits, bad above the wind maximum), gusts when above zero (a `G` and two
/// digits, bad when the gust margin over the speed is exceeded), and a `KT`
/// suffix.
pub open spec fn spec_wind_spans(direction: i64, strength: i64, gusts: i64, c: Config) -> Seq<
    SpanModel,
> {
    let head = seq![
        plain_span(dec_int_pad(direction as int, 3)),
        fg_span(
            dec_int_pad(strength as int, 2),
            if strength > c.wind_maximum {
                TextColor::Red
            } else {
                TextColor::Green
            },
        ),
    ];
    let with_gusts = if gusts > 0 {
        head + seq![
            plain_span(seq!['G']),
            fg_span(
                dec_int_pad(gusts as int, 2),
                if gusts - strength > c.gust_maximum {
                    TextColor::BrightRed
                } else {
                    TextColor::Green
                },
            ),
        ]
    } else {
        head
    };
    with_gusts + seq![plain_span(seq!['K', 'T'])]
}

/// Render a wind field.
pub fn colourise_wind(
    direction: i64,
    strength: i64,
    gusts: i64,
    _unit: SpeedUnit,
    config: &Config,
) -> (r: Vec<Span>)
    ensures
        models(r@) == spec_wind_spans(direction, strength, gusts, *config),
{
    let mut out: Vec<Span> = Vec::new();
    let mut dir_chars: Vec<char> = Vec::new();
    push_dec_i64_pad(&mut dir_chars, direction, 3);
    out.push(Span::new(string_from_chars(&dir_chars), None, None));
    let mut strength_chars: Vec<char> = Vec::new();
    push_dec_i64_pad(&mut strength_chars, strength, 2);
    let strength_color = if strength > config.wind_maximum {
        TextColor::Red
    } else {
        TextColor::Green
    };
    out.push(Span::new(string_from_chars(&strength_chars), Some(strength_color), None));
    if gusts > 0 {
        out.push(Span::plain("G"));
        let mut gust_chars: Vec<char> = Vec::new();
        push_dec_i64_pad(&mut gust_chars, gusts, 2);
        let gd: i128 = gusts as i128 - strength as i128;
        let gust_color = if gd > config.gust_maximum as i128 {
            TextColor::BrightRed
        } else {
            TextColor::Green
        };
        out.push(Span::new(string_from_chars(&gust_chars), Some(gust_color), None));
        proof {
            reveal_strlit("G");
            assert("G"@ =~= seq!['G']);
        }
    }
    out.push(Span::plain("KT"));
    proof {
        reveal_strlit("KT");
        assert("KT"@ =~= seq!['K', 'T']);
        assert(models(out@) =~= spec_wind_spans(direction, strength, gusts, *config));
    }
    out
}

/// The rendered wind variability: the two bounds joined by a `V`, good when
/// their spread stays under the variability maximum, marginal otherwise.
pub open spec fn spec_wind_var_spans(low_dir: i64, hi_dir: i64, c: Config) -> Seq<SpanModel> {
    seq![
        fg_span(
            dec_int(low_dir as int) + seq!['V'] + dec_int(hi_dir as int),
            if hi_dir - low_dir < c.wind_var_maximum {
                TextColor::Green
            } else {
                TextColor::Yellow
            },
        ),
    ]
}

/// Render a wind-variability field.
pub fn colourise_wind_var(low_dir: i64, hi_dir: i64, config: &Config) -> (r: Vec<Span>)
    ensures
        models(r@) == spec_wind_var_spans(low_dir, hi_dir, *config),
{
    let mut chars: Vec<char> = Vec::new();
    push_dec_i64(&mut chars, low_dir);
    chars.push('V');
    push_dec_i64(&mut chars, hi_dir);
    proof {
        assert(chars@ =~= dec_int(low_dir as int) + seq!['V'] + dec_int(hi_dir as int));
    }
    let spread: i128 = hi_dir as i128 - low_dir as i128;
    let color = if spread < config.wind_var_maximum as i128 {
        TextColor::Green
    } else {
        TextColor::Yellow
    };
    let mut out: Vec<Span> = Vec::new();
    out.push(Span::new(string_from_chars(&chars), Some(color), None));
    proof {
        assert(models(out@) =~= spec_wind_var_spans(low_dir, hi_dir, *config));
    }
    out
}

/// The rendered temperature: the temperature (good strictly above its
/// minimum), a slash, and the dewpoint (good while the spread stays above
/// the spread minimum).
pub open spec fn spec_temperature_spans(temp: i64, dewpoint: i64, c: Config) -> Seq<SpanModel> {
    seq![
        fg_span(
            dec_int(temp as int),
            if temp > c.temp_minimum {
                TextColor::BrightGreen
            } else {
                TextColor::BrightRed
            },
        ),
        plain_span(seq!['/']),
        fg_span(
            dec_int(dewpoint as int),
            if temp - dewpoint > c.spread_minimum {
                TextColor::Green
            } else {
                TextColor::Red
            },
        ),
    ]
}

/// Render a temperature field.
pub fn colourise_temperature(
    temp: i64,
    dewpoint: i64,
    _unit: TemperatureUnit,
    config: &Config,
) -> (r: Vec<Span>)
    ensures
        models(r@) == spec_temperature_spans(temp, dewpoint, *config),
{
    let mut out: Vec<Span> = Vec::new();
    let mut temp_chars: Vec<char> = Vec::new();
    push_dec_i64(&mut temp_chars, temp);
    let temp_color = if temp > config.temp_minimum {
        TextColor::BrightGreen
    } else {
        TextColor::BrightRed
    };
    out.push(Span::new(string_from_chars(&temp_chars), Some(temp_color), None));
    out.push(Span::plain("/"));
    let mut dew_chars: Vec<char> = Vec::new();
    push_dec_i64(&mut dew_chars, dewpoint);
    let spread: i128 = temp as i128 - dewpoint as i128;
    let dew_color = if spread > config.spread_minimum as i128 {
        TextColor::Green
    } else {
        TextColor::Red
    };
    out.push(Span::new(string_from_chars(&dew_chars), Some(dew_color), None));
    proof {
        reveal_strlit("/");
        assert("/"@ =~= seq!['/']);
        assert(models(out@) =~= spec_temperature_spans(temp, dewpoint, *config));
    }
    out
}

/// A pressure value divided by one hundred, truncated towards zero.
pub open spec fn spec_trunc_div_100(q: int) -> int {
    if q >= 0 {
        q / 100
    } else {
        -((-q) / 100)
    }
}

/// The rendered altimeter setting: `Q` and the whole hectopascals, or `A`
/// and the hundredths of inches scaled down; good at or above the standard
/// atmosphere, marginal below it — no bad tier.
pub open spec fn spec_qnh_spans(qnh: i64, unit: PressureUnit, c: Config) -> Seq<SpanModel> {
    match unit {
        PressureUnit::Hpa => seq![
            fg_span(
                seq!['Q'] + dec_int(qnh as int),
                if qnh >= 1013 {
                    TextColor::Green
                } else {
                    TextColor::Yellow
                },
            ),
        ],
        PressureUnit::Inhg => seq![
            fg_span(
                seq!['A'] + dec_int(spec_trunc_div_100(qnh as int)),
                if qnh >= 2992 {
                    TextColor::Green
                } else {
                    TextColor::Yellow
                },
            ),
        ],
    }
}

/// Render an altimeter setting.
pub fn colourise_qnh(qnh: i64, unit: PressureUnit, config: &Config) -> (r: Vec<Span>)
    ensures
        models(r@) == spec_qnh_spans(qnh, unit, *config),
{
    let mut out: Vec<Span> = Vec::new();
    match unit {
        PressureUnit::Hpa => {
            let mut chars: Vec<char> = Vec::new();
            chars.push('Q');
            push_dec_i64(&mut chars, qnh);
            proof {
                assert(chars@ =~= seq!['Q'] + dec_int(qnh as int));
            }
            let color = if qnh >= 1013 {
                TextColor::Green
            } else {
                TextColor::Yellow
            };
            out.push(Span::new(string_from_chars(&chars), Some(color), None));
        },
        PressureUnit::Inhg => {
            let mut chars: Vec<char> = Vec::new();
            chars.push('A');
            let scaled: i64 = if qnh >= 0 {
                qnh / 100
            } else {
                (-((-(qnh as i128)) / 100)) as i64
            };
            push_dec_i64(&mut chars, scaled);
            proof {
                assert(chars@ =~= seq!['A'] + dec_int(spec_trunc_div_100(qnh as int)));
            }
            let color = if qnh >= 2992 {
                TextColor::Green
            } else {
                TextColor::Yellow
            };
            out.push(Span::new(string_from_chars(&chars), Some(color), None));
        },
    }
    proof {
        assert(models(out@) =~= spec_qnh_spans(qnh, unit, *config));
    }
    out
}

/// The fixed colour of a phenomenon code: rain stands out, hail, snow and
/// unknown precipitation are bad, small hail marginal, dust whirls urgent,
/// everything else neutral.
pub open spec fn spec_wx_code_color(code: WxCode) -> TextColor {
    match code {
        WxCode::Ra => TextColor::BrightYellow,
        WxCode::Gr => TextColor::Red,
        WxCode::Sn => TextColor::Red,
        WxCode::Up => TextColor::Red,
        WxCode::Gs => TextColor::Yellow,
        WxCode::Po => TextColor::BrightRed,
        _ => TextColor::White,
    }
}

/// The fixed colour of an intensity: light is reassuring, heavy urgent.
pub open spec fn spec_wx_intensity_color(intensity: WxCodeIntensity) -> TextColor {
    match intensity {
        WxCodeIntensity::Light => TextColor::BrightGreen,
        WxCodeIntensity::Heavy => TextColor::BrightRed,
        WxCodeIntensity::Moderate => TextColor::White,
    }
}

/// The fixed colour of a descriptor: thunderstorms bad, freezing icy,
/// showers marginal, the rest neutral.
pub open spec fn spec_wx_descr_color(descriptor: WxCodeDescription) -> TextColor {
    match descriptor {
        WxCodeDescription::Ts => TextColor::Red,
        WxCodeDescription::Fz => TextColor::BrightBlue,
        WxCodeDescription::Sh => TextColor::Yellow,
        _ => TextColor::White,
    }
}

/// The rendered phenomenon: intensity, descriptor, code and proximity, in
/// that order, each over its canonical text with its fixed colour keying.
pub open spec fn spec_wx_code_spans(
    code: WxCode,
    intensity: WxCodeIntensity,
    proximity: WxCodeProximity,
    descriptor: WxCodeDescription,
) -> Seq<SpanModel> {
    seq![
        fg_span(intensity.canon(), spec_wx_intensity_color(intensity)),
        fg_span(descriptor.canon(), spec_wx_descr_color(descriptor)),
        fg_span(code.canon(), spec_wx_code_color(code)),
        fg_span(proximity.canon(), TextColor::White),
    ]
}

/// Render a weather phenomenon.
pub fn colourise_wx_code(
    code: &WxCode,
    intensity: &WxCodeIntensity,
    proximity: &WxCodeProximity,
    descriptor: &WxCodeDescription,
    _config: &Config,
) -> (r: Vec<Span>)
    ensures
        models(r@) == spec_wx_code_spans(*code, *intensity, *proximity, *descriptor),
{
    let mut out: Vec<Span> = Vec::new();
    let intensity_color = (match intensity {
        WxCodeIntensity::Light => TextColor::BrightGreen,
        WxCodeIntensity::Heavy => TextColor::BrightRed,
        WxCodeIntensity::Moderate => TextColor::White,
    });
    out.push(Span::new(intensity.to_canonical_string(), Some(intensity_color), None));
    let descr_color = (match descriptor {
        WxCodeDescription::Ts => TextColor::Red,
        WxCodeDescription::Fz => TextColor::BrightBlue,
        WxCodeDescription::Sh => TextColor::Yellow,
        _ => TextColor::White,
    });
    out.push(Span::new(descriptor.to_canonical_string(), Some(descr_color), None));
    let code_color = (match code {
        WxCode::Ra => TextColor::BrightYellow,
        WxCode::Gr => TextColor::Red,
        WxCode::Sn => TextColor::Red,
        WxCode::Up => TextColor::Red,
        WxCode::Gs => TextColor::Yellow,
        WxCode::Po => TextColor::BrightRed,
        _ => TextColor::White,
    });
    out.push(Span::new(code.to_canonical_string(), Some(code_color), None));
    out.push(Span::new(proximity.to_canonical_string(), Some(TextColor::White), None));
    proof {
        assert(models(out@) =~= spec_wx_code_spans(*code, *intensity, *proximity, *descriptor));
    }
    out
}

/// The severity colour of a cloud coverage: overcast bad, broken marginal,
/// the rest good.
pub open spec fn spec_cloud_cover_color(cloud: Clouds) -> TextColor {
    match cloud {
        Clouds::Ovc => TextColor::Red,
        Clouds::Brk => TextColor::Yellow,
        _ => TextColor::Green,
    }
}

/// The severity colour of a cloud height: bad at or under the minimum,
/// marginal at or under the marginal height, good above.
pub open spec fn spec_cloud_height_color(alt: i64, c: Config) -> TextColor {
    if alt <= c.cloud_minimum {
        TextColor::Red
    } else if alt <= c.cloud_marginal {
        TextColor::Yellow
    } else {
        TextColor::Green
    }
}

/// The rendered cloud layer: the coverage text tinted by its kind, the
/// height tinted by the height thresholds — the two tints combined in one
/// fragment pair.
pub open spec fn spec_clouds_spans(cloud: Clouds, alt: i64, c: Config) -> Seq<SpanModel> {
    seq![
        fg_span(cloud.canon(), spec_cloud_cover_color(cloud)),
        fg_span(dec_int(alt as int), spec_cloud_height_color(alt, c)),
    ]
}

/// Render a cloud layer.
pub fn colourise_clouds(cloud: &Clouds, alt: i64, config: &Config) -> (r: Vec<Span>)
    ensures
        models(r@) == spec_clouds_spans(*cloud, alt, *config),
{
    let mut out: Vec<Span> = Vec::new();
    let cover_color = (match cloud {
        Clouds::Ovc => TextColor::Red,
        Clouds::Brk => TextColor::Yellow,
        _ => TextColor::Green,
    });
    out.push(Span::new(cloud.to_canonical_string(), Some(cover_color), None));
    let mut alt_chars: Vec<char> = Vec::new();
    push_dec_i64(&mut alt_chars, alt);
    let height_color = if alt <= config.cloud_minimum {
        TextColor::Red
    } else if alt <= config.cloud_marginal {
        TextColor::Yellow
    } else {
        TextColor::Green
    };
    out.push(Span::new(string_from_chars(&alt_chars), Some(height_color), None));
    proof {
        assert(models(out@) =~= spec_clouds_spans(*cloud, alt, *config));
    }
    out
}

/// The rendered remarks: the text unchanged, black on white.
pub open spec fn spec_remarks_spans(text: Seq<char>) -> Seq<SpanModel> {
    seq![SpanModel { text, fg: Some(TextColor::Black), bg: Some(TextColor::White) }]
}

/// The rendered form of one field at a rendering time.
pub open spec fn spec_field_spans(field: WxField, c: Config, now: int) -> Seq<SpanModel> {
    match field {
        WxField::TimeStamp(t) => spec_timestamp_spans(t, now, c),
        WxField::Wind { direction, strength, gusts, unit } => spec_wind_spans(
            direction,
            strength,
            gusts,
            c,
        ),
        WxField::WindVariability { low_dir, hi_dir } => spec_wind_var_spans(low_dir, hi_dir, c),
        WxField::Visibility(vis) => spec_visibility_spans(vis, c),
        WxField::Temperature { temp, dewpoint, unit } => spec_temperature_spans(temp, dewpoint, c),
        WxField::Qnh(qnh, unit) => spec_qnh_spans(qnh, unit, c),
        WxField::Clouds(cloud, alt) => spec_clouds_spans(cloud, alt, c),
        WxField::WxCode(code, intensity, proximity, descriptor) => spec_wx_code_spans(
            code,
            intensity,
            proximity,
            descriptor,
        ),
        WxField::Remarks(text) => spec_remarks_spans(text@),
    }
}

impl WxField {
    /// Render one field against an explicit rendering time.
    pub fn colourise_at(&self, config: &Config, now: i64) -> (r: Vec<Span>)
        ensures
            models(r@) == spec_field_spans(*self, *config, now as int),
    {
        match self {
            WxField::Visibility(vis) => colourise_visibility(*vis, config),
            WxField::TimeStamp(datetime) => colourize_timestamp_at(datetime, now, config),
            WxField::Wind { direction, strength, gusts, unit } => colourise_wind(
                *direction,
                *strength,
                *gusts,
                *unit,
                config,
            ),
            WxField::WindVariability { low_dir, hi_dir } => colourise_wind_var(
                *low_dir,
                *hi_dir,
                config,
            ),
            WxField::Temperature { temp, dewpoint, unit } => colourise_temperature(
                *temp,
                *dewpoint,
                *unit,
                config,
            ),
            WxField::Qnh(qnh, unit) => colourise_qnh(*qnh, *unit, config),
            WxField::WxCode(code, intensity, proximity, descriptor) => colourise_wx_code(
                code,
                intensity,
                proximity,
                descriptor,
                config,
            ),
            WxField::Remarks(text) => {
                let mut out: Vec<Span> = Vec::new();
                out.push(
                    Span::new(text.clone(), Some(TextColor::Black), Some(TextColor::White)),
                );
                proof {
                    assert(models(out@) =~= spec_remarks_spans(text@));
                }
                out
            },
            WxField::Clouds(cloud, alt) => colourise_clouds(cloud, *alt, config),
        }
    }

    /// Render one field; an issue time is age-coloured against the clock.
    pub fn colourise(&self, config: &Config) -> (r: Vec<Span>)
        ensures
            exists|now: int| models(r@) == spec_field_spans(*self, *config, now),
    {
        let now = crate::time::now_epoch_seconds();
        let r = self.colourise_at(config, now);
        proof {
            assert(models(r@) == spec_field_spans(*self, *config, now as int));
        }
        r
    }
}

/// The station badge: bright white on blue for the requested station, black
/// on yellow for a substitute.
pub open spec fn spec_station_span(icao: Seq<char>, exact: bool) -> SpanModel {
    if exact {
        SpanModel { text: icao, fg: Some(TextColor::BrightWhite), bg: Some(TextColor::Blue) }
    } else {
        SpanModel { text: icao, fg: Some(TextColor::Black), bg: Some(TextColor::Yellow) }
    }
}

/// The rendered fields, each preceded by a space.
pub open spec fn spec_fields_spans(fields: Seq<WxField>, c: Config, now: int) -> Seq<SpanModel>
    decreases fields.len(),
{
    if fields.len() == 0 {
        Seq::empty()
    } else {
        spec_fields_spans(fields.drop_last(), c, now) + seq![plain_span(seq![' '])]
            + spec_field_spans(fields.last(), c, now)
    }
}

/// The rendered report: the station badge, then every field, space-joined.
pub open spec fn spec_metar_spans(m: Metar, c: Config, now: int) -> Seq<SpanModel> {
    seq![spec_station_span(m.icao_code@, m.exact_match)] + spec_fields_spans(m.fields@, c, now)
}

impl Metar {
    /// Render a whole report against an explicit rendering time.
    pub fn colorise_at(self, config: &Config, now: i64) -> (r: Vec<Span>)
        ensures
            models(r@) == spec_metar_spans(self, *config, now as int),
    {
        let mut out: Vec<Span> = Vec::new();
        if self.exact_match {
            out.push(
                Span::new(
                    self.icao_code.clone(),
                    Some(TextColor::BrightWhite),
                    Some(TextColor::Blue),
                ),
            );
        } else {
            out.push(
                Span::new(self.icao_code.clone(), Some(TextColor::Black), Some(TextColor::Yellow)),
            );
        }
        let n = self.fields.len();
        let mut i: usize = 0;
        proof {
            assert(self.fields@.take(0) =~= Seq::<WxField>::empty());
            assert(models(out@) =~= seq![spec_station_span(self.icao_code@, self.exact_match)]
                + spec_fields_spans(self.fields@.take(0), *config, now as int));
        }
        while i < n
            invariant
                i <= n,
                n == self.fields@.len(),
                models(out@) == seq![spec_station_span(self.icao_code@, self.exact_match)]
                    + spec_fields_spans(self.fields@.take(i as int), *config, now as int),
            decreases n - i,
        {
            let ghost prev0 = out@;
            out.push(Span::plain(" "));
            let ghost prev1 = out@;
            let mut spans = self.fields[i].colourise_at(config, now);
            let ghost spans_snap = spans@;
            out.append(&mut spans);
            i = i + 1;
            proof {
                reveal_strlit(" ");
                assert(" "@ =~= seq![' ']);
                assert(models(prev1) =~= models(prev0) + seq![plain_span(seq![' '])]);
                crate::span::lemma_models_concat(prev1, spans_snap);
                assert(self.fields@.take(i as int).drop_last() =~= self.fields@.take(i as int - 1));
                assert(self.fields@.take(i as int).last() == self.fields@[i - 1]);
                assert(models(out@) =~= seq![
                    spec_station_span(self.icao_code@, self.exact_match),
                ] + spec_fields_spans(self.fields@.take(i as int), *config, now as int));
            }
        }
        proof {
            assert(self.fields@.take(n as int) =~= self.fields@);
        }
        out
    }

    /// Render a whole report; the rendering time is sampled once from the
    /// clock for the whole pass.
    pub fn colorise(self, config: &Config) -> (r: Vec<Span>)
        ensures
            exists|now: int| models(r@) == spec_metar_spans(self, *config, now),
    {
        let now = crate::time::now_epoch_seconds();
        let ghost this = self;
        let r = self.colorise_at(config, now);
        proof {
            assert(models(r@) == spec_metar_spans(this, *config, now as int));
        }
        r
    }
}

} // verus!
