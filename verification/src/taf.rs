//! Forecast reports. A forecast carries an issue time, a validity window
//! and an ordered list of forecast periods: the initial conditions first,
//! then change groups, each decoded from its own sub-tree with the same
//! field extraction as a current-conditions report. Rendering prefixes each
//! change group with its indicator when the configuration shows change
//! times.

use vstd::prelude::*;

use crate::clouds::{get_clouds_from_json, spec_clouds_from_json};
use crate::config::Config;
use crate::metar::{get_visibility, get_winds, is_exact_match, opt_field, plain_span,
    spec_field_spans, spec_is_exact_match, spec_station_span, spec_visibility_field,
    spec_wind_field, spec_age_color, WxField};
use crate::report::{spec_as_text, spec_get, spec_int_at, spec_text_at, ReportValue};
use crate::span::{models, lemma_models_concat, Span, SpanModel, TextColor};
use crate::text::{chars_eq, dec_int, dec_int_pad, push_dec_i64, push_dec_i64_pad, str_chars,
    string_from_chars};
use crate::time::{parse_instant, spec_instant_epoch, spec_instant_of_epoch, Instant};
use crate::units::{spec_units_from, Units};
use crate::wxcodes::{get_wxcodes_from_json, spec_wxcodes_from_json};

verus! {

/// The kind of a forecast period: the initial conditions, or one of the
/// change groups.
#[derive(Debug, Clone, Copy, PartialEq, Eq, Structural)]
pub enum PeriodType {
    /// The initial forecast period.
    Initial,
    /// A permanent change, from a given time on.
    Fm,
    /// A gradual change over a window.
    Becoming,
    /// A temporary fluctuation over a window.
    Temporary,
    /// A change with a given probability.
    Probability,
}

/// One forecast period or change group.
#[derive(Debug, PartialEq, Eq)]
pub struct ForecastPeriod {
    /// The kind of this period.
    pub period_type: PeriodType,
    /// When this period starts, if given.
    pub start_time: Option<Instant>,
    /// When this period ends, if given.
    pub end_time: Option<Instant>,
    /// The decoded weather fields of this period.
    pub fields: Vec<WxField>,
    /// The probability of a probability group.
    pub probability: Option<u8>,
}

/// A decoded forecast report.
#[derive(Debug)]
pub struct Taf {
    /// Code of the issuing station.
    pub icao_code: String,
    /// When the forecast was issued.
    pub issue_time: Instant,
    /// Start of the validity window.
    pub validity_start: Instant,
    /// End of the validity window.
    pub validity_end: Instant,
    /// The forecast periods, the initial conditions first.
    pub forecast_periods: Vec<ForecastPeriod>,
    /// Whether the exact requested station issued this forecast.
    pub exact_match: bool,
}

/// The instant denoted by the `dt` text under `key`, if it decodes.
pub open spec fn spec_instant_at(json: ReportValue, key: Seq<char>) -> Option<Instant> {
    match spec_text_at(json, key, "dt"@) {
        Option::Some(t) => match spec_instant_epoch(t) {
            Option::Some(e) => Option::Some(spec_instant_of_epoch(e)),
            Option::None => Option::None,
        },
        Option::None => Option::None,
    }
}

/// Decode the instant under `key`, absent when missing or malformed.
fn instant_at(json: &ReportValue, key: &str) -> (r: Option<Instant>)
    ensures
        r == spec_instant_at(*json, key@),
{
    match json.get(key) {
        Option::Some(node) => match node.get("dt") {
            Option::Some(dtnode) => match dtnode.as_text() {
                Option::Some(t) => parse_instant(t.as_str()),
                Option::None => Option::None,
            },
            Option::None => Option::None,
        },
        Option::None => Option::None,
    }
}

/// The kind a change group names: the initial kind for the first group, and
/// the exact `type` token for the rest.
pub open spec fn spec_period_type(json: ReportValue, is_initial: bool) -> Option<PeriodType> {
    if is_initial {
        Option::Some(PeriodType::Initial)
    } else {
        match spec_get(json, "type"@) {
            Option::Some(node) => match spec_as_text(node) {
                Option::Some(t) => if t == "FM"@ {
                    Option::Some(PeriodType::Fm)
                } else if t == "BECMG"@ {
                    Option::Some(PeriodType::Becoming)
                } else if t == "TEMPO"@ {
                    Option::Some(PeriodType::Temporary)
                } else if t == "PROB"@ {
                    Option::Some(PeriodType::Probability)
                } else {
                    Option::None
                },
                Option::None => Option::None,
            },
            Option::None => Option::None,
        }
    }
}

/// The probability a group names: its `probability.value`, reduced to a
/// byte, absent when missing, fractional or negative.
pub open spec fn spec_probability(json: ReportValue) -> Option<u8> {
    match spec_int_at(json, "probability"@, "value"@) {
        Option::Some(v) => if v >= 0 {
            Option::Some((v % 256) as u8)
        } else {
            Option::None
        },
        Option::None => Option::None,
    }
}

/// The fields a period's sub-tree decodes to: wind, visibility, then every
/// phenomenon and every cloud layer, under the sub-tree's own units.
pub open spec fn spec_period_fields(json: ReportValue) -> Seq<WxField> {
    let units = spec_units_from(json);
    opt_field(spec_wind_field(json, units)) + opt_field(spec_visibility_field(json))
        + spec_wxcodes_from_json(json) + spec_clouds_from_json(json)
}

/// A decoded period carries exactly what its sub-tree holds.
#[verifier::opaque]
pub open spec fn period_matches(p: ForecastPeriod, json: ReportValue, is_initial: bool) -> bool {
    &&& Option::Some(p.period_type) == spec_period_type(json, is_initial)
    &&& p.start_time == spec_instant_at(json, "start_time"@)
    &&& p.end_time == spec_instant_at(json, "end_time"@)
    &&& p.probability == spec_probability(json)
    &&& p.fields@ == spec_period_fields(json)
}

/// Decode one change group: its kind (required except for the initial
/// group), its optional window, its optional probability, and its fields.
pub fn parse_change_group(json: &ReportValue, is_initial: bool) -> (r: Option<ForecastPeriod>)
    ensures
        (match spec_period_type(*json, is_initial) {
            Option::Some(_) => r matches Option::Some(p) && period_matches(p, *json, is_initial),
            Option::None => r is None,
        }),
{
    proof {
        reveal(period_matches);
    }
    let period_type: PeriodType;
    if is_initial {
        period_type = PeriodType::Initial;
    } else {
        let t = (match json.get("type") {
            Option::Some(node) => match node.as_text() {
                Option::Some(t) => t,
                Option::None => {
                    return Option::None;
                },
            },
            Option::None => {
                return Option::None;
            },
        });
        let tv = str_chars(t.as_str());
        if chars_eq(&tv, &str_chars("FM")) {
            period_type = PeriodType::Fm;
        } else if chars_eq(&tv, &str_chars("BECMG")) {
            period_type = PeriodType::Becoming;
        } else if chars_eq(&tv, &str_chars("TEMPO")) {
            period_type = PeriodType::Temporary;
        } else if chars_eq(&tv, &str_chars("PROB")) {
            period_type = PeriodType::Probability;
        } else {
            return Option::None;
        }
    }
    let start_time = instant_at(json, "start_time");
    let end_time = instant_at(json, "end_time");
    let probability = (match json.int_at("probability", "value") {
        Option::Some(v) => if v >= 0 {
            Option::Some(((v as u64) % 256) as u8)
        } else {
            Option::None
        },
        Option::None => Option::None,
    });
    let units = Units::from_json(json);
    let mut fields: Vec<WxField> = Vec::new();
    if let Option::Some(wind) = get_winds(json, units) {
        fields.push(wind);
    }
    if let Option::Some(vis) = get_visibility(json, units) {
        fields.push(vis);
    }
    let mut wxcodes = get_wxcodes_from_json(json);
    fields.append(&mut wxcodes);
    let mut clouds = get_clouds_from_json(json);
    fields.append(&mut clouds);
    proof {
        assert(fields@ =~= spec_period_fields(*json));
    }
    Option::Some(ForecastPeriod { period_type, start_time, end_time, fields, probability })
}

/// Whether a change group decodes at all: its kind is recognised.
pub open spec fn spec_period_parses(json: ReportValue, is_initial: bool) -> bool {
    spec_period_type(json, is_initial) is Some
}

/// The decoded periods correspond, in order, to the groups of the first
/// `idx` entries that decode; the first entry is the initial group.
pub open spec fn periods_match(ps: Seq<ForecastPeriod>, arr: Seq<ReportValue>, idx: int) -> bool
    decreases idx,
{
    if idx <= 0 {
        ps.len() == 0
    } else {
        let item = arr[idx - 1];
        let is_initial = idx - 1 == 0;
        if spec_period_parses(item, is_initial) {
            &&& ps.len() > 0
            &&& period_matches(ps.last(), item, is_initial)
            &&& periods_match(ps.drop_last(), arr, idx - 1)
        } else {
            periods_match(ps, arr, idx - 1)
        }
    }
}

/// Decode a forecast's period list, in source order, skipping change groups
/// whose kind is not recognised. Fails only when the report has no
/// `forecast` key; one that is not a list yields no periods.
#[verifier::rlimit(80)]
pub fn parse_forecast_periods(json: &ReportValue) -> (r: Option<Vec<ForecastPeriod>>)
    ensures
        (match spec_get(*json, "forecast"@) {
            Option::Some(node) => r matches Option::Some(ps) && (match node {
                ReportValue::List(arr) => periods_match(ps@, arr@, arr@.len() as int),
                _ => ps@.len() == 0,
            }),
            Option::None => r is None,
        }),
{
    let node = (match json.get("forecast") {
        Option::Some(node) => node,
        Option::None => {
            return Option::None;
        },
    });
    let mut periods: Vec<ForecastPeriod> = Vec::new();
    match node.as_list() {
        Option::Some(arr) => {
            let n = arr.len();
            let mut i: usize = 0;
            while i < n
                invariant
                    i <= n,
                    n == arr@.len(),
                    periods_match(periods@, arr@, i as int),
                decreases n - i,
            {
                let is_initial = i == 0;
                let ghost before = periods@;
                match parse_change_group(&arr[i], is_initial) {
                    Option::Some(period) => {
                        periods.push(period);
                        proof {
                            assert(periods@.drop_last() =~= before);
                        }
                    },
                    Option::None => {},
                }
                i = i + 1;
            }
            Option::Some(periods)
        },
        Option::None => Option::Some(periods),
    }
}

/// The station a forecast names; a forecast without one fails to decode.
pub open spec fn spec_taf_station(json: ReportValue) -> Option<Seq<char>> {
    match spec_get(json, "station"@) {
        Option::Some(node) => spec_as_text(node),
        Option::None => Option::None,
    }
}

/// Everything a forecast requires: station, issue time, validity window and
/// the forecast key.
pub open spec fn spec_taf_parses(json: ReportValue) -> bool {
    &&& spec_taf_station(json) is Some
    &&& spec_instant_at(json, "time"@) is Some
    &&& spec_instant_at(json, "start_time"@) is Some
    &&& spec_instant_at(json, "end_time"@) is Some
    &&& spec_get(json, "forecast"@) is Some
}

impl Taf {
    /// Decode a forecast: the station, issue time and validity window are
    /// required; the period list is decoded in source order.
    pub fn from_json(json: &ReportValue, config: &Config) -> (r: Option<Taf>)
        ensures
            r is Some <==> spec_taf_parses(*json),
            (match r {
                Option::Some(t) => {
                    &&& Option::Some(t.icao_code@) == spec_taf_station(*json)
                    &&& Option::Some(t.issue_time) == spec_instant_at(*json, "time"@)
                    &&& Option::Some(t.validity_start) == spec_instant_at(*json, "start_time"@)
                    &&& Option::Some(t.validity_end) == spec_instant_at(*json, "end_time"@)
                    &&& t.exact_match == spec_is_exact_match(t.icao_code@, config.position@)
                    &&& (match spec_get(*json, "forecast"@) {
                        Option::Some(node) => (match node {
                            ReportValue::List(arr) => periods_match(
                                t.forecast_periods@,
                                arr@,
                                arr@.len() as int,
                            ),
                            _ => t.forecast_periods@.len() == 0,
                        }),
                        Option::None => false,
                    })
                },
                Option::None => true,
            }),
    {
        let station: String = (match json.get("station") {
            Option::Some(node) => match node.as_text() {
                Option::Some(t) => t.clone(),
                Option::None => {
                    return Option::None;
                },
            },
            Option::None => {
                return Option::None;
            },
        });
        let issue_time = (match instant_at(json, "time") {
            Option::Some(t) => t,
            Option::None => {
                return Option::None;
            },
        });
        let validity_start = (match instant_at(json, "start_time") {
            Option::Some(t) => t,
            Option::None => {
                return Option::None;
            },
        });
        let validity_end = (match instant_at(json, "end_time") {
            Option::Some(t) => t,
            Option::None => {
                return Option::None;
            },
        });
        let forecast_periods = (match parse_forecast_periods(json) {
            Option::Some(ps) => ps,
            Option::None => {
                return Option::None;
            },
        });
        let exact_match = is_exact_match(station.as_str(), config);
        Option::Some(
            Taf { icao_code: station, issue_time, validity_start, validity_end, forecast_periods, exact_match },
        )
    }
}

/// The indicator fragment of a change group: the group's own kind and
/// window, in its fixed colour. A probability group without a probability
/// value, and the initial period, have none.
pub open spec fn spec_indicator_spans(p: ForecastPeriod) -> Seq<SpanModel> {
    match p.period_type {
        PeriodType::Initial => Seq::empty(),
        PeriodType::Fm => match p.start_time {
            Option::Some(st) => seq![
                SpanModel {
                    text: seq!['F', 'M'] + dec_int_pad(st.day as int, 2) + dec_int_pad(
                        st.hour as int,
                        2,
                    ) + dec_int_pad(st.minute as int, 2),
                    fg: Some(TextColor::BrightYellow),
                    bg: None,
                },
            ],
            Option::None => Seq::empty(),
        },
        PeriodType::Becoming => seq![
            SpanModel {
                text: seq!['B', 'E', 'C', 'M', 'G'] + spec_window_text(p.start_time, p.end_time),
                fg: Some(TextColor::BrightMagenta),
                bg: None,
            },
        ],
        PeriodType::Temporary => seq![
            SpanModel {
                text: seq!['T', 'E', 'M', 'P', 'O'] + spec_window_text(p.start_time, p.end_time),
                fg: Some(TextColor::BrightBlue),
                bg: None,
            },
        ],
        PeriodType::Probability => match p.probability {
            Option::Some(prob) => seq![
                SpanModel {
                    text: seq!['P', 'R', 'O', 'B'] + dec_int(prob as int) + spec_window_text(
                        p.start_time,
                        p.end_time,
                    ),
                    fg: Some(TextColor::BrightRed),
                    bg: None,
                },
            ],
            Option::None => Seq::empty(),
        },
    }
}

/// The day-and-hour window suffix of an indicator: a space and
/// `ddhh/ddhh` when both bounds are given, nothing otherwise.
pub open spec fn spec_window_text(start: Option<Instant>, end: Option<Instant>) -> Seq<char> {
    match (start, end) {
        (Option::Some(st), Option::Some(en)) => seq![' '] + dec_int_pad(st.day as int, 2)
            + dec_int_pad(st.hour as int, 2) + seq!['/'] + dec_int_pad(en.day as int, 2)
            + dec_int_pad(en.hour as int, 2),
        _ => Seq::empty(),
    }
}

/// The rendered fields of a period, space-separated; `lead` says whether an
/// indicator precedes them, so that the first field too needs a space.
pub open spec fn spec_fields_joined(
    fields: Seq<WxField>,
    c: Config,
    now: int,
    lead: bool,
) -> Seq<SpanModel>
    decreases fields.len(),
{
    if fields.len() == 0 {
        Seq::empty()
    } else {
        spec_fields_joined(fields.drop_last(), c, now, lead) + (if lead || fields.len() > 1 {
            seq![plain_span(seq![' '])]
        } else {
            Seq::empty()
        }) + spec_field_spans(fields.last(), c, now)
    }
}

/// The rendered period: its indicator, when change indicators are shown,
/// followed by its fields.
pub open spec fn spec_period_spans(
    p: ForecastPeriod,
    c: Config,
    now: int,
    show_change_indicator: bool,
) -> Seq<SpanModel> {
    let ind = (if show_change_indicator && c.show_change_times {
        spec_indicator_spans(p)
    } else {
        Seq::empty()
    });
    ind + spec_fields_joined(p.fields@, c, now, ind.len() > 0)
}

/// Append the two-digit day-and-hour window to an indicator text.
fn push_window_text(out: &mut Vec<char>, start: &Option<Instant>, end: &Option<Instant>)
    ensures
        final(out)@ == old(out)@ + spec_window_text(*start, *end),
{
    match (start, end) {
        (Option::Some(st), Option::Some(en)) => {
            out.push(' ');
            push_dec_i64_pad(out, st.day as i64, 2);
            push_dec_i64_pad(out, st.hour as i64, 2);
            out.push('/');
            push_dec_i64_pad(out, en.day as i64, 2);
            push_dec_i64_pad(out, en.hour as i64, 2);
            proof {
                assert(final(out)@ =~= old(out)@ + spec_window_text(*start, *end));
            }
        },
        _ => {
            proof {
                assert(final(out)@ =~= old(out)@ + spec_window_text(*start, *end));
            }
        },
    }
}

/// Render one forecast period against an explicit rendering time.
pub fn colourise_forecast_period(
    period: &ForecastPeriod,
    config: &Config,
    show_change_indicator: bool,
    now: i64,
) -> (r: Vec<Span>)
    ensures
        models(r@) == spec_period_spans(*period, *config, now as int, show_change_indicator),
{
    let mut out: Vec<Span> = Vec::new();
    if show_change_indicator && config.show_change_times {
        match period.period_type {
            PeriodType::Initial => {},
            PeriodType::Fm => {
                if let Option::Some(st) = &period.start_time {
                    let mut chars: Vec<char> = Vec::new();
                    chars.push('F');
                    chars.push('M');
                    push_dec_i64_pad(&mut chars, st.day as i64, 2);
                    push_dec_i64_pad(&mut chars, st.hour as i64, 2);
                    push_dec_i64_pad(&mut chars, st.minute as i64, 2);
                    proof {
                        assert(chars@ =~= seq!['F', 'M'] + dec_int_pad(st.day as int, 2)
                            + dec_int_pad(st.hour as int, 2) + dec_int_pad(st.minute as int, 2));
                    }
                    out.push(
                        Span::new(
                            string_from_chars(&chars),
                            Some(TextColor::BrightYellow),
                            None,
                        ),
                    );
                }
            },
            PeriodType::Becoming => {
                let mut chars: Vec<char> = Vec::new();
                chars.push('B');
                chars.push('E');
                chars.push('C');
                chars.push('M');
                chars.push('G');
                proof {
                    assert(chars@ =~= seq!['B', 'E', 'C', 'M', 'G']);
                }
                push_window_text(&mut chars, &period.start_time, &period.end_time);
                out.push(
                    Span::new(string_from_chars(&chars), Some(TextColor::BrightMagenta), None),
                );
            },
            PeriodType::Temporary => {
                let mut chars: Vec<char> = Vec::new();
                chars.push('T');
                chars.push('E');
                chars.push('M');
                chars.push('P');
                chars.push('O');
                proof {
                    assert(chars@ =~= seq!['T', 'E', 'M', 'P', 'O']);
                }
                push_window_text(&mut chars, &period.start_time, &period.end_time);
                out.push(
                    Span::new(string_from_chars(&chars), Some(TextColor::BrightBlue), None),
                );
            },
            PeriodType::Probability => {
                if let Option::Some(prob) = period.probability {
                    let mut chars: Vec<char> = Vec::new();
                    chars.push('P');
                    chars.push('R');
                    chars.push('O');
                    chars.push('B');
                    proof {
                        assert(chars@ =~= seq!['P', 'R', 'O', 'B']);
                    }
                    push_dec_i64(&mut chars, prob as i64);
                    push_window_text(&mut chars, &period.start_time, &period.end_time);
                    out.push(
                        Span::new(string_from_chars(&chars), Some(TextColor::BrightRed), None),
                    );
                }
            },
        }
    }
    let ghost ind = models(out@);
    proof {
        assert(ind =~= spec_period_spans(*period, *config, now as int, show_change_indicator)
            .take(ind.len() as int));
        assert(spec_period_spans(*period, *config, now as int, show_change_indicator) =~= ind
            + spec_fields_joined(period.fields@, *config, now as int, ind.len() > 0));
    }
    let has_ind = out.len() > 0;
    let n = period.fields.len();
    let mut i: usize = 0;
    proof {
        assert(period.fields@.take(0) =~= Seq::<WxField>::empty());
        assert(models(out@) =~= ind + spec_fields_joined(
            period.fields@.take(0),
            *config,
            now as int,
            has_ind,
        ));
    }
    while i < n
        invariant
            i <= n,
            n == period.fields@.len(),
            has_ind == (ind.len() > 0),
            ind == spec_period_spans(*period, *config, now as int, show_change_indicator).take(
                ind.len() as int,
            ),
            spec_period_spans(*period, *config, now as int, show_change_indicator) == ind
                + spec_fields_joined(period.fields@, *config, now as int, has_ind),
            models(out@) == ind + spec_fields_joined(
                period.fields@.take(i as int),
                *config,
                now as int,
                has_ind,
            ),
        decreases n - i,
    {
        let ghost prev0 = out@;
        if i > 0 || has_ind {
            out.push(Span::plain(" "));
        }
        let ghost prev1 = out@;
        let mut spans = period.fields[i].colourise_at(config, now);
        let ghost spans_snap = spans@;
        out.append(&mut spans);
        i = i + 1;
        proof {
            reveal_strlit(" ");
            assert(" "@ =~= seq![' ']);
            if i > 1 || has_ind {
                assert(models(prev1) =~= models(prev0) + seq![plain_span(seq![' '])]);
            } else {
                assert(models(prev1) =~= models(prev0));
            }
            lemma_models_concat(prev1, spans_snap);
            assert(period.fields@.take(i as int).drop_last() =~= period.fields@.take(i as int - 1));
            assert(period.fields@.take(i as int).last() == period.fields@[i - 1]);
            assert(models(out@) =~= ind + spec_fields_joined(
                period.fields@.take(i as int),
                *config,
                now as int,
                has_ind,
            ));
        }
    }
    proof {
        assert(period.fields@.take(n as int) =~= period.fields@);
    }
    out
}

/// The rendered change groups, each on a fresh indented line.
pub open spec fn spec_change_groups_spans(ps: Seq<ForecastPeriod>, c: Config, now: int) -> Seq<
    SpanModel,
>
    decreases ps.len(),
{
    if ps.len() == 0 {
        Seq::empty()
    } else {
        spec_change_groups_spans(ps.drop_last(), c, now) + seq![
            plain_span(seq!['\n', ' ', ' ', ' ', ' ', ' ']),
        ] + spec_period_spans(ps.last(), c, now, true)
    }
}

/// The rendered forecast: the `TAF ` header, the station badge, the
/// age-coloured issue time, the validity window, the initial period's
/// fields, and each change group on its own indented line.
pub open spec fn spec_taf_spans(t: Taf, c: Config, now: int) -> Seq<SpanModel> {
    let head = seq![
        SpanModel {
            text: seq!['T', 'A', 'F', ' '],
            fg: Some(TextColor::BrightWhite),
            bg: None,
        },
        spec_station_span(t.icao_code@, t.exact_match),
        SpanModel {
            text: seq![' '] + dec_int_pad(t.issue_time.day as int, 2) + dec_int_pad(
                t.issue_time.hour as int,
                2,
            ) + dec_int_pad(t.issue_time.minute as int, 2) + seq!['Z'],
            fg: Some(spec_age_color(t.issue_time, now, c)),
            bg: None,
        },
        SpanModel {
            text: seq![' '] + dec_int_pad(t.validity_start.day as int, 2) + dec_int_pad(
                t.validity_start.hour as int,
                2,
            ) + seq!['/'] + dec_int_pad(t.validity_end.day as int, 2) + dec_int_pad(
                t.validity_end.hour as int,
                2,
            ),
            fg: Some(TextColor::BrightCyan),
            bg: None,
        },
    ];
    let initial = (if t.forecast_periods@.len() > 0 && t.forecast_periods@[0].period_type
        == PeriodType::Initial {
        seq![plain_span(seq![' '])] + spec_period_spans(t.forecast_periods@[0], c, now, false)
    } else {
        Seq::empty()
    });
    head + initial + (if t.forecast_periods@.len() > 0 {
        spec_change_groups_spans(t.forecast_periods@.skip(1), c, now)
    } else {
        Seq::empty()
    })
}

impl Taf {
    /// Render a whole forecast against an explicit rendering time.
    pub fn colourise_at(&self, config: &Config, now: i64) -> (r: Vec<Span>)
        ensures
            models(r@) == spec_taf_spans(*self, *config, now as int),
    {
        let mut out: Vec<Span> = Vec::new();
        let taf_chars = str_chars("TAF ");
        out.push(
            Span::new(string_from_chars(&taf_chars), Some(TextColor::BrightWhite), None),
        );
        if self.exact_match {
            out.push(
                Span::new(
                    self.icao_code.clone(),
                    Some(TextColor::BrightWhite),
                    Some(TextColor::Blue),
                ),
            );
        } else {
            out.push(
                Span::new(self.icao_code.clone(), Some(TextColor::Black), Some(TextColor::Yellow)),
            );
        }
        let mut issue_chars: Vec<char> = Vec::new();
        issue_chars.push(' ');
        push_dec_i64_pad(&mut issue_chars, self.issue_time.day as i64, 2);
        push_dec_i64_pad(&mut issue_chars, self.issue_time.hour as i64, 2);
        push_dec_i64_pad(&mut issue_chars, self.issue_time.minute as i64, 2);
        issue_chars.push('Z');
        let dt: i128 = now as i128 - self.issue_time.epoch_sec as i128;
        let issue_color = if dt < config.age_marginal as i128 {
            TextColor::Green
        } else if dt < config.age_maximum as i128 {
            TextColor::Yellow
        } else {
            TextColor::Red
        };
        out.push(Span::new(string_from_chars(&issue_chars), Some(issue_color), None));
        let mut validity_chars: Vec<char> = Vec::new();
        validity_chars.push(' ');
        push_dec_i64_pad(&mut validity_chars, self.validity_start.day as i64, 2);
        push_dec_i64_pad(&mut validity_chars, self.validity_start.hour as i64, 2);
        validity_chars.push('/');
        push_dec_i64_pad(&mut validity_chars, self.validity_end.day as i64, 2);
        push_dec_i64_pad(&mut validity_chars, self.validity_end.hour as i64, 2);
        out.push(
            Span::new(string_from_chars(&validity_chars), Some(TextColor::BrightCyan), None),
        );
        proof {
            reveal_strlit("TAF ");
            assert("TAF "@ =~= seq!['T', 'A', 'F', ' ']);
            assert(issue_chars@ =~= seq![' '] + dec_int_pad(self.issue_time.day as int, 2)
                + dec_int_pad(self.issue_time.hour as int, 2) + dec_int_pad(
                self.issue_time.minute as int,
                2,
            ) + seq!['Z']);
            assert(validity_chars@ =~= seq![' '] + dec_int_pad(self.validity_start.day as int, 2)
                + dec_int_pad(self.validity_start.hour as int, 2) + seq!['/'] + dec_int_pad(
                self.validity_end.day as int,
                2,
            ) + dec_int_pad(self.validity_end.hour as int, 2));
        }
        let ghost head = models(out@);
        let n = self.forecast_periods.len();
        if n > 0 {
            let is_initial = (match self.forecast_periods[0].period_type {
                PeriodType::Initial => true,
                _ => false,
            });
            if is_initial {
                let ghost prev0 = out@;
                out.push(Span::plain(" "));
                let ghost prev1 = out@;
                let mut spans = colourise_forecast_period(
                    &self.forecast_periods[0],
                    config,
                    false,
                    now,
                );
                let ghost spans_snap = spans@;
                out.append(&mut spans);
                proof {
                    reveal_strlit(" ");
                    assert(" "@ =~= seq![' ']);
                    assert(models(prev1) =~= models(prev0) + seq![plain_span(seq![' '])]);
                    lemma_models_concat(prev1, spans_snap);
                }
            }
        }
        let ghost with_initial = models(out@);
        proof {
            assert(with_initial =~= head + (if self.forecast_periods@.len() > 0
                && self.forecast_periods@[0].period_type == PeriodType::Initial {
                seq![plain_span(seq![' '])] + spec_period_spans(
                    self.forecast_periods@[0],
                    *config,
                    now as int,
                    false,
                )
            } else {
                Seq::<SpanModel>::empty()
            }));
        }
        if n == 0 {
            proof {
                assert(models(out@) =~= spec_taf_spans(*self, *config, now as int));
            }
            return out;
        }
        let mut i: usize = 1;
        proof {
            assert(self.forecast_periods@.skip(1).take(0) =~= Seq::<ForecastPeriod>::empty());
            assert(models(out@) =~= with_initial + spec_change_groups_spans(
                self.forecast_periods@.skip(1).take(0),
                *config,
                now as int,
            ));
        }
        while i < n
            invariant
                1 <= i <= n,
                n == self.forecast_periods@.len(),
                spec_taf_spans(*self, *config, now as int) == with_initial
                    + spec_change_groups_spans(
                    self.forecast_periods@.skip(1),
                    *config,
                    now as int,
                ),
                models(out@) == with_initial + spec_change_groups_spans(
                    self.forecast_periods@.skip(1).take(i as int - 1),
                    *config,
                    now as int,
                ),
            decreases n - i,
        {
            let ghost prev0 = out@;
            let nl = str_chars("\n     ");
            out.push(Span::new(string_from_chars(&nl), None, None));
            let ghost prev1 = out@;
            let mut spans = colourise_forecast_period(&self.forecast_periods[i], config, true, now);
            let ghost spans_snap = spans@;
            out.append(&mut spans);
            i = i + 1;
            proof {
                reveal_strlit("\n     ");
                assert("\n     "@ =~= seq!['\n', ' ', ' ', ' ', ' ', ' ']);
                assert(models(prev1) =~= models(prev0) + seq![
                    plain_span(seq!['\n', ' ', ' ', ' ', ' ', ' ']),
                ]);
                lemma_models_concat(prev1, spans_snap);
                let groups = self.forecast_periods@.skip(1);
                assert(groups.take(i as int - 1).drop_last() =~= groups.take(i as int - 2));
                assert(groups.take(i as int - 1).last() == self.forecast_periods@[i - 1]);
                assert(models(out@) =~= with_initial + spec_change_groups_spans(
                    groups.take(i as int - 1),
                    *config,
                    now as int,
                ));
            }
        }
        proof {
            assert(self.forecast_periods@.skip(1).take(n as int - 1)
                =~= self.forecast_periods@.skip(1));
        }
        out
    }

    /// Render a whole forecast; the rendering time is sampled once from the
    /// clock for the whole pass.
    pub fn colourise(&self, config: &Config) -> (r: Vec<Span>)
        ensures
            exists|now: int| models(r@) == spec_taf_spans(*self, *config, now),
    {
        let now = crate::time::now_epoch_seconds();
        let r = self.colourise_at(config, now);
        proof {
            assert(models(r@) == spec_taf_spans(*self, *config, now as int));
        }
        r
    }
}

} // verus!
