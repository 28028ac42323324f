//! Laws the library keeps, stated and proved over the same specifications
//! its functions are verified against.

use vstd::prelude::*;
use vstd::seq_lib::group_to_multiset_ensures;

use crate::clouds::{clouds_canons, clouds_order, spec_cloud_decode, spec_cloud_scan,
    spec_cloud_token_at, Clouds};
use crate::config::Config;
use crate::metar::{seq_max, seq_min, spec_cloud_height_color};
use crate::report::ReportValue;
use crate::span::TextColor;
use crate::taf::{period_matches, periods_match, spec_period_type, PeriodType, ForecastPeriod};
use crate::text::{digit_run_end, digits_value_or_zero, lemma_first_match_at_hit, match_at};
use crate::wxcodes::{spec_wx_code_prox, spec_wx_decode, spec_wx_match_at, spec_wx_match_di,
    spec_wx_code_at, spec_wx_descr_at, spec_wx_intensity_at, spec_wx_prox_at, spec_wx_scan,
    wxcode_canons, wxcode_order, wxdescription_canons, wxdescription_explicit_order, WxCode,
    WxCodeDescription, WxCodeIntensity, WxCodeProximity};

verus! {

/// How severe a colour class reads: bad worst, then marginal, then
/// everything reassuring.
pub open spec fn severity_rank(color: TextColor) -> int {
    match color {
        TextColor::Red => 2,
        TextColor::Yellow => 1,
        _ => 0,
    }
}

/// As a cloud layer's height increases, its severity never worsens: bad up
/// to the configured minimum, marginal up to the marginal height, good
/// above — whatever the thresholds.
pub proof fn lemma_cloud_height_severity_monotonic(h1: i64, h2: i64, c: Config)
    requires
        h1 <= h2,
    ensures
        severity_rank(spec_cloud_height_color(h2, c)) <= severity_rank(
            spec_cloud_height_color(h1, c),
        ),
{
}

/// The least element of a non-empty sequence occurs in it and is at most
/// every element.
pub proof fn lemma_seq_min_is_least(s: Seq<i64>)
    requires
        s.len() > 0,
    ensures
        s.contains(seq_min(s)),
        forall|i: int| 0 <= i < s.len() ==> seq_min(s) <= s[i],
    decreases s.len(),
{
    if s.len() > 1 {
        lemma_seq_min_is_least(s.drop_last());
        if seq_min(s) == s.last() {
            assert(s[s.len() - 1] == seq_min(s));
        } else {
            let j = choose|j: int| 0 <= j < s.drop_last().len() && s.drop_last()[j] == seq_min(
                s.drop_last(),
            );
            assert(s[j] == seq_min(s));
        }
        assert(forall|i: int| 0 <= i < s.len() - 1 ==> s[i] == s.drop_last()[i]);
    } else {
        assert(s[0] == seq_min(s));
    }
}

/// The greatest element of a non-empty sequence occurs in it and is at
/// least every element.
pub proof fn lemma_seq_max_is_greatest(s: Seq<i64>)
    requires
        s.len() > 0,
    ensures
        s.contains(seq_max(s)),
        forall|i: int| 0 <= i < s.len() ==> s[i] <= seq_max(s),
    decreases s.len(),
{
    if s.len() > 1 {
        lemma_seq_max_is_greatest(s.drop_last());
        if seq_max(s) == s.last() {
            assert(s[s.len() - 1] == seq_max(s));
        } else {
            let j = choose|j: int| 0 <= j < s.drop_last().len() && s.drop_last()[j] == seq_max(
                s.drop_last(),
            );
            assert(s[j] == seq_max(s));
        }
        assert(forall|i: int| 0 <= i < s.len() - 1 ==> s[i] == s.drop_last()[i]);
    } else {
        assert(s[0] == seq_max(s));
    }
}

/// Wind-variability extraction does not depend on the order the directions
/// were reported in: two reports whose direction lists hold the same values
/// yield the same lower and upper bound.
pub proof fn lemma_wind_var_order_invariant(vals1: Seq<i64>, vals2: Seq<i64>)
    requires
        vals1.to_multiset() == vals2.to_multiset(),
        vals1.len() > 0,
    ensures
        seq_min(vals1) == seq_min(vals2),
        seq_max(vals1) == seq_max(vals2),
{
    broadcast use group_to_multiset_ensures;

    assert(vals1.to_multiset().len() == vals1.len());
    assert(vals2.to_multiset().len() == vals2.len());
    assert(vals2.len() > 0);
    lemma_seq_min_is_least(vals1);
    lemma_seq_min_is_least(vals2);
    lemma_seq_max_is_greatest(vals1);
    lemma_seq_max_is_greatest(vals2);
    assert(vals1.to_multiset().count(seq_min(vals1)) > 0);
    assert(vals2.to_multiset().count(seq_min(vals2)) > 0);
    assert(vals1.to_multiset().count(seq_max(vals1)) > 0);
    assert(vals2.to_multiset().count(seq_max(vals2)) > 0);
    assert(vals2.contains(seq_min(vals1)));
    assert(vals1.contains(seq_min(vals2)));
    assert(vals2.contains(seq_max(vals1)));
    assert(vals1.contains(seq_max(vals2)));
    let i1 = choose|i: int| 0 <= i < vals2.len() && vals2[i] == seq_min(vals1);
    let i2 = choose|i: int| 0 <= i < vals1.len() && vals1[i] == seq_min(vals2);
    let j1 = choose|j: int| 0 <= j < vals2.len() && vals2[j] == seq_max(vals1);
    let j2 = choose|j: int| 0 <= j < vals1.len() && vals1[j] == seq_max(vals2);
    assert(seq_min(vals2) <= vals2[i1]);
    assert(seq_min(vals1) <= vals1[i2]);
    assert(vals2[j1] <= seq_max(vals2));
    assert(vals1[j2] <= seq_max(vals1));
}

/// In a decoded forecast the first period is always the initial one and
/// carries no change indicator kind; every later period is one of the
/// change-group kinds.
pub proof fn lemma_forecast_period_shape(ps: Seq<ForecastPeriod>, arr: Seq<ReportValue>)
    requires
        periods_match(ps, arr, arr.len() as int),
    ensures
        arr.len() > 0 ==> ps.len() > 0,
        ps.len() > 0 ==> ps[0].period_type == PeriodType::Initial,
        forall|k: int| 1 <= k < ps.len() ==> ps[k].period_type != PeriodType::Initial,
{
    lemma_forecast_period_shape_upto(ps, arr, arr.len() as int);
}

/// The shape above, over the first `idx` change groups.
proof fn lemma_forecast_period_shape_upto(ps: Seq<ForecastPeriod>, arr: Seq<ReportValue>, idx: int)
    requires
        idx <= arr.len(),
        periods_match(ps, arr, idx),
    ensures
        idx > 0 ==> ps.len() > 0,
        ps.len() > 0 ==> ps[0].period_type == PeriodType::Initial,
        forall|k: int| 1 <= k < ps.len() ==> ps[k].period_type != PeriodType::Initial,
    decreases idx,
{
    reveal(period_matches);
    reveal_with_fuel(periods_match, 3);
    if idx > 0 {
        let item = arr[idx - 1];
        let is_initial = idx - 1 == 0;
        if spec_period_type(item, is_initial) is Some {
            lemma_forecast_period_shape_upto(ps.drop_last(), arr, idx - 1);
            assert(forall|k: int| 0 <= k < ps.len() - 1 ==> ps[k] == ps.drop_last()[k]);
            if is_initial {
                assert(period_matches(ps.last(), item, true));
                assert(spec_period_type(item, true) == Option::Some(PeriodType::Initial));
                assert(ps.last().period_type == PeriodType::Initial);
                assert(ps.drop_last().len() == 0);
            } else {
                assert(ps.last().period_type != PeriodType::Initial);
            }
        } else {
            lemma_forecast_period_shape_upto(ps, arr, idx - 1);
        }
    }
}

/// A phenomenon token in which no code occurs anywhere decodes to no field
/// — never to a default code.
pub proof fn lemma_wx_no_code_no_field(s: Seq<char>)
    requires
        forall|q: int| spec_wx_code_at(s, q) is None,
    ensures
        spec_wx_decode(s) is None,
{
    assert forall|p: int| spec_wx_match_at(s, p) is None by {
        assert(spec_wx_code_prox(s, p, crate::wxcodes::WxCodeIntensity::Moderate) is None);
    }
    lemma_wx_scan_none(s, 0);
}

/// Scanning finds nothing when no position matches.
proof fn lemma_wx_scan_none(s: Seq<char>, p: int)
    requires
        forall|q: int| spec_wx_match_at(s, q) is None,
    ensures
        spec_wx_scan(s, p) is None,
    decreases s.len() - p,
{
    if 0 <= p < s.len() {
        lemma_wx_scan_none(s, p + 1);
    }
}

/// Feeding a coverage's canonical text back through the cloud-layer grammar
/// recovers that coverage, at height zero: display and decode cannot drift
/// apart.
pub proof fn lemma_cloud_display_roundtrip(k: Clouds)
    ensures
        spec_cloud_decode(k.canon()) == Option::Some((k, 0int)),
{
    reveal_strlit("SKC");
    reveal_strlit("FEW");
    reveal_strlit("SCT");
    reveal_strlit("BRK");
    reveal_strlit("OVC");
    let s = k.canon();
    let toks = clouds_canons(clouds_order());
    assert(toks.len() == 5);
    assert(forall|j: int| 0 <= j < 5 ==> toks[j] == clouds_order()[j].canon());
    assert(s.len() == 3);
    assert(s.subrange(0, 3) =~= s);
    let idx: int = (match k {
        Clouds::Skc => 0,
        Clouds::Few => 1,
        Clouds::Sct => 2,
        Clouds::Brk => 3,
        Clouds::Ovc => 4,
    });
    assert(match_at(s, 0, toks[idx]));
    assert forall|j: int| 0 <= j < idx implies !match_at(s, 0, toks[j]) by {
        if match_at(s, 0, toks[j]) {
            assert(s.subrange(0, toks[j].len() as int) == toks[j]);
            assert(s[0] == toks[j][0] && s[1] == toks[j][1] && s[2] == toks[j][2]);
        }
    }
    lemma_first_match_at_hit(s, 0, toks, idx);
    assert(spec_cloud_token_at(s, 0) == Option::Some(k));
    assert(spec_cloud_scan(s, 0) == Option::Some((k, 0int)));
    assert(digit_run_end(s, 3) == 3);
    assert(s.subrange(3, 3) =~= Seq::<char>::empty());
    assert(digits_value_or_zero(s.subrange(3, 3)) == 0);
}

/// The canonical texts of the phenomenon components: their lengths, their
/// pairwise distinctness within and across the closed sets, and that none
/// starts with an intensity sign.
#[verifier::rlimit(100)]
proof fn reveal_wx_tokens()
    ensures
        forall|c: WxCode| (#[trigger] c.canon()).len() == 2,
        forall|d: WxCodeDescription| d != WxCodeDescription::NoDescriptor ==> (
        #[trigger] d.canon()).len() == 2,
        WxCodeDescription::NoDescriptor.canon().len() == 0,
        forall|i: WxCodeIntensity| i != WxCodeIntensity::Moderate ==> (#[trigger] i.canon()).len()
            == 1,
        WxCodeIntensity::Moderate.canon().len() == 0,
        WxCodeProximity::OnStation.canon().len() == 0,
        WxCodeProximity::Vicinity.canon().len() == 2,
        WxCodeProximity::Distant.canon().len() == 4,
        forall|c1: WxCode, c2: WxCode| c1 != c2 ==> (#[trigger] c1.canon()) != (
        #[trigger] c2.canon()),
        forall|d1: WxCodeDescription, d2: WxCodeDescription|
            d1 != d2 ==> (#[trigger] d1.canon()) != (#[trigger] d2.canon()),
        forall|c: WxCode, d: WxCodeDescription| (#[trigger] c.canon()) != (#[trigger] d.canon()),
        forall|c: WxCode| (#[trigger] c.canon())[0] != '+' && c.canon()[0] != '-',
        forall|d: WxCodeDescription|
            d != WxCodeDescription::NoDescriptor ==> (#[trigger] d.canon())[0] != '+'
                && d.canon()[0] != '-',
        WxCodeProximity::Vicinity.canon()[0] == 'V',
        WxCodeProximity::Distant.canon()[0] == 'D',
{
    reveal_strlit("RA");
    reveal_strlit("DZ");
    reveal_strlit("GR");
    reveal_strlit("GS");
    reveal_strlit("IC");
    reveal_strlit("PL");
    reveal_strlit("SG");
    reveal_strlit("SN");
    reveal_strlit("UP");
    reveal_strlit("BR");
    reveal_strlit("DU");
    reveal_strlit("FG");
    reveal_strlit("FU");
    reveal_strlit("HZ");
    reveal_strlit("PY");
    reveal_strlit("SA");
    reveal_strlit("VA");
    reveal_strlit("DS");
    reveal_strlit("FC");
    reveal_strlit("PO");
    reveal_strlit("SQ");
    reveal_strlit("SS");
    reveal_strlit("TS");
    reveal_strlit("BC");
    reveal_strlit("BL");
    reveal_strlit("DR");
    reveal_strlit("FZ");
    reveal_strlit("MI");
    reveal_strlit("PR");
    reveal_strlit("SH");
    reveal_strlit("");
    reveal_strlit("-");
    reveal_strlit("+");
    reveal_strlit("VC");
    reveal_strlit("DSNT");
    assert forall|c1: WxCode, c2: WxCode| c1 != c2 implies (#[trigger] c1.canon()) != (
    #[trigger] c2.canon()) by {
        if c1.canon() == c2.canon() {
            assert(c1.canon()[0] == c2.canon()[0]);
            assert(c1.canon()[1] == c2.canon()[1]);
        }
    }
    assert forall|d1: WxCodeDescription, d2: WxCodeDescription| d1 != d2 implies (
    #[trigger] d1.canon()) != (#[trigger] d2.canon()) by {
        if d1.canon() == d2.canon() {
            assert(d1.canon().len() == d2.canon().len());
            if d1 != WxCodeDescription::NoDescriptor && d2 != WxCodeDescription::NoDescriptor {
                assert(d1.canon()[0] == d2.canon()[0]);
                assert(d1.canon()[1] == d2.canon()[1]);
            }
        }
    }
    assert forall|c: WxCode, d: WxCodeDescription| (#[trigger] c.canon()) != (
    #[trigger] d.canon()) by {
        if c.canon() == d.canon() {
            assert(c.canon().len() == d.canon().len());
            if d != WxCodeDescription::NoDescriptor {
                assert(c.canon()[0] == d.canon()[0]);
                assert(c.canon()[1] == d.canon()[1]);
            }
        }
    }
}

/// A text that starts with neither sign carries no explicit intensity.
proof fn lemma_wx_intensity_none(s: Seq<char>)
    requires
        s.len() > 0,
        s[0] != '+',
        s[0] != '-',
    ensures
        spec_wx_intensity_at(s, 0) is None,
{
    reveal_strlit("+");
    reveal_strlit("-");
    if match_at(s, 0, "+"@) {
        assert(s.subrange(0, 1) == "+"@);
        assert(s.subrange(0, 1)[0] == s[0]);
    }
    if match_at(s, 0, "-"@) {
        assert(s.subrange(0, 1) == "-"@);
        assert(s.subrange(0, 1)[0] == s[0]);
    }
}

/// A descriptor's own text at `a` reads back as that descriptor.
proof fn lemma_wx_descr_at_hit(s: Seq<char>, a: int, d: WxCodeDescription)
    requires
        d != WxCodeDescription::NoDescriptor,
        0 <= a,
        a + 2 <= s.len(),
        s.subrange(a, a + 2) == d.canon(),
    ensures
        spec_wx_descr_at(s, a) == Option::Some(d),
{
    reveal_wx_tokens();
    let dtoks = wxdescription_canons(wxdescription_explicit_order());
    assert(dtoks.len() == 8);
    assert(dtoks[0] == "TS"@);
    assert(dtoks[1] == "BC"@);
    assert(dtoks[2] == "BL"@);
    assert(dtoks[3] == "DR"@);
    assert(dtoks[4] == "FZ"@);
    assert(dtoks[5] == "MI"@);
    assert(dtoks[6] == "PR"@);
    assert(dtoks[7] == "SH"@);
    reveal_with_fuel(crate::text::first_match_at, 10);
    assert(spec_wx_descr_at(s, a) == Option::Some(d));
}

/// A code's own text at `a` matches no descriptor: the sets are disjoint.
proof fn lemma_wx_descr_at_none_on_code(s: Seq<char>, a: int, c: WxCode)
    requires
        0 <= a,
        a + 2 <= s.len(),
        s.subrange(a, a + 2) == c.canon(),
    ensures
        spec_wx_descr_at(s, a) is None,
{
    reveal_wx_tokens();
    let dtoks = wxdescription_canons(wxdescription_explicit_order());
    assert(dtoks.len() == 8);
    assert(dtoks[0] == "TS"@);
    assert(dtoks[1] == "BC"@);
    assert(dtoks[2] == "BL"@);
    assert(dtoks[3] == "DR"@);
    assert(dtoks[4] == "FZ"@);
    assert(dtoks[5] == "MI"@);
    assert(dtoks[6] == "PR"@);
    assert(dtoks[7] == "SH"@);
    reveal_with_fuel(crate::text::first_match_at, 10);
    assert(spec_wx_descr_at(s, a) is None);
}

/// A code's own text at `q` reads back as that code.
#[verifier::rlimit(100)]
proof fn lemma_wx_code_at_hit(s: Seq<char>, q: int, c: WxCode)
    requires
        0 <= q,
        q + 2 <= s.len(),
        s.subrange(q, q + 2) == c.canon(),
    ensures
        spec_wx_code_at(s, q) == Option::Some(c),
{
    reveal_wx_tokens();
    let ctoks = wxcode_canons(wxcode_order());
    assert(ctoks.len() == 22);
    assert(ctoks[0] == "RA"@);
    assert(ctoks[1] == "DZ"@);
    assert(ctoks[2] == "GR"@);
    assert(ctoks[3] == "GS"@);
    assert(ctoks[4] == "IC"@);
    assert(ctoks[5] == "PL"@);
    assert(ctoks[6] == "SG"@);
    assert(ctoks[7] == "SN"@);
    assert(ctoks[8] == "UP"@);
    assert(ctoks[9] == "BR"@);
    assert(ctoks[10] == "DU"@);
    assert(ctoks[11] == "FG"@);
    assert(ctoks[12] == "FU"@);
    assert(ctoks[13] == "HZ"@);
    assert(ctoks[14] == "PY"@);
    assert(ctoks[15] == "SA"@);
    assert(ctoks[16] == "VA"@);
    assert(ctoks[17] == "DS"@);
    assert(ctoks[18] == "FC"@);
    assert(ctoks[19] == "PO"@);
    assert(ctoks[20] == "SQ"@);
    assert(ctoks[21] == "SS"@);
    reveal_with_fuel(crate::text::first_match_at, 23);
    assert(spec_wx_code_at(s, q) == Option::Some(c));
}

/// A proximity's own text, closing the token, reads back as that proximity.
proof fn lemma_wx_prox_at(s: Seq<char>, qp: int, p: WxCodeProximity)
    requires
        0 <= qp <= s.len(),
        qp + p.canon().len() == s.len(),
        s.subrange(qp, s.len() as int) == p.canon(),
    ensures
        spec_wx_prox_at(s, qp) == p,
{
    reveal_wx_tokens();
    match p {
        WxCodeProximity::OnStation => {
            assert(qp == s.len());
        },
        WxCodeProximity::Vicinity => {
            assert(match_at(s, qp, "VC"@));
        },
        WxCodeProximity::Distant => {
            if match_at(s, qp, "VC"@) {
                assert(s.subrange(qp, qp + 2) == "VC"@);
                assert(s.subrange(qp, qp + 2)[0] == s[qp]);
                assert(s.subrange(qp, s.len() as int)[0] == s[qp]);
            }
            assert(match_at(s, qp, "DSNT"@));
        },
    }
}

/// Building a phenomenon token from canonical component texts and feeding
/// it back through the grammar recovers the original four components —
/// for every combination of code, intensity, proximity and descriptor.
/// A token without any valid code decodes to no field instead (see
/// `lemma_wx_no_code_no_field`).
pub proof fn lemma_wx_token_roundtrip(
    c: WxCode,
    i: WxCodeIntensity,
    p: WxCodeProximity,
    d: WxCodeDescription,
)
    ensures
        spec_wx_decode(i.canon() + d.canon() + c.canon() + p.canon()) == Option::Some(
            (c, i, p, d),
        ),
{
    reveal_wx_tokens();
    let s = i.canon() + d.canon() + c.canon() + p.canon();
    let a = i.canon().len() as int;
    let b = d.canon().len() as int;
    let qc = a + b;
    let qp = qc + 2;
    assert(s.subrange(0, a) =~= i.canon());
    assert(s.subrange(a, qc) =~= d.canon());
    assert(s.subrange(qc, qp) =~= c.canon());
    assert(s.subrange(qp, s.len() as int) =~= p.canon());
    // The intensity group.
    if i == WxCodeIntensity::Moderate {
        assert(s[0] == (if b > 0 {
            d.canon()[0]
        } else {
            c.canon()[0]
        }));
        lemma_wx_intensity_none(s);
    } else {
        reveal_strlit("+");
        reveal_strlit("-");
        assert(s.subrange(0, 1) =~= i.canon());
        if i == WxCodeIntensity::Heavy {
            assert(match_at(s, 0, "+"@));
        } else {
            if match_at(s, 0, "+"@) {
                assert(s.subrange(0, 1) == "+"@);
                assert(s.subrange(0, 1)[0] == s[0]);
            }
            assert(match_at(s, 0, "-"@));
        }
        assert(spec_wx_intensity_at(s, 0) == Option::Some(i));
    }
    // The descriptor group at `a`, then the code at `qc`, then the
    // proximity at `qp`.
    if d == WxCodeDescription::NoDescriptor {
        assert(s.subrange(a, a + 2) =~= c.canon());
        lemma_wx_descr_at_none_on_code(s, a, c);
    } else {
        lemma_wx_descr_at_hit(s, a, d);
    }
    lemma_wx_code_at_hit(s, qc, c);
    lemma_wx_prox_at(s, qp, p);
    // Assemble: the preferred branches succeed, so no backtracking applies.
    assert(spec_wx_match_di(s, a, i) == Option::Some((c, i, p, d)));
    assert(spec_wx_match_at(s, 0) == Option::Some((c, i, p, d)));
    assert(s.len() > 0);
    assert(spec_wx_scan(s, 0) == Option::Some((c, i, p, d)));
}



} // verus!
