//! Cloud-layer tokens. A layer is reported as a compact code such as
//! `SCT050`: a coverage kind followed by an optional height in flight
//! levels. The grammar finds the leftmost coverage token, tried in
//! declaration order, and reads the digit run after it; a token with no
//! coverage kind decodes to nothing and is skipped by the callers.

use vstd::prelude::*;

use crate::metar::WxField;
use crate::report::{spec_get, ReportValue};
use crate::text::{digit_run_end, digit_run_end_exec, digits_to_i64_or_zero,
    digits_value_or_zero, find_fold_match, find_match_at, first_fold_match, first_match_at,
    joined_bar, join_bar_tokens, lemma_digit_run, str_chars, string_from_chars, token_views,
    TokenError};

verus! {

/// The coverage of a cloud layer, ordered by increasing obscuration.
#[derive(Debug, Clone, Copy, PartialEq, Eq, Structural)]
pub enum Clouds {
    /// Sky clear.
    Skc,
    /// Few: up to 2/8 coverage.
    Few,
    /// Scattered: 3/8 to 4/8 coverage.
    Sct,
    /// Broken: 5/8 to 7/8 coverage.
    Brk,
    /// Overcast: 8/8 coverage.
    Ovc,
}

impl Clouds {
    /// The canonical three-letter text of this coverage.
    pub open spec fn canon(self) -> Seq<char> {
        match self {
            Clouds::Skc => "SKC"@,
            Clouds::Few => "FEW"@,
            Clouds::Sct => "SCT"@,
            Clouds::Brk => "BRK"@,
            Clouds::Ovc => "OVC"@,
        }
    }

    /// The canonical text, as characters.
    pub fn canon_chars(&self) -> (r: Vec<char>)
        ensures
            r@ == self.canon(),
    {
        match self {
            Clouds::Skc => str_chars("SKC"),
            Clouds::Few => str_chars("FEW"),
            Clouds::Sct => str_chars("SCT"),
            Clouds::Brk => str_chars("BRK"),
            Clouds::Ovc => str_chars("OVC"),
        }
    }

    /// The canonical text, as a string.
    pub fn to_canonical_string(&self) -> (r: String)
        ensures
            r@ == self.canon(),
    {
        let chars = self.canon_chars();
        string_from_chars(&chars)
    }

    /// Every coverage variant, in declaration order.
    pub fn variants() -> (r: Vec<Clouds>)
        ensures
            r@ == clouds_order(),
    {
        let mut v: Vec<Clouds> = Vec::new();
        v.push(Clouds::Skc);
        v.push(Clouds::Few);
        v.push(Clouds::Sct);
        v.push(Clouds::Brk);
        v.push(Clouds::Ovc);
        proof {
            assert(v@ =~= clouds_order());
        }
        v
    }

    /// The alternation text matching any coverage, derived from the
    /// canonical texts of all variants.
    pub fn get_regex() -> (r: String)
        ensures
            r@ == joined_bar(clouds_canons(clouds_order())),
    {
        let vs = Clouds::variants();
        let tokens = clouds_canon_tokens(&vs);
        let joined = join_bar_tokens(&tokens);
        string_from_chars(&joined)
    }

    /// Parse a coverage, case-insensitively.
    pub fn from_str(s: &str) -> (r: Result<Clouds, TokenError>)
        ensures
            (match r {
                Result::Ok(k) => spec_clouds_from(s@) == Option::Some(k),
                Result::Err(_) => spec_clouds_from(s@) is None,
            }),
    {
        let v = str_chars(s);
        let vs = Clouds::variants();
        let tokens = clouds_canon_tokens(&vs);
        match find_fold_match(&v, &tokens) {
            Option::Some(i) => Result::Ok(vs[i]),
            Option::None => Result::Err(TokenError),
        }
    }
}

/// All coverages, in their declaration order — the order the grammar tries
/// them in.
pub open spec fn clouds_order() -> Seq<Clouds> {
    seq![Clouds::Skc, Clouds::Few, Clouds::Sct, Clouds::Brk, Clouds::Ovc]
}

/// The canonical texts of a sequence of coverages.
pub open spec fn clouds_canons(ks: Seq<Clouds>) -> Seq<Seq<char>> {
    ks.map_values(|k: Clouds| k.canon())
}

/// The coverage a token names: the first variant whose canonical text
/// matches, case-insensitively.
pub open spec fn spec_clouds_from(s: Seq<char>) -> Option<Clouds> {
    match first_fold_match(s, clouds_canons(clouds_order())) {
        Option::Some(i) => Option::Some(clouds_order()[i]),
        Option::None => Option::None,
    }
}

/// The canonical texts of the given coverages, as character vectors.
fn clouds_canon_tokens(vs: &Vec<Clouds>) -> (r: Vec<Vec<char>>)
    ensures
        token_views(r@) == clouds_canons(vs@),
{
    let n = vs.len();
    let mut tokens: Vec<Vec<char>> = Vec::new();
    let mut i: usize = 0;
    while i < n
        invariant
            i <= n,
            n == vs@.len(),
            tokens@.len() == i,
            forall|j: int| 0 <= j < i ==> #[trigger] tokens@[j]@ == vs@[j].canon(),
        decreases n - i,
    {
        tokens.push(vs[i].canon_chars());
        i = i + 1;
    }
    proof {
        assert forall|j: int| 0 <= j < vs@.len() implies token_views(tokens@)[j] == clouds_canons(
            vs@,
        )[j] by {
            assert(tokens@[j]@ == vs@[j].canon());
        }
        assert(token_views(tokens@) =~= clouds_canons(vs@));
    }
    tokens
}

/// The coverage whose canonical text occurs in `s` at `p`, tried in
/// declaration order.
pub open spec fn spec_cloud_token_at(s: Seq<char>, p: int) -> Option<Clouds> {
    match first_match_at(s, p, clouds_canons(clouds_order())) {
        Option::Some(i) => Option::Some(clouds_order()[i]),
        Option::None => Option::None,
    }
}

/// The leftmost position at or after `p` where a coverage token occurs,
/// together with that coverage.
pub open spec fn spec_cloud_scan(s: Seq<char>, p: int) -> Option<(Clouds, int)>
    decreases s.len() - p,
{
    if p < 0 || p >= s.len() {
        Option::None
    } else {
        match spec_cloud_token_at(s, p) {
            Option::Some(k) => Option::Some((k, p)),
            Option::None => spec_cloud_scan(s, p + 1),
        }
    }
}

/// When no coverage token occurs before `p`, scanning from the start is
/// scanning from `p`.
proof fn lemma_cloud_scan_prefix(s: Seq<char>, p: int)
    requires
        0 <= p <= s.len(),
        forall|q: int| 0 <= q < p ==> spec_cloud_token_at(s, q) is None,
    ensures
        spec_cloud_scan(s, 0) == spec_cloud_scan(s, p),
    decreases p,
{
    if p > 0 {
        lemma_cloud_scan_prefix(s, p - 1);
    }
}

/// What a cloud token decodes to: the leftmost coverage occurrence and the
/// value of the digit run right after it, zero when absent or oversized.
pub open spec fn spec_cloud_decode(s: Seq<char>) -> Option<(Clouds, int)> {
    match spec_cloud_scan(s, 0) {
        Option::Some(kp) => {
            let start = kp.1 + kp.0.canon().len();
            let dend = digit_run_end(s, start);
            Option::Some((kp.0, digits_value_or_zero(s.subrange(start, dend))))
        },
        Option::None => Option::None,
    }
}

/// Decode a cloud-layer token: the coverage, and the height read from the
/// digits following it, zero when absent. A token with no coverage kind
/// decodes to nothing.
pub fn clouds_from_str(repr: &str) -> (r: Option<WxField>)
    ensures
        (match r {
            Option::Some(f) => spec_cloud_decode(repr@) matches Option::Some(kl) && f
                == WxField::Clouds(kl.0, kl.1 as i64),
            Option::None => spec_cloud_decode(repr@) is None,
        }),
{
    let v = str_chars(repr);
    let vs = Clouds::variants();
    let tokens = clouds_canon_tokens(&vs);
    let n = v.len();
    let mut p: usize = 0;
    while p < n
        invariant
            p <= n,
            n == v@.len(),
            v@ == repr@,
            vs@ == clouds_order(),
            token_views(tokens@) == clouds_canons(clouds_order()),
            forall|q: int| 0 <= q < p ==> spec_cloud_token_at(v@, q) is None,
        decreases n - p,
    {
        match find_match_at(&v, p, &tokens) {
            Option::Some(i) => {
                let k = vs[i];
                proof {
                    lemma_cloud_scan_prefix(v@, p as int);
                    assert(spec_cloud_scan(v@, 0) == Option::Some((k, p as int)));
                }
                let klen = tokens[i].len();
                proof {
                    assert(tokens@[i as int]@ == k.canon());
                    assert(p + klen <= n);
                    lemma_digit_run(v@, (p + klen) as int);
                }
                let start = p + klen;
                let dend = digit_run_end_exec(&v, start);
                let level = digits_to_i64_or_zero(&v, start, dend);
                return Option::Some(WxField::Clouds(k, level));
            },
            Option::None => {},
        }
        p = p + 1;
    }
    proof {
        lemma_cloud_scan_prefix(v@, n as int);
    }
    Option::None
}

/// The fields that the `repr` entries of a list of cloud nodes decode to, in
/// list order; entries without a text or without a coverage are skipped.
pub open spec fn spec_cloud_fields(items: Seq<ReportValue>) -> Seq<WxField>
    decreases items.len(),
{
    if items.len() == 0 {
        Seq::empty()
    } else {
        spec_cloud_fields(items.drop_last()) + spec_cloud_item_fields(items.last())
    }
}

/// The field one cloud node decodes to, if its `repr` text holds a layer.
pub open spec fn spec_cloud_item_fields(item: ReportValue) -> Seq<WxField> {
    match spec_get(item, "repr"@) {
        Option::Some(node) => match node {
            ReportValue::Text(t) => match spec_cloud_decode(t@) {
                Option::Some(kl) => seq![WxField::Clouds(kl.0, kl.1 as i64)],
                Option::None => Seq::empty(),
            },
            _ => Seq::empty(),
        },
        Option::None => Seq::empty(),
    }
}

/// What the `clouds` list of a report decodes to: each entry's layer, in
/// source order; a report without a `clouds` list has none.
pub open spec fn spec_clouds_from_json(json: ReportValue) -> Seq<WxField> {
    match spec_get(json, "clouds"@) {
        Option::Some(node) => match node {
            ReportValue::List(items) => spec_cloud_fields(items@),
            _ => Seq::empty(),
        },
        Option::None => Seq::empty(),
    }
}

/// Decode every entry of a report's `clouds` list, in order, skipping
/// entries that do not hold a layer.
pub fn get_clouds_from_json(json: &ReportValue) -> (r: Vec<WxField>)
    ensures
        r@ == spec_clouds_from_json(*json),
{
    let mut result: Vec<WxField> = Vec::new();
    match json.get("clouds") {
        Option::Some(node) => match node.as_list() {
            Option::Some(items) => {
                let n = items.len();
                let mut i: usize = 0;
                while i < n
                    invariant
                        i <= n,
                        n == items@.len(),
                        result@ == spec_cloud_fields(items@.take(i as int)),
                    decreases n - i,
                {
                    match items[i].get("repr") {
                        Option::Some(reprnode) => match reprnode.as_text() {
                            Option::Some(t) => match clouds_from_str(t.as_str()) {
                                Option::Some(field) => {
                                    result.push(field);
                                },
                                Option::None => {},
                            },
                            Option::None => {},
                        },
                        Option::None => {},
                    }
                    i = i + 1;
                    proof {
                        assert(items@.take(i as int).drop_last() =~= items@.take(i as int - 1));
                        assert(items@.take(i as int).last() == items@[i - 1]);
                        assert(result@ =~= spec_cloud_fields(items@.take(i as int)));
                    }
                }
                proof {
                    assert(items@.take(n as int) =~= items@);
                }
            },
            Option::None => {},
        },
        Option::None => {},
    }
    result
}

} // verus!
