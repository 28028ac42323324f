//! Weather-phenomenon tokens. A phenomenon is reported as a compact code
//! such as `-SHRA` or `TSGR`: an optional intensity sign, an optional
//! descriptor, a mandatory two-letter code, and an optional proximity
//! suffix. Each component is a closed set whose canonical text drives both
//! decoding and rendering, so the grammar and the enums cannot drift apart.

use vstd::prelude::*;

use crate::metar::WxField;
use crate::report::{spec_get, ReportValue};
use crate::text::{chars_match_at, find_fold_match, find_match_at, first_fold_match,
    first_match_at, joined_bar, joined_bar_skip_empty, match_at, str_chars, string_from_chars,
    join_bar_tokens, join_bar_tokens_skip_empty, token_views, TokenError};

verus! {

/// Standardised codes for weather phenomena.
#[derive(Debug, Clone, Copy, PartialEq, Eq, Structural)]
pub enum WxCode {
    /// Rain.
    Ra,
    /// Drizzle.
    Dz,
    /// Hail (diameter at least 5 mm).
    Gr,
    /// Small hail.
    Gs,
    /// Ice crystals.
    Ic,
    /// Ice pellets.
    Pl,
    /// Snow grains.
    Sg,
    /// Snow.
    Sn,
    /// Unknown precipitation (automated reports only).
    Up,
    /// Mist.
    Br,
    /// Widespread dust.
    Du,
    /// Fog.
    Fg,
    /// Smoke.
    Fu,
    /// Haze.
    Hz,
    /// Spray.
    Py,
    /// Sand.
    Sa,
    /// Volcanic ash.
    Va,
    /// Dust storm.
    Ds,
    /// Funnel clouds.
    Fc,
    /// Well-developed sand or dust whirls.
    Po,
    /// Squalls.
    Sq,
    /// Sandstorm.
    Ss,
}

/// A weather phenomenon's intensity.
#[derive(Debug, Clone, Copy, PartialEq, Eq, Structural)]
pub enum WxCodeIntensity {
    Moderate,
    Light,
    Heavy,
}

/// A weather phenomenon's distance from the reporting station.
#[derive(Debug, Clone, Copy, PartialEq, Eq, Structural)]
pub enum WxCodeProximity {
    /// On station.
    OnStation,
    /// In the vicinity of the station.
    Vicinity,
    /// More than ten miles from the station.
    Distant,
}

/// A qualifier that further describes a weather phenomenon.
#[derive(Debug, Clone, Copy, PartialEq, Eq, Structural)]
pub enum WxCodeDescription {
    /// No description.
    NoDescriptor,
    /// Thunderstorm.
    Ts,
    /// Patches.
    Bc,
    /// Blowing.
    Bl,
    /// Low drifting.
    Dr,
    /// Freezing.
    Fz,
    /// Shallow.
    Mi,
    /// Partial.
    Pr,
    /// Shower(s).
    Sh,
}

impl WxCode {
    /// The canonical two-letter text of this code.
    pub open spec fn canon(self) -> Seq<char> {
        match self {
            WxCode::Ra => "RA"@,
            WxCode::Dz => "DZ"@,
            WxCode::Gr => "GR"@,
            WxCode::Gs => "GS"@,
            WxCode::Ic => "IC"@,
            WxCode::Pl => "PL"@,
            WxCode::Sg => "SG"@,
            WxCode::Sn => "SN"@,
            WxCode::Up => "UP"@,
            WxCode::Br => "BR"@,
            WxCode::Du => "DU"@,
            WxCode::Fg => "FG"@,
            WxCode::Fu => "FU"@,
            WxCode::Hz => "HZ"@,
            WxCode::Py => "PY"@,
            WxCode::Sa => "SA"@,
            WxCode::Va => "VA"@,
            WxCode::Ds => "DS"@,
            WxCode::Fc => "FC"@,
            WxCode::Po => "PO"@,
            WxCode::Sq => "SQ"@,
            WxCode::Ss => "SS"@,
        }
    }

    /// The canonical text, as characters.
    pub fn canon_chars(&self) -> (r: Vec<char>)
        ensures
            r@ == self.canon(),
    {
        match self {
            WxCode::Ra => str_chars("RA"),
            WxCode::Dz => str_chars("DZ"),
            WxCode::Gr => str_chars("GR"),
            WxCode::Gs => str_chars("GS"),
            WxCode::Ic => str_chars("IC"),
            WxCode::Pl => str_chars("PL"),
            WxCode::Sg => str_chars("SG"),
            WxCode::Sn => str_chars("SN"),
            WxCode::Up => str_chars("UP"),
            WxCode::Br => str_chars("BR"),
            WxCode::Du => str_chars("DU"),
            WxCode::Fg => str_chars("FG"),
            WxCode::Fu => str_chars("FU"),
            WxCode::Hz => str_chars("HZ"),
            WxCode::Py => str_chars("PY"),
            WxCode::Sa => str_chars("SA"),
            WxCode::Va => str_chars("VA"),
            WxCode::Ds => str_chars("DS"),
            WxCode::Fc => str_chars("FC"),
            WxCode::Po => str_chars("PO"),
            WxCode::Sq => str_chars("SQ"),
            WxCode::Ss => str_chars("SS"),
        }
    }

    /// The canonical text, as a string.
    pub fn to_canonical_string(&self) -> (r: String)
        ensures
            r@ == self.canon(),
    {
        let chars = self.canon_chars();
        string_from_chars(&chars)
    }
}

/// All weather-phenomenon codes, in their declaration order — the order the
/// grammar tries them in.
pub open spec fn wxcode_order() -> Seq<WxCode> {
    seq![
        WxCode::Ra,
        WxCode::Dz,
        WxCode::Gr,
        WxCode::Gs,
        WxCode::Ic,
        WxCode::Pl,
        WxCode::Sg,
        WxCode::Sn,
        WxCode::Up,
        WxCode::Br,
        WxCode::Du,
        WxCode::Fg,
        WxCode::Fu,
        WxCode::Hz,
        WxCode::Py,
        WxCode::Sa,
        WxCode::Va,
        WxCode::Ds,
        WxCode::Fc,
        WxCode::Po,
        WxCode::Sq,
        WxCode::Ss,
    ]
}

/// The canonical texts of a sequence of codes.
pub open spec fn wxcode_canons(ks: Seq<WxCode>) -> Seq<Seq<char>> {
    ks.map_values(|k: WxCode| k.canon())
}

impl WxCode {
    /// Every code variant, in declaration order.
    pub fn variants() -> (r: Vec<WxCode>)
        ensures
            r@ == wxcode_order(),
    {
        let mut v: Vec<WxCode> = Vec::new();
        v.push(WxCode::Ra);
        v.push(WxCode::Dz);
        v.push(WxCode::Gr);
        v.push(WxCode::Gs);
        v.push(WxCode::Ic);
        v.push(WxCode::Pl);
        v.push(WxCode::Sg);
        v.push(WxCode::Sn);
        v.push(WxCode::Up);
        v.push(WxCode::Br);
        v.push(WxCode::Du);
        v.push(WxCode::Fg);
        v.push(WxCode::Fu);
        v.push(WxCode::Hz);
        v.push(WxCode::Py);
        v.push(WxCode::Sa);
        v.push(WxCode::Va);
        v.push(WxCode::Ds);
        v.push(WxCode::Fc);
        v.push(WxCode::Po);
        v.push(WxCode::Sq);
        v.push(WxCode::Ss);
        proof {
            assert(v@ =~= wxcode_order());
        }
        v
    }

    /// The alternation text matching any code, derived from the canonical
    /// texts of all variants.
    pub fn get_regex() -> (r: String)
        ensures
            r@ == joined_bar(wxcode_canons(wxcode_order())),
    {
        let vs = WxCode::variants();
        let tokens = wxcode_canon_tokens(&vs);
        let joined = join_bar_tokens(&tokens);
        string_from_chars(&joined)
    }

    /// Parse a code, case-insensitively.
    pub fn from_str(s: &str) -> (r: Result<WxCode, TokenError>)
        ensures
            (match r {
                Result::Ok(k) => spec_wxcode_from(s@) == Option::Some(k),
                Result::Err(_) => spec_wxcode_from(s@) is None,
            }),
    {
        let v = str_chars(s);
        let vs = WxCode::variants();
        let tokens = wxcode_canon_tokens(&vs);
        match find_fold_match(&v, &tokens) {
            Option::Some(i) => Result::Ok(vs[i]),
            Option::None => Result::Err(TokenError),
        }
    }
}

/// The code a token names: the first variant whose canonical text matches,
/// case-insensitively.
pub open spec fn spec_wxcode_from(s: Seq<char>) -> Option<WxCode> {
    match first_fold_match(s, wxcode_canons(wxcode_order())) {
        Option::Some(i) => Option::Some(wxcode_order()[i]),
        Option::None => Option::None,
    }
}

/// The canonical texts of the given codes, as character vectors.
fn wxcode_canon_tokens(vs: &Vec<WxCode>) -> (r: Vec<Vec<char>>)
    ensures
        token_views(r@) == wxcode_canons(vs@),
{
    let n = vs.len();
    let mut tokens: Vec<Vec<char>> = Vec::new();
    let mut i: usize = 0;
    while i < n
        invariant
            i <= n,
            n == vs@.len(),
            tokens@.len() == i,
            forall|j: int| 0 <= j < i ==> #[trigger] tokens@[j]@ == vs@[j].canon(),
        decreases n - i,
    {
        tokens.push(vs[i].canon_chars());
        i = i + 1;
    }
    proof {
        assert forall|j: int| 0 <= j < vs@.len() implies token_views(tokens@)[j] == wxcode_canons(
            vs@,
        )[j] by {
            assert(tokens@[j]@ == vs@[j].canon());
        }
        assert(token_views(tokens@) =~= wxcode_canons(vs@));
    }
    tokens
}

impl WxCodeIntensity {
    /// The canonical text of this intensity: nothing for moderate, a sign
    /// otherwise.
    pub open spec fn canon(self) -> Seq<char> {
        match self {
            WxCodeIntensity::Moderate => ""@,
            WxCodeIntensity::Light => "-"@,
            WxCodeIntensity::Heavy => "+"@,
        }
    }

    /// The canonical text, as characters.
    pub fn canon_chars(&self) -> (r: Vec<char>)
        ensures
            r@ == self.canon(),
    {
        match self {
            WxCodeIntensity::Moderate => str_chars(""),
            WxCodeIntensity::Light => str_chars("-"),
            WxCodeIntensity::Heavy => str_chars("+"),
        }
    }

    /// The canonical text, as a string.
    pub fn to_canonical_string(&self) -> (r: String)
        ensures
            r@ == self.canon(),
    {
        let chars = self.canon_chars();
        string_from_chars(&chars)
    }

    /// Every intensity variant, in declaration order.
    pub fn variants() -> (r: Vec<WxCodeIntensity>)
        ensures
            r@ == wxintensity_order(),
    {
        let mut v: Vec<WxCodeIntensity> = Vec::new();
        v.push(WxCodeIntensity::Moderate);
        v.push(WxCodeIntensity::Light);
        v.push(WxCodeIntensity::Heavy);
        proof {
            assert(v@ =~= wxintensity_order());
        }
        v
    }

    /// The alternation text matching an explicit intensity sign. The plus
    /// sign is escaped, as the moderate intensity has no text of its own.
    pub fn get_regex() -> (r: String)
        ensures
            r@ == "[+]|-"@,
    {
        let chars = str_chars("[+]|-");
        string_from_chars(&chars)
    }

    /// Parse an intensity, case-insensitively.
    pub fn from_str(s: &str) -> (r: Result<WxCodeIntensity, TokenError>)
        ensures
            (match r {
                Result::Ok(k) => spec_wxintensity_from(s@) == Option::Some(k),
                Result::Err(_) => spec_wxintensity_from(s@) is None,
            }),
    {
        let v = str_chars(s);
        let vs = WxCodeIntensity::variants();
        let tokens = wxintensity_canon_tokens(&vs);
        match find_fold_match(&v, &tokens) {
            Option::Some(i) => Result::Ok(vs[i]),
            Option::None => Result::Err(TokenError),
        }
    }
}

/// All intensities, in their declaration order.
pub open spec fn wxintensity_order() -> Seq<WxCodeIntensity> {
    seq![WxCodeIntensity::Moderate, WxCodeIntensity::Light, WxCodeIntensity::Heavy]
}

/// The canonical texts of a sequence of intensities.
pub open spec fn wxintensity_canons(ks: Seq<WxCodeIntensity>) -> Seq<Seq<char>> {
    ks.map_values(|k: WxCodeIntensity| k.canon())
}

/// The intensity a token names: the first variant whose canonical text
/// matches, case-insensitively.
pub open spec fn spec_wxintensity_from(s: Seq<char>) -> Option<WxCodeIntensity> {
    match first_fold_match(s, wxintensity_canons(wxintensity_order())) {
        Option::Some(i) => Option::Some(wxintensity_order()[i]),
        Option::None => Option::None,
    }
}

/// The canonical texts of the given intensities, as character vectors.
fn wxintensity_canon_tokens(vs: &Vec<WxCodeIntensity>) -> (r: Vec<Vec<char>>)
    ensures
        token_views(r@) == wxintensity_canons(vs@),
{
    let n = vs.len();
    let mut tokens: Vec<Vec<char>> = Vec::new();
    let mut i: usize = 0;
    while i < n
        invariant
            i <= n,
            n == vs@.len(),
            tokens@.len() == i,
            forall|j: int| 0 <= j < i ==> #[trigger] tokens@[j]@ == vs@[j].canon(),
        decreases n - i,
    {
        tokens.push(vs[i].canon_chars());
        i = i + 1;
    }
    proof {
        assert forall|j: int|
            0 <= j < vs@.len() implies token_views(tokens@)[j] == wxintensity_canons(
            vs@,
        )[j] by {
            assert(tokens@[j]@ == vs@[j].canon());
        }
        assert(token_views(tokens@) =~= wxintensity_canons(vs@));
    }
    tokens
}

impl WxCodeProximity {
    /// The canonical text of this proximity: nothing for on-station.
    pub open spec fn canon(self) -> Seq<char> {
        match self {
            WxCodeProximity::OnStation => ""@,
            WxCodeProximity::Vicinity => "VC"@,
            WxCodeProximity::Distant => "DSNT"@,
        }
    }

    /// The canonical text, as characters.
    pub fn canon_chars(&self) -> (r: Vec<char>)
        ensures
            r@ == self.canon(),
    {
        match self {
            WxCodeProximity::OnStation => str_chars(""),
            WxCodeProximity::Vicinity => str_chars("VC"),
            WxCodeProximity::Distant => str_chars("DSNT"),
        }
    }

    /// The canonical text, as a string.
    pub fn to_canonical_string(&self) -> (r: String)
        ensures
            r@ == self.canon(),
    {
        let chars = self.canon_chars();
        string_from_chars(&chars)
    }

    /// Every proximity variant, in declaration order.
    pub fn variants() -> (r: Vec<WxCodeProximity>)
        ensures
            r@ == wxproximity_order(),
    {
        let mut v: Vec<WxCodeProximity> = Vec::new();
        v.push(WxCodeProximity::OnStation);
        v.push(WxCodeProximity::Vicinity);
        v.push(WxCodeProximity::Distant);
        proof {
            assert(v@ =~= wxproximity_order());
        }
        v
    }

    /// The alternation text over all proximities, derived from the canonical
    /// texts of all variants; the empty on-station text contributes an empty
    /// alternative.
    pub fn get_regex() -> (r: String)
        ensures
            r@ == joined_bar(wxproximity_canons(wxproximity_order())),
    {
        let vs = WxCodeProximity::variants();
        let tokens = wxproximity_canon_tokens(&vs);
        let joined = join_bar_tokens(&tokens);
        string_from_chars(&joined)
    }

    /// Parse a proximity, case-insensitively; the empty text is on-station.
    pub fn from_str(s: &str) -> (r: Result<WxCodeProximity, TokenError>)
        ensures
            (match r {
                Result::Ok(k) => spec_wxproximity_from(s@) == Option::Some(k),
                Result::Err(_) => spec_wxproximity_from(s@) is None,
            }),
    {
        let v = str_chars(s);
        let vs = WxCodeProximity::variants();
        let tokens = wxproximity_canon_tokens(&vs);
        match find_fold_match(&v, &tokens) {
            Option::Some(i) => Result::Ok(vs[i]),
            Option::None => Result::Err(TokenError),
        }
    }
}

/// All proximities, in their declaration order.
pub open spec fn wxproximity_order() -> Seq<WxCodeProximity> {
    seq![WxCodeProximity::OnStation, WxCodeProximity::Vicinity, WxCodeProximity::Distant]
}

/// The canonical texts of a sequence of proximities.
pub open spec fn wxproximity_canons(ks: Seq<WxCodeProximity>) -> Seq<Seq<char>> {
    ks.map_values(|k: WxCodeProximity| k.canon())
}

/// The proximity a token names: the first variant whose canonical text
/// matches, case-insensitively.
pub open spec fn spec_wxproximity_from(s: Seq<char>) -> Option<WxCodeProximity> {
    match first_fold_match(s, wxproximity_canons(wxproximity_order())) {
        Option::Some(i) => Option::Some(wxproximity_order()[i]),
        Option::None => Option::None,
    }
}

/// The canonical texts of the given proximities, as character vectors.
fn wxproximity_canon_tokens(vs: &Vec<WxCodeProximity>) -> (r: Vec<Vec<char>>)
    ensures
        token_views(r@) == wxproximity_canons(vs@),
{
    let n = vs.len();
    let mut tokens: Vec<Vec<char>> = Vec::new();
    let mut i: usize = 0;
    while i < n
        invariant
            i <= n,
            n == vs@.len(),
            tokens@.len() == i,
            forall|j: int| 0 <= j < i ==> #[trigger] tokens@[j]@ == vs@[j].canon(),
        decreases n - i,
    {
        tokens.push(vs[i].canon_chars());
        i = i + 1;
    }
    proof {
        assert forall|j: int|
            0 <= j < vs@.len() implies token_views(tokens@)[j] == wxproximity_canons(
            vs@,
        )[j] by {
            assert(tokens@[j]@ == vs@[j].canon());
        }
        assert(token_views(tokens@) =~= wxproximity_canons(vs@));
    }
    tokens
}

impl WxCodeDescription {
    /// The canonical text of this descriptor: nothing when there is none.
    pub open spec fn canon(self) -> Seq<char> {
        match self {
            WxCodeDescription::NoDescriptor => ""@,
            WxCodeDescription::Ts => "TS"@,
            WxCodeDescription::Bc => "BC"@,
            WxCodeDescription::Bl => "BL"@,
            WxCodeDescription::Dr => "DR"@,
            WxCodeDescription::Fz => "FZ"@,
            WxCodeDescription::Mi => "MI"@,
            WxCodeDescription::Pr => "PR"@,
            WxCodeDescription::Sh => "SH"@,
        }
    }

    /// The canonical text, as characters.
    pub fn canon_chars(&self) -> (r: Vec<char>)
        ensures
            r@ == self.canon(),
    {
        match self {
            WxCodeDescription::NoDescriptor => str_chars(""),
            WxCodeDescription::Ts => str_chars("TS"),
            WxCodeDescription::Bc => str_chars("BC"),
            WxCodeDescription::Bl => str_chars("BL"),
            WxCodeDescription::Dr => str_chars("DR"),
            WxCodeDescription::Fz => str_chars("FZ"),
            WxCodeDescription::Mi => str_chars("MI"),
            WxCodeDescription::Pr => str_chars("PR"),
            WxCodeDescription::Sh => str_chars("SH"),
        }
    }

    /// The canonical text, as a string.
    pub fn to_canonical_string(&self) -> (r: String)
        ensures
            r@ == self.canon(),
    {
        let chars = self.canon_chars();
        string_from_chars(&chars)
    }

    /// Every descriptor variant, in declaration order.
    pub fn variants() -> (r: Vec<WxCodeDescription>)
        ensures
            r@ == wxdescription_order(),
    {
        let mut v: Vec<WxCodeDescription> = Vec::new();
        v.push(WxCodeDescription::NoDescriptor);
        v.push(WxCodeDescription::Ts);
        v.push(WxCodeDescription::Bc);
        v.push(WxCodeDescription::Bl);
        v.push(WxCodeDescription::Dr);
        v.push(WxCodeDescription::Fz);
        v.push(WxCodeDescription::Mi);
        v.push(WxCodeDescription::Pr);
        v.push(WxCodeDescription::Sh);
        proof {
            assert(v@ =~= wxdescription_order());
        }
        v
    }

    /// The alternation text over the descriptors with a visible text,
    /// derived from the canonical texts of all variants.
    pub fn get_regex() -> (r: String)
        ensures
            r@ == joined_bar_skip_empty(wxdescription_canons(wxdescription_order())),
    {
        let vs = WxCodeDescription::variants();
        let tokens = wxdescription_canon_tokens(&vs);
        let joined = join_bar_tokens_skip_empty(&tokens);
        string_from_chars(&joined)
    }

    /// Parse a descriptor, case-insensitively; the empty text is the absent
    /// descriptor.
    pub fn from_str(s: &str) -> (r: Result<WxCodeDescription, TokenError>)
        ensures
            (match r {
                Result::Ok(k) => spec_wxdescription_from(s@) == Option::Some(k),
                Result::Err(_) => spec_wxdescription_from(s@) is None,
            }),
    {
        let v = str_chars(s);
        let vs = WxCodeDescription::variants();
        let tokens = wxdescription_canon_tokens(&vs);
        match find_fold_match(&v, &tokens) {
            Option::Some(i) => Result::Ok(vs[i]),
            Option::None => Result::Err(TokenError),
        }
    }
}

/// All descriptors, in their declaration order.
pub open spec fn wxdescription_order() -> Seq<WxCodeDescription> {
    seq![
        WxCodeDescription::NoDescriptor,
        WxCodeDescription::Ts,
        WxCodeDescription::Bc,
        WxCodeDescription::Bl,
        WxCodeDescription::Dr,
        WxCodeDescription::Fz,
        WxCodeDescription::Mi,
        WxCodeDescription::Pr,
        WxCodeDescription::Sh,
    ]
}

/// The canonical texts of a sequence of descriptors.
pub open spec fn wxdescription_canons(ks: Seq<WxCodeDescription>) -> Seq<Seq<char>> {
    ks.map_values(|k: WxCodeDescription| k.canon())
}

/// The descriptor a token names: the first variant whose canonical text
/// matches, case-insensitively.
pub open spec fn spec_wxdescription_from(s: Seq<char>) -> Option<WxCodeDescription> {
    match first_fold_match(s, wxdescription_canons(wxdescription_order())) {
        Option::Some(i) => Option::Some(wxdescription_order()[i]),
        Option::None => Option::None,
    }
}

/// The canonical texts of the given descriptors, as character vectors.
fn wxdescription_canon_tokens(vs: &Vec<WxCodeDescription>) -> (r: Vec<Vec<char>>)
    ensures
        token_views(r@) == wxdescription_canons(vs@),
{
    let n = vs.len();
    let mut tokens: Vec<Vec<char>> = Vec::new();
    let mut i: usize = 0;
    while i < n
        invariant
            i <= n,
            n == vs@.len(),
            tokens@.len() == i,
            forall|j: int| 0 <= j < i ==> #[trigger] tokens@[j]@ == vs@[j].canon(),
        decreases n - i,
    {
        tokens.push(vs[i].canon_chars());
        i = i + 1;
    }
    proof {
        assert forall|j: int|
            0 <= j < vs@.len() implies token_views(tokens@)[j] == wxdescription_canons(
            vs@,
        )[j] by {
            assert(tokens@[j]@ == vs@[j].canon());
        }
        assert(token_views(tokens@) =~= wxdescription_canons(vs@));
    }
    tokens
}

/// The descriptors with a visible canonical text, in declaration order —
/// the alternatives of the grammar's descriptor group.
pub open spec fn wxdescription_explicit_order() -> Seq<WxCodeDescription> {
    seq![
        WxCodeDescription::Ts,
        WxCodeDescription::Bc,
        WxCodeDescription::Bl,
        WxCodeDescription::Dr,
        WxCodeDescription::Fz,
        WxCodeDescription::Mi,
        WxCodeDescription::Pr,
        WxCodeDescription::Sh,
    ]
}

/// The descriptor variants with a visible text, in declaration order.
fn wxdescription_explicit_variants() -> (r: Vec<WxCodeDescription>)
    ensures
        r@ == wxdescription_explicit_order(),
{
    let mut v: Vec<WxCodeDescription> = Vec::new();
    v.push(WxCodeDescription::Ts);
    v.push(WxCodeDescription::Bc);
    v.push(WxCodeDescription::Bl);
    v.push(WxCodeDescription::Dr);
    v.push(WxCodeDescription::Fz);
    v.push(WxCodeDescription::Mi);
    v.push(WxCodeDescription::Pr);
    v.push(WxCodeDescription::Sh);
    proof {
        assert(v@ =~= wxdescription_explicit_order());
    }
    v
}

/// A decoded weather phenomenon: code, intensity, proximity, descriptor.
pub type WxPhenomenon = (WxCode, WxCodeIntensity, WxCodeProximity, WxCodeDescription);

/// The explicit intensity sign at `p`, if any; the grammar tries the heavy
/// sign first, then the light one.
pub open spec fn spec_wx_intensity_at(s: Seq<char>, p: int) -> Option<WxCodeIntensity> {
    if match_at(s, p, "+"@) {
        Option::Some(WxCodeIntensity::Heavy)
    } else if match_at(s, p, "-"@) {
        Option::Some(WxCodeIntensity::Light)
    } else {
        Option::None
    }
}

/// The explicit descriptor at `p`, if any, tried in declaration order.
pub open spec fn spec_wx_descr_at(s: Seq<char>, p: int) -> Option<WxCodeDescription> {
    match first_match_at(s, p, wxdescription_canons(wxdescription_explicit_order())) {
        Option::Some(i) => Option::Some(wxdescription_explicit_order()[i]),
        Option::None => Option::None,
    }
}

/// The phenomenon code at `p`, if any, tried in declaration order.
pub open spec fn spec_wx_code_at(s: Seq<char>, p: int) -> Option<WxCode> {
    match first_match_at(s, p, wxcode_canons(wxcode_order())) {
        Option::Some(i) => Option::Some(wxcode_order()[i]),
        Option::None => Option::None,
    }
}

/// The proximity read at `p`: an explicit suffix when one occurs there, and
/// on-station otherwise.
pub open spec fn spec_wx_prox_at(s: Seq<char>, p: int) -> WxCodeProximity {
    if match_at(s, p, "VC"@) {
        WxCodeProximity::Vicinity
    } else if match_at(s, p, "DSNT"@) {
        WxCodeProximity::Distant
    } else {
        WxCodeProximity::OnStation
    }
}

/// A mandatory code at `q` followed by its proximity, with no descriptor.
pub open spec fn spec_wx_code_prox(s: Seq<char>, q: int, ii: WxCodeIntensity) -> Option<
    WxPhenomenon,
> {
    match spec_wx_code_at(s, q) {
        Option::Some(c) => Option::Some(
            (c, ii, spec_wx_prox_at(s, q + c.canon().len()), WxCodeDescription::NoDescriptor),
        ),
        Option::None => Option::None,
    }
}

/// Match descriptor, code and proximity at `q` under a fixed intensity: a
/// present descriptor is preferred, and given up when no code follows it.
pub open spec fn spec_wx_match_di(s: Seq<char>, q: int, ii: WxCodeIntensity) -> Option<
    WxPhenomenon,
> {
    match spec_wx_descr_at(s, q) {
        Option::Some(dd) => match spec_wx_code_at(s, q + dd.canon().len()) {
            Option::Some(c) => Option::Some(
                (c, ii, spec_wx_prox_at(s, q + dd.canon().len() + c.canon().len()), dd),
            ),
            Option::None => spec_wx_code_prox(s, q, ii),
        },
        Option::None => spec_wx_code_prox(s, q, ii),
    }
}

/// Match a whole phenomenon at `p`: a present intensity sign is preferred,
/// and given up when nothing matches after it.
pub open spec fn spec_wx_match_at(s: Seq<char>, p: int) -> Option<WxPhenomenon> {
    match spec_wx_intensity_at(s, p) {
        Option::Some(ii) => match spec_wx_match_di(s, p + ii.canon().len(), ii) {
            Option::Some(r) => Option::Some(r),
            Option::None => spec_wx_match_di(s, p, WxCodeIntensity::Moderate),
        },
        Option::None => spec_wx_match_di(s, p, WxCodeIntensity::Moderate),
    }
}

/// The leftmost phenomenon match at or after `p`.
pub open spec fn spec_wx_scan(s: Seq<char>, p: int) -> Option<WxPhenomenon>
    decreases s.len() - p,
{
    if p < 0 || p >= s.len() {
        Option::None
    } else {
        match spec_wx_match_at(s, p) {
            Option::Some(r) => Option::Some(r),
            Option::None => spec_wx_scan(s, p + 1),
        }
    }
}

/// When no phenomenon matches before `p`, scanning from the start is
/// scanning from `p`.
proof fn lemma_wx_scan_prefix(s: Seq<char>, p: int)
    requires
        0 <= p <= s.len(),
        forall|q: int| 0 <= q < p ==> spec_wx_match_at(s, q) is None,
    ensures
        spec_wx_scan(s, 0) == spec_wx_scan(s, p),
    decreases p,
{
    if p > 0 {
        lemma_wx_scan_prefix(s, p - 1);
    }
}

/// What a phenomenon token decodes to: the leftmost match of
/// intensity-descriptor-code-proximity, or nothing.
pub open spec fn spec_wx_decode(s: Seq<char>) -> Option<WxPhenomenon> {
    spec_wx_scan(s, 0)
}

/// Match descriptor, code and proximity at `q` under a fixed intensity.
fn wx_match_di_exec(
    v: &Vec<char>,
    q: usize,
    ii: WxCodeIntensity,
    codes: &Vec<WxCode>,
    code_tokens: &Vec<Vec<char>>,
    descr_tokens: &Vec<Vec<char>>,
) -> (r: Option<WxPhenomenon>)
    requires
        q <= v.len(),
        codes@ == wxcode_order(),
        token_views(code_tokens@) == wxcode_canons(wxcode_order()),
        token_views(descr_tokens@) == wxdescription_canons(wxdescription_explicit_order()),
    ensures
        r == spec_wx_match_di(v@, q as int, ii),
{
    let descrs = wxdescription_explicit_variants();
    match find_match_at(v, q, descr_tokens) {
        Option::Some(di) => {
            let dd = descrs[di];
            let dlen = descr_tokens[di].len();
            proof {
                assert(spec_wx_descr_at(v@, q as int) == Option::Some(dd));
                assert(token_views(descr_tokens@)[di as int] == dd.canon());
            }
            match find_match_at(v, q + dlen, code_tokens) {
                Option::Some(ci) => {
                    let clen = code_tokens[ci].len();
                    proof {
                        assert(token_views(code_tokens@)[ci as int] == codes@[ci as int].canon());
                    }
                    Option::Some((codes[ci], ii, wx_prox_at_exec(v, q + dlen + clen), dd))
                },
                Option::None => wx_code_then_prox(v, q, ii, codes, code_tokens),
            }
        },
        Option::None => wx_code_then_prox(v, q, ii, codes, code_tokens),
    }
}

/// Match a mandatory code at `q` followed by its proximity, with no
/// descriptor.
fn wx_code_then_prox(
    v: &Vec<char>,
    q: usize,
    ii: WxCodeIntensity,
    codes: &Vec<WxCode>,
    code_tokens: &Vec<Vec<char>>,
) -> (r: Option<WxPhenomenon>)
    requires
        q <= v.len(),
        codes@ == wxcode_order(),
        token_views(code_tokens@) == wxcode_canons(wxcode_order()),
    ensures
        r == spec_wx_code_prox(v@, q as int, ii),
{
    match find_match_at(v, q, code_tokens) {
        Option::Some(ci) => {
            let clen = code_tokens[ci].len();
            proof {
                assert(token_views(code_tokens@)[ci as int] == codes@[ci as int].canon());
            }
            Option::Some(
                (codes[ci], ii, wx_prox_at_exec(v, q + clen), WxCodeDescription::NoDescriptor),
            )
        },
        Option::None => Option::None,
    }
}

/// The proximity read at `p`.
fn wx_prox_at_exec(v: &Vec<char>, p: usize) -> (r: WxCodeProximity)
    ensures
        r == spec_wx_prox_at(v@, p as int),
{
    let vc = str_chars("VC");
    let dsnt = str_chars("DSNT");
    if chars_match_at(v, p, &vc) {
        WxCodeProximity::Vicinity
    } else if chars_match_at(v, p, &dsnt) {
        WxCodeProximity::Distant
    } else {
        WxCodeProximity::OnStation
    }
}

/// Decode a weather-phenomenon token: the leftmost match of an optional
/// intensity sign, an optional descriptor, a mandatory code and an optional
/// proximity suffix. A token without any code decodes to nothing.
pub fn wxcode_from_str(repr: &str) -> (r: Option<WxField>)
    ensures
        (match r {
            Option::Some(f) => spec_wx_decode(repr@) matches Option::Some(ph) && f
                == WxField::WxCode(ph.0, ph.1, ph.2, ph.3),
            Option::None => spec_wx_decode(repr@) is None,
        }),
{
    let v = str_chars(repr);
    let codes = WxCode::variants();
    let code_tokens = wxcode_canon_tokens(&codes);
    let descrs = wxdescription_explicit_variants();
    let descr_tokens = wxdescription_canon_tokens(&descrs);
    let plus = str_chars("+");
    let minus = str_chars("-");
    let n = v.len();
    let mut p: usize = 0;
    while p < n
        invariant
            p <= n,
            n == v@.len(),
            v@ == repr@,
            codes@ == wxcode_order(),
            token_views(code_tokens@) == wxcode_canons(wxcode_order()),
            token_views(descr_tokens@) == wxdescription_canons(wxdescription_explicit_order()),
            plus@ == "+"@,
            minus@ == "-"@,
            forall|q: int| 0 <= q < p ==> spec_wx_match_at(v@, q) is None,
        decreases n - p,
    {
        let hit: Option<WxPhenomenon>;
        if chars_match_at(&v, p, &plus) {
            match wx_match_di_exec(&v, p + plus.len(), WxCodeIntensity::Heavy, &codes, &code_tokens, &descr_tokens) {
                Option::Some(r0) => {
                    hit = Option::Some(r0);
                },
                Option::None => {
                    hit = wx_match_di_exec(&v, p, WxCodeIntensity::Moderate, &codes, &code_tokens, &descr_tokens);
                },
            }
        } else if chars_match_at(&v, p, &minus) {
            match wx_match_di_exec(&v, p + minus.len(), WxCodeIntensity::Light, &codes, &code_tokens, &descr_tokens) {
                Option::Some(r0) => {
                    hit = Option::Some(r0);
                },
                Option::None => {
                    hit = wx_match_di_exec(&v, p, WxCodeIntensity::Moderate, &codes, &code_tokens, &descr_tokens);
                },
            }
        } else {
            hit = wx_match_di_exec(&v, p, WxCodeIntensity::Moderate, &codes, &code_tokens, &descr_tokens);
        }
        proof {
            assert(hit == spec_wx_match_at(v@, p as int));
        }
        match hit {
            Option::Some(ph) => {
                proof {
                    lemma_wx_scan_prefix(v@, p as int);
                }
                return Option::Some(WxField::WxCode(ph.0, ph.1, ph.2, ph.3));
            },
            Option::None => {},
        }
        p = p + 1;
    }
    proof {
        lemma_wx_scan_prefix(v@, n as int);
    }
    Option::None
}

/// The fields that the `repr` entries of a list of phenomenon nodes decode
/// to, in list order; entries without a text or without a code are skipped.
pub open spec fn spec_wx_fields(items: Seq<ReportValue>) -> Seq<WxField>
    decreases items.len(),
{
    if items.len() == 0 {
        Seq::empty()
    } else {
        spec_wx_fields(items.drop_last()) + spec_wx_item_fields(items.last())
    }
}

/// The field one phenomenon node decodes to, if its `repr` text holds one.
pub open spec fn spec_wx_item_fields(item: ReportValue) -> Seq<WxField> {
    match spec_get(item, "repr"@) {
        Option::Some(node) => match node {
            ReportValue::Text(t) => match spec_wx_decode(t@) {
                Option::Some(ph) => seq![WxField::WxCode(ph.0, ph.1, ph.2, ph.3)],
                Option::None => Seq::empty(),
            },
            _ => Seq::empty(),
        },
        Option::None => Seq::empty(),
    }
}

/// What the `wx_codes` list of a report decodes to: each entry's
/// phenomenon, in source order; a report without a `wx_codes` list has none.
pub open spec fn spec_wxcodes_from_json(json: ReportValue) -> Seq<WxField> {
    match spec_get(json, "wx_codes"@) {
        Option::Some(node) => match node {
            ReportValue::List(items) => spec_wx_fields(items@),
            _ => Seq::empty(),
        },
        Option::None => Seq::empty(),
    }
}

/// Decode every entry of a report's `wx_codes` list, in order, skipping
/// entries that do not hold a phenomenon.
pub fn get_wxcodes_from_json(json: &ReportValue) -> (r: Vec<WxField>)
    ensures
        r@ == spec_wxcodes_from_json(*json),
{
    let mut result: Vec<WxField> = Vec::new();
    match json.get("wx_codes") {
        Option::Some(node) => match node.as_list() {
            Option::Some(items) => {
                let n = items.len();
                let mut i: usize = 0;
                while i < n
                    invariant
                        i <= n,
                        n == items@.len(),
                        result@ == spec_wx_fields(items@.take(i as int)),
                    decreases n - i,
                {
                    match items[i].get("repr") {
                        Option::Some(reprnode) => match reprnode.as_text() {
                            Option::Some(t) => match wxcode_from_str(t.as_str()) {
                                Option::Some(field) => {
                                    result.push(field);
                                },
                                Option::None => {},
                            },
                            Option::None => {},
                        },
                        Option::None => {},
                    }
                    i = i + 1;
                    proof {
                        assert(items@.take(i as int).drop_last() =~= items@.take(i as int - 1));
                        assert(items@.take(i as int).last() == items@[i - 1]);
                        assert(result@ =~= spec_wx_fields(items@.take(i as int)));
                    }
                }
                proof {
                    assert(items@.take(n as int) =~= items@);
                }
            },
            Option::None => {},
        },
        Option::None => {},
    }
    result
}

} // verus!
