//! Instants in time. A report carries its issue time as an ISO-8601-style
//! text (`2024-06-21T05:50:00Z`); decoding turns it into seconds since the
//! Unix epoch together with the UTC calendar fields the renderer prints.
//! The calendar arithmetic follows the standard era-based civil-date
//! algorithms over a shifted, non-negative day count.

use vstd::prelude::*;

use crate::text::{digit_run_end, dval, is_digit};

verus! {

/// Seconds between the earliest representable instant (year 0, with the
/// widest offset) and the Unix epoch, used to shift all calendar arithmetic
/// into non-negative numbers: 865565 days — 719468 days back to the civil
/// era base plus one whole 400-year era — of 86400 seconds.
pub const EPOCH_SHIFT: i64 = 74784816000;

/// Instants of years 0 through 9999, any offset, fall in this range.
pub open spec fn epoch_in_range(e: int) -> bool {
    -62167305600 <= e <= 253402387200
}

/// A point in time: seconds since the Unix epoch, plus the UTC calendar
/// fields the renderer prints (day of month, hour, minute).
#[derive(Debug, Clone, Copy, PartialEq, Eq, Structural)]
pub struct Instant {
    pub epoch_sec: i64,
    pub day: u8,
    pub hour: u8,
    pub minute: u8,
}

/// A year divisible by four is a leap year, unless it closes a century that
/// is not divisible by four hundred.
pub open spec fn is_leap_year(y: int) -> bool {
    y % 4 == 0 && (y % 100 != 0 || y % 400 == 0)
}

/// The number of days of month `m` in year `y`.
pub open spec fn days_in_month(y: int, m: int) -> int {
    if m == 2 {
        if is_leap_year(y) {
            29
        } else {
            28
        }
    } else if m == 4 || m == 6 || m == 9 || m == 11 {
        30
    } else {
        31
    }
}

/// Day of the March-based year for civil month `m` and day `d`, zero-based.
pub open spec fn spec_doy(m: int, d: int) -> int {
    (153 * (if m > 2 {
        m - 3
    } else {
        m + 9
    }) + 2) / 5 + d - 1
}

/// Days from the Unix epoch to civil date `y`-`m`-`d`, negative for earlier
/// dates.
pub open spec fn spec_days_from_civil(y: int, m: int, d: int) -> int {
    let yy = if m <= 2 {
        y + 399
    } else {
        y + 400
    };
    let era = yy / 400;
    let yoe = yy - era * 400;
    let doe = yoe * 365 + yoe / 4 - yoe / 100 + spec_doy(m, d);
    era * 146097 + doe - 719468 - 146097
}

/// Seconds from the Unix epoch for the given civil time and offset minutes.
pub open spec fn spec_epoch_of(
    y: int,
    m: int,
    d: int,
    hh: int,
    mi: int,
    ss: int,
    offmin: int,
) -> int {
    spec_days_from_civil(y, m, d) * 86400 + hh * 3600 + mi * 60 + ss - offmin * 60
}

/// The UTC day of month of an epoch second, computed over the shifted day
/// count with the standard era decomposition.
pub open spec fn spec_day_of_epoch(e: int) -> int {
    let z = (e + EPOCH_SHIFT) / 86400;
    let era = z / 146097;
    let doe = z - era * 146097;
    let yoe = (doe - doe / 1460 + doe / 36524 - doe / 146096) / 365;
    let doy = doe - (365 * yoe + yoe / 4 - yoe / 100);
    let mp = (5 * doy + 2) / 153;
    doy - (153 * mp + 2) / 5 + 1
}

/// The UTC hour of day of an epoch second.
pub open spec fn spec_hour_of_epoch(e: int) -> int {
    ((e + EPOCH_SHIFT) % 86400) / 3600
}

/// The UTC minute of hour of an epoch second.
pub open spec fn spec_minute_of_epoch(e: int) -> int {
    (((e + EPOCH_SHIFT) % 86400) % 3600) / 60
}

/// The instant a given epoch second denotes, its calendar fields computed
/// from the epoch.
pub open spec fn spec_instant_of_epoch(e: int) -> Instant {
    Instant {
        epoch_sec: e as i64,
        day: spec_day_of_epoch(e) as u8,
        hour: spec_hour_of_epoch(e) as u8,
        minute: spec_minute_of_epoch(e) as u8,
    }
}

impl Instant {
    /// The calendar fields agree with the epoch second.
    pub open spec fn wf(self) -> bool {
        &&& epoch_in_range(self.epoch_sec as int)
        &&& self.day as int == spec_day_of_epoch(self.epoch_sec as int)
        &&& self.hour as int == spec_hour_of_epoch(self.epoch_sec as int)
        &&& self.minute as int == spec_minute_of_epoch(self.epoch_sec as int)
    }
}

/// Days from the Unix epoch to the given civil date.
fn days_from_civil(y: i64, m: i64, d: i64) -> (r: i64)
    requires
        0 <= y <= 9999,
        1 <= m <= 12,
        1 <= d <= 31,
    ensures
        r == spec_days_from_civil(y as int, m as int, d as int),
        -719529 <= r <= 2932897,
{
    let yy: i64 = if m <= 2 {
        y + 399
    } else {
        y + 400
    };
    let era: i64 = yy / 400;
    let yoe: i64 = yy - era * 400;
    let mp: i64 = if m > 2 {
        m - 3
    } else {
        m + 9
    };
    let doy: i64 = (153 * mp + 2) / 5 + d - 1;
    let doe: i64 = yoe * 365 + yoe / 4 - yoe / 100 + doy;
    era * 146097 + doe - 719468 - 146097
}

/// The UTC day of month, hour and minute of an epoch second.
fn civil_of_epoch(e: i64) -> (r: (u8, u8, u8))
    requires
        epoch_in_range(e as int),
    ensures
        r.0 as int == spec_day_of_epoch(e as int),
        r.1 as int == spec_hour_of_epoch(e as int),
        r.2 as int == spec_minute_of_epoch(e as int),
{
    let shifted: u64 = (e + EPOCH_SHIFT) as u64;
    let z: u64 = shifted / 86400;
    let sod: u64 = shifted % 86400;
    let era: u64 = z / 146097;
    let doe: u64 = z - era * 146097;
    assert(doe < 146097);
    let yoe: u64 = (doe - doe / 1460 + doe / 36524 - doe / 146096) / 365;
    assert(yoe <= 399);
    let doy: u64 = doe - (365 * yoe + yoe / 4 - yoe / 100);
    let mp: u64 = (5 * doy + 2) / 153;
    let day: u64 = doy - (153 * mp + 2) / 5 + 1;
    let hour: u64 = sod / 3600;
    let minute: u64 = (sod % 3600) / 60;
    ((day as u8), (hour as u8), (minute as u8))
}

/// The value of the two digits at `i`.
pub open spec fn d2(s: Seq<char>, i: int) -> int {
    dval(s[i]) * 10 + dval(s[i + 1])
}

/// The value of the four digits at `i`.
pub open spec fn d4(s: Seq<char>, i: int) -> int {
    dval(s[i]) * 1000 + dval(s[i + 1]) * 100 + dval(s[i + 2]) * 10 + dval(s[i + 3])
}

/// The offset, in minutes, that the tail of an instant text starting at `j`
/// denotes: `Z` for zero, or a signed `hh:mm` pair, each bounded as a clock
/// reading. Anything else, or trailing text, is rejected.
pub open spec fn spec_offset_at(s: Seq<char>, j: int) -> Option<int> {
    if j < s.len() && (s[j] == 'Z' || s[j] == 'z') && j + 1 == s.len() {
        Option::Some(0)
    } else if j + 6 == s.len() && (s[j] == '+' || s[j] == '-') && is_digit(s[j + 1]) && is_digit(
        s[j + 2],
    ) && s[j + 3] == ':' && is_digit(s[j + 4]) && is_digit(s[j + 5]) && d2(s, j + 1) <= 23 && d2(
        s,
        j + 4,
    ) <= 59 {
        if s[j] == '+' {
            Option::Some(d2(s, j + 1) * 60 + d2(s, j + 4))
        } else {
            Option::Some(-(d2(s, j + 1) * 60 + d2(s, j + 4)))
        }
    } else {
        Option::None
    }
}

/// The date and clock part of an instant text is well formed:
/// `YYYY-MM-DDTHH:MM:SS` with valid calendar and clock values.
pub open spec fn spec_core_ok(s: Seq<char>) -> bool {
    &&& s.len() >= 20
    &&& is_digit(s[0]) && is_digit(s[1]) && is_digit(s[2]) && is_digit(s[3])
    &&& s[4] == '-'
    &&& is_digit(s[5]) && is_digit(s[6])
    &&& s[7] == '-'
    &&& is_digit(s[8]) && is_digit(s[9])
    &&& (s[10] == 'T' || s[10] == 't')
    &&& is_digit(s[11]) && is_digit(s[12])
    &&& s[13] == ':'
    &&& is_digit(s[14]) && is_digit(s[15])
    &&& s[16] == ':'
    &&& is_digit(s[17]) && is_digit(s[18])
    &&& 1 <= d2(s, 5) <= 12
    &&& 1 <= d2(s, 8) <= days_in_month(d4(s, 0), d2(s, 5))
    &&& d2(s, 11) <= 23
    &&& d2(s, 14) <= 59
    &&& d2(s, 17) <= 59
}

/// Where the offset of an instant text begins: right after the seconds, or
/// after an optional fraction of at least one digit.
pub open spec fn spec_offset_start(s: Seq<char>) -> Option<int> {
    if s.len() > 19 && s[19] == '.' {
        if digit_run_end(s, 20) > 20 {
            Option::Some(digit_run_end(s, 20))
        } else {
            Option::None
        }
    } else {
        Option::Some(19)
    }
}

/// The epoch second an instant text denotes, when it is well formed. The
/// fractional part, if any, is ignored.
pub open spec fn spec_instant_epoch(s: Seq<char>) -> Option<int> {
    if spec_core_ok(s) {
        match spec_offset_start(s) {
            Option::Some(j) => match spec_offset_at(s, j) {
                Option::Some(offmin) => Option::Some(
                    spec_epoch_of(d4(s, 0), d2(s, 5), d2(s, 8), d2(s, 11), d2(s, 14), d2(s, 17), offmin),
                ),
                Option::None => Option::None,
            },
            Option::None => Option::None,
        }
    } else {
        Option::None
    }
}

/// Whether the character at `i` is a decimal digit.
fn digit_at(v: &Vec<char>, i: usize) -> (r: bool)
    requires
        i < v.len(),
    ensures
        r == is_digit(v@[i as int]),
{
    let c = v[i] as u32;
    48 <= c && c <= 57
}

/// The value of the two digit characters at `i`.
fn d2_at(v: &Vec<char>, i: usize) -> (r: i64)
    requires
        i + 1 < v.len(),
        is_digit(v@[i as int]),
        is_digit(v@[i as int + 1]),
    ensures
        r == d2(v@, i as int),
        0 <= r <= 99,
{
    let hi = (v[i] as u32 - 48) as i64;
    let lo = (v[i + 1] as u32 - 48) as i64;
    hi * 10 + lo
}

/// The value of the four digit characters at `i`.
fn d4_at(v: &Vec<char>, i: usize) -> (r: i64)
    requires
        i + 3 < v.len(),
        is_digit(v@[i as int]),
        is_digit(v@[i as int + 1]),
        is_digit(v@[i as int + 2]),
        is_digit(v@[i as int + 3]),
    ensures
        r == d4(v@, i as int),
        0 <= r <= 9999,
{
    let a = (v[i] as u32 - 48) as i64;
    let b = (v[i + 1] as u32 - 48) as i64;
    let c = (v[i + 2] as u32 - 48) as i64;
    let d = (v[i + 3] as u32 - 48) as i64;
    a * 1000 + b * 100 + c * 10 + d
}

/// The number of days of the given month, by the leap-year rule.
fn days_in_month_exec(y: i64, m: i64) -> (r: i64)
    requires
        0 <= y <= 9999,
        1 <= m <= 12,
    ensures
        r == days_in_month(y as int, m as int),
{
    if m == 2 {
        if (y % 4 == 0 && y % 100 != 0) || y % 400 == 0 {
            29
        } else {
            28
        }
    } else if m == 4 || m == 6 || m == 9 || m == 11 {
        30
    } else {
        31
    }
}

/// Read the fixed-position date and clock part of an instant text:
/// `YYYY-MM-DDTHH:MM:SS` with valid calendar and clock values.
fn read_core(v: &Vec<char>) -> (r: Option<(i64, i64, i64, i64, i64, i64)>)
    ensures
        (match r {
            Option::Some(t) => {
                &&& spec_core_ok(v@)
                &&& t.0 == d4(v@, 0) && 0 <= t.0 <= 9999
                &&& t.1 == d2(v@, 5) && 1 <= t.1 <= 12
                &&& t.2 == d2(v@, 8) && 1 <= t.2 <= 31
                &&& t.3 == d2(v@, 11) && 0 <= t.3 <= 23
                &&& t.4 == d2(v@, 14) && 0 <= t.4 <= 59
                &&& t.5 == d2(v@, 17) && 0 <= t.5 <= 59
            },
            Option::None => !spec_core_ok(v@),
        }),
{
    let n = v.len();
    if n < 20 {
        return Option::None;
    }
    let shape_ok = digit_at(v, 0) && digit_at(v, 1) && digit_at(v, 2) && digit_at(v, 3) && v[4]
        == '-' && digit_at(v, 5) && digit_at(v, 6) && v[7] == '-' && digit_at(v, 8) && digit_at(
        v,
        9,
    ) && (v[10] == 'T' || v[10] == 't') && digit_at(v, 11) && digit_at(v, 12) && v[13] == ':'
        && digit_at(v, 14) && digit_at(v, 15) && v[16] == ':' && digit_at(v, 17) && digit_at(
        v,
        18,
    );
    if !shape_ok {
        return Option::None;
    }
    let year = d4_at(v, 0);
    let month = d2_at(v, 5);
    let day = d2_at(v, 8);
    let hh = d2_at(v, 11);
    let mi = d2_at(v, 14);
    let ss = d2_at(v, 17);
    if month < 1 || month > 12 {
        return Option::None;
    }
    if day < 1 || day > days_in_month_exec(year, month) || hh > 23 || mi > 59 || ss > 59 {
        return Option::None;
    }
    Option::Some((year, month, day, hh, mi, ss))
}

/// Build the instant for the given civil time and offset.
fn assemble_instant(year: i64, month: i64, day: i64, hh: i64, mi: i64, ss: i64, offmin: i64) -> (r:
    Instant)
    requires
        0 <= year <= 9999,
        1 <= month <= 12,
        1 <= day <= 31,
        0 <= hh <= 23,
        0 <= mi <= 59,
        0 <= ss <= 59,
        -1439 <= offmin <= 1439,
    ensures
        r == spec_instant_of_epoch(
            spec_epoch_of(
                year as int,
                month as int,
                day as int,
                hh as int,
                mi as int,
                ss as int,
                offmin as int,
            ),
        ),
        epoch_in_range(
            spec_epoch_of(
                year as int,
                month as int,
                day as int,
                hh as int,
                mi as int,
                ss as int,
                offmin as int,
            ),
        ),
{
    let days = days_from_civil(year, month, day);
    let epoch: i64 = days * 86400 + hh * 3600 + mi * 60 + ss - offmin * 60;
    let (cday, chour, cminute) = civil_of_epoch(epoch);
    Instant { epoch_sec: epoch, day: cday, hour: chour, minute: cminute }
}

/// Decode an ISO-8601-style instant: `YYYY-MM-DDTHH:MM:SS`, an optional
/// fraction of a second (ignored), and an offset (`Z` or `+hh:mm`/`-hh:mm`).
/// Returns nothing when the text is not of that shape or the calendar or
/// clock values are out of range.
#[verifier::rlimit(80)]
pub fn parse_instant(s: &str) -> (r: Option<Instant>)
    ensures
        (match spec_instant_epoch(s@) {
            Option::Some(e) => r == Option::Some(spec_instant_of_epoch(e)) && epoch_in_range(e),
            Option::None => r is None,
        }),
        (match r {
            Option::Some(t) => t.wf(),
            Option::None => true,
        }),
{
    let v = crate::text::str_chars(s);
    let n = v.len();
    let (year, month, day, hh, mi, ss) = (match read_core(&v) {
        Option::Some(t) => t,
        Option::None => {
            return Option::None;
        },
    });
    // Optional fraction: a dot followed by at least one digit.
    let mut j: usize = 19;
    if v[19] == '.' {
        let mut k: usize = 20;
        while k < n && digit_at(&v, k)
            invariant
                20 <= k <= n,
                n == v@.len(),
                digit_run_end(v@, 20) == digit_run_end(v@, k as int),
            decreases n - k,
        {
            k = k + 1;
        }
        if k == 20 {
            assert(spec_offset_start(v@) is None);
            return Option::None;
        }
        j = k;
    }
    assert(spec_offset_start(v@) == Option::Some(j as int));
    // Offset: Z, or a signed hh:mm pair.
    if j >= n {
        assert(spec_offset_at(v@, j as int) is None);
        return Option::None;
    }
    let offmin: i64;
    if (v[j] == 'Z' || v[j] == 'z') && j + 1 == n {
        offmin = 0;
    } else if n - j == 6 && (v[j] == '+' || v[j] == '-') && digit_at(&v, j + 1) && digit_at(
        &v,
        j + 2,
    ) && v[j + 3] == ':' && digit_at(&v, j + 4) && digit_at(&v, j + 5) {
        let oh = d2_at(&v, j + 1);
        let om = d2_at(&v, j + 4);
        if oh > 23 || om > 59 {
            return Option::None;
        }
        offmin = if v[j] == '+' {
            oh * 60 + om
        } else {
            -(oh * 60 + om)
        };
    } else {
        assert(spec_offset_at(v@, j as int) is None);
        return Option::None;
    }
    Option::Some(assemble_instant(year, month, day, hh, mi, ss, offmin))
}

/// Relies on chrono's `Utc::now` and `DateTime::timestamp`: the current
/// system time as whole seconds since the Unix epoch. Nothing can be
/// promised of a clock reading; `Utc::now` aborts on a system clock set
/// before the Unix epoch.
#[verifier::external_body]
pub fn now_epoch_seconds() -> i64 {
    chrono::Utc::now().timestamp()
}

} // verus!
