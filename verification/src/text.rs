//! Text helpers shared by the decoders and the renderer: character vectors,
//! ASCII case-insensitive comparison, and decimal formatting of integers
//! (plain and zero-padded, mirroring the usual `{:0w}` conventions).

use vstd::prelude::*;

verus! {

/// The scalar value of a character with ASCII upper-case letters folded to
/// lower case.
pub open spec fn lower_val(c: char) -> u32 {
    if 65 <= c as u32 && c as u32 <= 90 {
        (c as u32 + 32) as u32
    } else {
        c as u32
    }
}

/// Two character sequences are equal up to ASCII case.
pub open spec fn eq_ignore_ascii_case(a: Seq<char>, b: Seq<char>) -> bool {
    a.len() == b.len() && forall|i: int| 0 <= i < a.len() ==> lower_val(a[i]) == lower_val(b[i])
}

/// The characters of a string slice, in order.
pub fn str_chars(s: &str) -> (r: Vec<char>)
    ensures
        r@ == s@,
{
    let n = s.unicode_len();
    let mut r: Vec<char> = Vec::new();
    let mut i: usize = 0;
    while i < n
        invariant
            i <= n,
            n == s@.len(),
            r@ == s@.subrange(0, i as int),
        decreases n - i,
    {
        r.push(s.get_char(i));
        i = i + 1;
        proof {
            assert(r@ =~= s@.subrange(0, i as int));
        }
    }
    proof {
        assert(r@ =~= s@);
    }
    r
}

/// Relies on std's `FromIterator<char> for String`: collecting an iterator of
/// characters yields the string consisting of exactly those characters.
#[verifier::external_body]
pub fn string_from_chars(chars: &Vec<char>) -> (r: String)
    ensures
        r@ == chars@,
{
    chars.iter().collect()
}

/// Exact equality of two character vectors.
pub fn chars_eq(a: &Vec<char>, b: &Vec<char>) -> (r: bool)
    ensures
        r == (a@ == b@),
{
    if a.len() != b.len() {
        return false;
    }
    let n = a.len();
    let mut i: usize = 0;
    while i < n
        invariant
            i <= n,
            n == a@.len() && n == b@.len(),
            forall|j: int| 0 <= j < i ==> a@[j] == b@[j],
        decreases n - i,
    {
        if a[i] != b[i] {
            return false;
        }
        i = i + 1;
    }
    proof {
        assert(a@ =~= b@);
    }
    true
}

/// Case-insensitive (ASCII) equality of two character vectors.
pub fn chars_eq_ignore_case(a: &Vec<char>, b: &Vec<char>) -> (r: bool)
    ensures
        r == eq_ignore_ascii_case(a@, b@),
{
    if a.len() != b.len() {
        return false;
    }
    let n = a.len();
    let mut i: usize = 0;
    while i < n
        invariant
            i <= n,
            n == a@.len() && n == b@.len(),
            forall|j: int| 0 <= j < i ==> lower_val(a@[j]) == lower_val(b@[j]),
        decreases n - i,
    {
        let ca = a[i] as u32;
        let cb = b[i] as u32;
        let fa = if 65 <= ca && ca <= 90 { ca + 32 } else { ca };
        let fb = if 65 <= cb && cb <= 90 { cb + 32 } else { cb };
        if fa != fb {
            return false;
        }
        i = i + 1;
    }
    true
}

/// Case-insensitive (ASCII) equality of two string slices.
pub fn str_eq_ignore_case(a: &str, b: &str) -> (r: bool)
    ensures
        r == eq_ignore_ascii_case(a@, b@),
{
    let av = str_chars(a);
    let bv = str_chars(b);
    chars_eq_ignore_case(&av, &bv)
}

/// The decimal digit character for a value below ten.
pub open spec fn digit_char(d: int) -> char {
    if d == 0 {
        '0'
    } else if d == 1 {
        '1'
    } else if d == 2 {
        '2'
    } else if d == 3 {
        '3'
    } else if d == 4 {
        '4'
    } else if d == 5 {
        '5'
    } else if d == 6 {
        '6'
    } else if d == 7 {
        '7'
    } else if d == 8 {
        '8'
    } else {
        '9'
    }
}

/// Decimal digits of a non-negative integer, most significant first.
pub open spec fn dec_digits(n: int) -> Seq<char>
    decreases n,
{
    if n < 10 {
        seq![digit_char(n)]
    } else {
        dec_digits(n / 10).push(digit_char(n % 10))
    }
}

/// Decimal representation of an integer, with a leading minus sign when
/// negative.
pub open spec fn dec_int(n: int) -> Seq<char> {
    if n < 0 {
        seq!['-'] + dec_digits(-n)
    } else {
        dec_digits(n)
    }
}

/// A sequence of `n` zero characters.
pub open spec fn zeros(n: int) -> Seq<char> {
    Seq::new(if n < 0 { 0 } else { n as nat }, |i: int| '0')
}

/// Decimal representation zero-padded to `width` characters in total, the
/// sign included, as `{:0w}` formatting pads.
pub open spec fn dec_int_pad(n: int, width: int) -> Seq<char> {
    if n < 0 {
        seq!['-'] + zeros(width - 1 - dec_digits(-n).len()) + dec_digits(-n)
    } else {
        zeros(width - dec_digits(n).len()) + dec_digits(n)
    }
}

/// Append the decimal digits of `n` to `out`.
pub fn push_dec_u64(out: &mut Vec<char>, n: u64)
    ensures
        final(out)@ == old(out)@ + dec_digits(n as int),
    decreases n,
{
    if n >= 10 {
        push_dec_u64(out, n / 10);
    }
    let d = (n % 10) as u8;
    out.push((48 + d) as char);
    proof {
        assert((48 + d) as char == digit_char(n as int % 10));
        if n < 10 {
            assert(dec_digits(n as int) =~= seq![digit_char(n as int)]);
            assert(n as int % 10 == n as int);
        }
        assert(final(out)@ =~= old(out)@ + dec_digits(n as int));
    }
}

/// Ten to the power `k`.
pub open spec fn pow10(k: int) -> int
    decreases k,
{
    if k <= 0 {
        1
    } else {
        10 * pow10(k - 1)
    }
}

/// A non-negative integer below ten to the `k` has at most `k` decimal
/// digits.
proof fn dec_digits_len_le(n: int, k: int)
    requires
        0 <= n < pow10(k),
        1 <= k,
    ensures
        1 <= dec_digits(n).len() <= k,
    decreases n,
{
    if n >= 10 {
        assert(pow10(k) == 10 * pow10(k - 1));
        dec_digits_len_le(n / 10, k - 1);
    }
}

/// The number of decimal digits of `n`.
pub fn dec_len_u64(n: u64) -> (r: usize)
    ensures
        r == dec_digits(n as int).len(),
        1 <= r <= 20,
    decreases n,
{
    proof {
        assert(pow10(20) == 100000000000000000000) by {
            reveal_with_fuel(pow10, 21);
        }
        dec_digits_len_le(n as int, 20);
    }
    if n < 10 {
        1
    } else {
        1 + dec_len_u64(n / 10)
    }
}

/// Append the decimal representation of `n`, minus sign included when
/// negative.
pub fn push_dec_i64(out: &mut Vec<char>, n: i64)
    ensures
        final(out)@ == old(out)@ + dec_int(n as int),
{
    if n < 0 {
        out.push('-');
        let m: u64 = (-(n as i128)) as u64;
        push_dec_u64(out, m);
        proof {
            assert(final(out)@ =~= old(out)@ + dec_int(n as int));
        }
    } else {
        push_dec_u64(out, n as u64);
    }
}

/// Append the decimal representation of `n`, zero-padded to `width`
/// characters in total.
pub fn push_dec_i64_pad(out: &mut Vec<char>, n: i64, width: usize)
    ensures
        final(out)@ == old(out)@ + dec_int_pad(n as int, width as int),
{
    if n < 0 {
        out.push('-');
        let m: u64 = (-(n as i128)) as u64;
        let len = dec_len_u64(m);
        let extra: usize = if width > len && width - len > 1 { width - len - 1 } else { 0 };
        push_zeros(out, extra);
        proof {
            assert(zeros(width - 1 - dec_digits(-(n as int)).len()) =~= zeros(extra as int));
        }
        push_dec_u64(out, m);
        proof {
            assert(final(out)@ =~= old(out)@ + dec_int_pad(n as int, width as int));
        }
    } else {
        let m = n as u64;
        let len = dec_len_u64(m);
        let extra: usize = if width > len { width - len } else { 0 };
        push_zeros(out, extra);
        proof {
            assert(zeros(width - dec_digits(n as int).len()) =~= zeros(extra as int));
        }
        push_dec_u64(out, m);
        proof {
            assert(final(out)@ =~= old(out)@ + dec_int_pad(n as int, width as int));
        }
    }
}

/// Append `n` zero characters.
fn push_zeros(out: &mut Vec<char>, n: usize)
    ensures
        final(out)@ == old(out)@ + zeros(n as int),
{
    let mut i: usize = 0;
    while i < n
        invariant
            i <= n,
            out@ == old(out)@ + zeros(i as int),
        decreases n - i,
    {
        out.push('0');
        i = i + 1;
        proof {
            assert(out@ =~= old(out)@ + zeros(i as int));
        }
    }
    proof {
        assert(final(out)@ =~= old(out)@ + zeros(n as int));
    }
}

/// Append every character of `s`.
pub fn push_chars(out: &mut Vec<char>, s: &Vec<char>)
    ensures
        final(out)@ == old(out)@ + s@,
{
    let n = s.len();
    let mut i: usize = 0;
    while i < n
        invariant
            i <= n,
            n == s@.len(),
            out@ == old(out)@ + s@.subrange(0, i as int),
        decreases n - i,
    {
        out.push(s[i]);
        i = i + 1;
        proof {
            assert(out@ =~= old(out)@ + s@.subrange(0, i as int));
        }
    }
    proof {
        assert(final(out)@ =~= old(out)@ + s@);
    }
}

/// Append every character of the string slice `s`.
pub fn push_str_chars(out: &mut Vec<char>, s: &str)
    ensures
        final(out)@ == old(out)@ + s@,
{
    let v = str_chars(s);
    push_chars(out, &v);
}

/// A decimal digit character.
pub open spec fn is_digit(c: char) -> bool {
    48 <= c as u32 <= 57
}

/// The value of a decimal digit character.
pub open spec fn dval(c: char) -> int {
    c as u32 - 48
}

/// The end of the run of digit characters starting at `i`.
pub open spec fn digit_run_end(s: Seq<char>, i: int) -> int
    decreases s.len() - i,
{
    if 0 <= i < s.len() && is_digit(s[i]) {
        digit_run_end(s, i + 1)
    } else {
        i
    }
}

/// The value of a sequence of digit characters, most significant first.
pub open spec fn digits_val(s: Seq<char>) -> int
    decreases s.len(),
{
    if s.len() == 0 {
        0
    } else {
        digits_val(s.drop_last()) * 10 + dval(s.last())
    }
}

/// The value of a digit sequence is non-negative.
pub proof fn lemma_digits_val_nonneg(s: Seq<char>)
    requires
        forall|i: int| 0 <= i < s.len() ==> is_digit(s[i]),
    ensures
        digits_val(s) >= 0,
    decreases s.len(),
{
    if s.len() > 0 {
        lemma_digits_val_nonneg(s.drop_last());
    }
}

/// What a digit run decodes to as a signed 64-bit level: its value, or zero
/// when it is empty or too large to represent.
pub open spec fn digits_value_or_zero(s: Seq<char>) -> int {
    if s.len() == 0 || digits_val(s) > i64::MAX {
        0
    } else {
        digits_val(s)
    }
}

/// Decode the digit run `v[start..end]`, yielding zero when it is empty or
/// its value does not fit.
pub fn digits_to_i64_or_zero(v: &Vec<char>, start: usize, end: usize) -> (r: i64)
    requires
        start <= end <= v.len(),
        forall|i: int| start <= i < end ==> is_digit(v@[i]),
    ensures
        r == digits_value_or_zero(v@.subrange(start as int, end as int)),
{
    let i64_max: u64 = 9223372036854775807;
    let mut acc: u64 = 0;
    let mut overflow = false;
    let mut k: usize = start;
    proof {
        assert(v@.subrange(start as int, start as int) =~= Seq::<char>::empty());
    }
    while k < end
        invariant
            start <= k <= end <= v@.len(),
            forall|i: int| start <= i < end ==> is_digit(v@[i]),
            i64_max == i64::MAX,
            !overflow ==> acc == digits_val(v@.subrange(start as int, k as int)) && acc <= i64::MAX,
            overflow ==> digits_val(v@.subrange(start as int, k as int)) > i64::MAX,
        decreases end - k,
    {
        let d = (v[k] as u32 - 48) as u64;
        let ghost before = v@.subrange(start as int, k as int);
        let ghost after = v@.subrange(start as int, k as int + 1);
        proof {
            assert(after.drop_last() =~= before);
            assert(after.last() == v@[k as int]);
            lemma_digits_val_nonneg(before);
        }
        if !overflow {
            if acc > (i64_max - d) / 10 {
                overflow = true;
                proof {
                    assert(10 * ((i64_max - d) as int / 10) > (i64_max - d) - 10);
                    assert(acc * 10 + d > i64::MAX);
                }
            } else {
                proof {
                    assert(10 * ((i64_max - d) as int / 10) <= (i64_max - d) as int);
                    assert(acc * 10 <= 10 * ((i64_max - d) as int / 10));
                    assert(acc * 10 + d <= i64::MAX);
                }
                acc = acc * 10 + d;
            }
        } else {
            proof {
                assert(digits_val(before) * 10 + dval(after.last()) > i64::MAX) by (nonlinear_arith)
                    requires
                        digits_val(before) > i64::MAX,
                        dval(after.last()) >= 0,
                ;
            }
        }
        k = k + 1;
    }
    if overflow {
        0
    } else {
        acc as i64
    }
}

/// The token `tok` occurs in `s` at position `p`.
pub open spec fn match_at(s: Seq<char>, p: int, tok: Seq<char>) -> bool {
    0 <= p && p + tok.len() <= s.len() && s.subrange(p, p + tok.len()) == tok
}

/// Whether `tok` occurs in `v` at position `p`.
pub fn chars_match_at(v: &Vec<char>, p: usize, tok: &Vec<char>) -> (r: bool)
    ensures
        r == match_at(v@, p as int, tok@),
{
    let n = v.len();
    let m = tok.len();
    if n < m || p > n - m {
        return false;
    }
    let mut i: usize = 0;
    while i < m
        invariant
            i <= m,
            m == tok@.len(),
            n == v@.len(),
            p + m <= n,
            forall|j: int| 0 <= j < i ==> v@[p + j] == tok@[j],
        decreases m - i,
    {
        if v[p + i] != tok[i] {
            proof {
                assert(v@.subrange(p as int, p as int + tok@.len())[i as int] == v@[p + i]);
            }
            return false;
        }
        i = i + 1;
    }
    proof {
        assert(v@.subrange(p as int, p as int + tok@.len()) =~= tok@);
    }
    true
}

/// The tokens joined with a bar between every neighbouring pair.
pub open spec fn joined_bar(ts: Seq<Seq<char>>) -> Seq<char>
    decreases ts.len(),
{
    if ts.len() == 0 {
        Seq::empty()
    } else if ts.len() == 1 {
        ts[0]
    } else {
        joined_bar(ts.drop_last()) + seq!['|'] + ts.last()
    }
}

/// The non-empty tokens joined with a bar between every neighbouring pair.
pub open spec fn joined_bar_skip_empty(ts: Seq<Seq<char>>) -> Seq<char>
    decreases ts.len(),
{
    if ts.len() == 0 {
        Seq::empty()
    } else {
        let rest = joined_bar_skip_empty(ts.drop_last());
        let last = ts.last();
        if last.len() == 0 {
            rest
        } else if rest.len() == 0 {
            last
        } else {
            rest + seq!['|'] + last
        }
    }
}

/// The views of a sequence of character vectors.
pub open spec fn token_views(ts: Seq<Vec<char>>) -> Seq<Seq<char>> {
    ts.map_values(|t: Vec<char>| t@)
}

/// Join tokens with a bar between every neighbouring pair.
pub fn join_bar_tokens(tokens: &Vec<Vec<char>>) -> (r: Vec<char>)
    ensures
        r@ == joined_bar(token_views(tokens@)),
{
    let n = tokens.len();
    let mut out: Vec<char> = Vec::new();
    let mut i: usize = 0;
    proof {
        assert(token_views(tokens@).take(0) =~= Seq::<Seq<char>>::empty());
    }
    while i < n
        invariant
            i <= n,
            n == tokens@.len(),
            out@ == joined_bar(token_views(tokens@).take(i as int)),
        decreases n - i,
    {
        if i > 0 {
            out.push('|');
        }
        push_chars(&mut out, &tokens[i]);
        i = i + 1;
        proof {
            let ts = token_views(tokens@);
            assert(ts.take(i as int).drop_last() =~= ts.take(i as int - 1));
            assert(ts.take(i as int).last() == tokens@[i - 1]@);
        }
    }
    proof {
        assert(token_views(tokens@).take(n as int) =~= token_views(tokens@));
    }
    out
}

/// Join the non-empty tokens with a bar between every neighbouring pair.
pub fn join_bar_tokens_skip_empty(tokens: &Vec<Vec<char>>) -> (r: Vec<char>)
    ensures
        r@ == joined_bar_skip_empty(token_views(tokens@)),
{
    let n = tokens.len();
    let mut out: Vec<char> = Vec::new();
    let mut i: usize = 0;
    proof {
        assert(token_views(tokens@).take(0) =~= Seq::<Seq<char>>::empty());
    }
    while i < n
        invariant
            i <= n,
            n == tokens@.len(),
            out@ == joined_bar_skip_empty(token_views(tokens@).take(i as int)),
        decreases n - i,
    {
        if tokens[i].len() > 0 {
            if out.len() > 0 {
                out.push('|');
            }
            push_chars(&mut out, &tokens[i]);
        }
        i = i + 1;
        proof {
            let ts = token_views(tokens@);
            assert(ts.take(i as int).drop_last() =~= ts.take(i as int - 1));
            assert(ts.take(i as int).last() == tokens@[i - 1]@);
        }
    }
    proof {
        assert(token_views(tokens@).take(n as int) =~= token_views(tokens@));
    }
    out
}

/// A token did not parse as any variant of its closed set.
#[derive(Debug, Clone, Copy, PartialEq, Eq, Structural)]
pub struct TokenError;

/// Every character of the digit run starting at `i` is a digit, and the run
/// ends within the sequence.
pub proof fn lemma_digit_run(s: Seq<char>, i: int)
    requires
        0 <= i <= s.len(),
    ensures
        i <= digit_run_end(s, i) <= s.len(),
        forall|j: int| i <= j < digit_run_end(s, i) ==> is_digit(s[j]),
    decreases s.len() - i,
{
    if i < s.len() && is_digit(s[i]) {
        lemma_digit_run(s, i + 1);
    }
}

/// The end of the digit run starting at `start`.
pub fn digit_run_end_exec(v: &Vec<char>, start: usize) -> (r: usize)
    requires
        start <= v.len(),
    ensures
        r == digit_run_end(v@, start as int),
        start <= r <= v@.len(),
{
    let n = v.len();
    let mut k: usize = start;
    while k < n && 48 <= (v[k] as u32) && (v[k] as u32) <= 57
        invariant
            start <= k <= n,
            n == v@.len(),
            digit_run_end(v@, start as int) == digit_run_end(v@, k as int),
        decreases n - k,
    {
        k = k + 1;
    }
    proof {
        lemma_digit_run(v@, start as int);
    }
    k
}

/// The index of the first token that equals `s` up to ASCII case.
pub open spec fn first_fold_match(s: Seq<char>, toks: Seq<Seq<char>>) -> Option<int>
    decreases toks.len(),
{
    if toks.len() == 0 {
        Option::None
    } else if eq_ignore_ascii_case(s, toks[0]) {
        Option::Some(0)
    } else {
        match first_fold_match(s, toks.skip(1)) {
            Option::Some(i) => Option::Some(i + 1),
            Option::None => Option::None,
        }
    }
}

/// When the tokens before `i` do not match and the one at `i` does, `i` is
/// the first match.
pub proof fn lemma_first_fold_match_hit(s: Seq<char>, toks: Seq<Seq<char>>, i: int)
    requires
        0 <= i < toks.len(),
        forall|j: int| 0 <= j < i ==> !eq_ignore_ascii_case(s, toks[j]),
        eq_ignore_ascii_case(s, toks[i]),
    ensures
        first_fold_match(s, toks) == Option::Some(i),
    decreases i,
{
    if i > 0 {
        assert(forall|j: int| 0 <= j < i - 1 ==> toks.skip(1)[j] == toks[j + 1]);
        lemma_first_fold_match_hit(s, toks.skip(1), i - 1);
    }
}

/// When no token matches, there is no first match.
pub proof fn lemma_first_fold_match_none(s: Seq<char>, toks: Seq<Seq<char>>)
    requires
        forall|j: int| 0 <= j < toks.len() ==> !eq_ignore_ascii_case(s, toks[j]),
    ensures
        first_fold_match(s, toks) is None,
    decreases toks.len(),
{
    if toks.len() > 0 {
        assert(forall|j: int| 0 <= j < toks.len() - 1 ==> toks.skip(1)[j] == toks[j + 1]);
        lemma_first_fold_match_none(s, toks.skip(1));
    }
}

/// The index of the first token that equals `v` up to ASCII case.
pub fn find_fold_match(v: &Vec<char>, tokens: &Vec<Vec<char>>) -> (r: Option<usize>)
    ensures
        (match r {
            Option::Some(i) => i < tokens@.len() && first_fold_match(v@, token_views(tokens@))
                == Option::Some(i as int) && eq_ignore_ascii_case(v@, token_views(tokens@)[i as int]),
            Option::None => first_fold_match(v@, token_views(tokens@)) is None,
        }),
{
    let n = tokens.len();
    let mut i: usize = 0;
    while i < n
        invariant
            i <= n,
            n == tokens@.len(),
            forall|j: int|
                0 <= j < i ==> !eq_ignore_ascii_case(v@, token_views(tokens@)[j]),
        decreases n - i,
    {
        if chars_eq_ignore_case(v, &tokens[i]) {
            proof {
                lemma_first_fold_match_hit(v@, token_views(tokens@), i as int);
            }
            return Option::Some(i);
        }
        i = i + 1;
    }
    proof {
        lemma_first_fold_match_none(v@, token_views(tokens@));
    }
    Option::None
}

/// The index of the first token that occurs in `s` at position `p`.
pub open spec fn first_match_at(s: Seq<char>, p: int, toks: Seq<Seq<char>>) -> Option<int>
    decreases toks.len(),
{
    if toks.len() == 0 {
        Option::None
    } else if match_at(s, p, toks[0]) {
        Option::Some(0)
    } else {
        match first_match_at(s, p, toks.skip(1)) {
            Option::Some(i) => Option::Some(i + 1),
            Option::None => Option::None,
        }
    }
}

/// When the tokens before `i` do not occur at `p` and the one at `i` does,
/// `i` is the first match at `p`.
pub proof fn lemma_first_match_at_hit(s: Seq<char>, p: int, toks: Seq<Seq<char>>, i: int)
    requires
        0 <= i < toks.len(),
        forall|j: int| 0 <= j < i ==> !match_at(s, p, toks[j]),
        match_at(s, p, toks[i]),
    ensures
        first_match_at(s, p, toks) == Option::Some(i),
    decreases i,
{
    if i > 0 {
        assert(forall|j: int| 0 <= j < i - 1 ==> toks.skip(1)[j] == toks[j + 1]);
        lemma_first_match_at_hit(s, p, toks.skip(1), i - 1);
    }
}

/// When no token occurs at `p`, there is no first match at `p`.
pub proof fn lemma_first_match_at_none(s: Seq<char>, p: int, toks: Seq<Seq<char>>)
    requires
        forall|j: int| 0 <= j < toks.len() ==> !match_at(s, p, toks[j]),
    ensures
        first_match_at(s, p, toks) is None,
    decreases toks.len(),
{
    if toks.len() > 0 {
        assert(forall|j: int| 0 <= j < toks.len() - 1 ==> toks.skip(1)[j] == toks[j + 1]);
        lemma_first_match_at_none(s, p, toks.skip(1));
    }
}

/// The index of the first token that occurs in `v` at position `p`.
pub fn find_match_at(v: &Vec<char>, p: usize, tokens: &Vec<Vec<char>>) -> (r: Option<usize>)
    ensures
        (match r {
            Option::Some(i) => i < tokens@.len() && first_match_at(v@, p as int, token_views(tokens@))
                == Option::Some(i as int) && match_at(v@, p as int, token_views(tokens@)[i as int]),
            Option::None => first_match_at(v@, p as int, token_views(tokens@)) is None,
        }),
{
    let n = tokens.len();
    let mut i: usize = 0;
    while i < n
        invariant
            i <= n,
            n == tokens@.len(),
            forall|j: int|
                0 <= j < i ==> !match_at(v@, p as int, token_views(tokens@)[j]),
        decreases n - i,
    {
        if chars_match_at(v, p, &tokens[i]) {
            proof {
                lemma_first_match_at_hit(v@, p as int, token_views(tokens@), i as int);
            }
            return Option::Some(i);
        }
        i = i + 1;
    }
    proof {
        lemma_first_match_at_none(v@, p as int, token_views(tokens@));
    }
    Option::None
}

} // verus!
