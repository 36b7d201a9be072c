//! Exact decimal numbers, as read from numerals such as `-12.50`, `.5` or
//! `1.5e-3`.

use vstd::prelude::*;

use crate::text::push_char;

verus! {

pub open spec fn is_digit(c: char) -> bool {
    '0' <= c && c <= '9'
}

pub open spec fn all_digits(s: Seq<char>) -> bool {
    forall|i: int| 0 <= i < s.len() ==> is_digit(#[trigger] s[i])
}

pub open spec fn digit_value(c: char) -> nat {
    (c as int - '0' as int) as nat
}

/// The value of a run of decimal digits, most significant first.
pub open spec fn digits_value(s: Seq<char>) -> nat
    decreases s.len(),
{
    if s.len() == 0 {
        0
    } else {
        digits_value(s.drop_last()) * 10 + digit_value(s.last())
    }
}

pub open spec fn strip_leading_zeros(s: Seq<char>) -> Seq<char>
    decreases s.len(),
{
    if s.len() > 0 && s[0] == '0' {
        strip_leading_zeros(s.skip(1))
    } else {
        s
    }
}

pub open spec fn strip_trailing_zeros(s: Seq<char>) -> Seq<char>
    decreases s.len(),
{
    if s.len() > 0 && s.last() == '0' {
        strip_trailing_zeros(s.drop_last())
    } else {
        s
    }
}

/// Length of the optional leading sign of a numeral.
pub open spec fn sign_len(s: Seq<char>) -> int {
    if s.len() > 0 && (s[0] == '+' || s[0] == '-') {
        1
    } else {
        0
    }
}

/// What follows the sign.
pub open spec fn numeral_body(s: Seq<char>) -> Seq<char> {
    s.subrange(sign_len(s), s.len() as int)
}

pub open spec fn is_exp_mark(c: char) -> bool {
    c == 'e' || c == 'E'
}

/// Digits with at most one decimal point, and at least one digit.
pub open spec fn is_mantissa(m: Seq<char>) -> bool {
    &&& forall|i: int| 0 <= i < m.len() ==> is_digit(#[trigger] m[i]) || m[i] == '.'
    &&& forall|i: int, j: int| 0 <= i < j < m.len() && #[trigger] m[i] == '.' ==> #[trigger] m[j] != '.'
    &&& exists|i: int| 0 <= i < m.len() && is_digit(#[trigger] m[i])
}

/// Position of the exponent mark in `b`, or its length when there is none.
pub open spec fn mark_pos(b: Seq<char>) -> int {
    if exists|p: int| 0 <= p < b.len() && is_exp_mark(b[p]) {
        choose|p: int| 0 <= p < b.len() && is_exp_mark(b[p])
    } else {
        b.len() as int
    }
}

pub open spec fn has_exponent(s: Seq<char>) -> bool {
    mark_pos(numeral_body(s)) < numeral_body(s).len()
}

/// What stands between the sign and the exponent mark.
pub open spec fn mantissa(s: Seq<char>) -> Seq<char> {
    numeral_body(s).take(mark_pos(numeral_body(s)))
}

/// What follows the exponent mark.
pub open spec fn exponent_text(s: Seq<char>) -> Seq<char> {
    let b = numeral_body(s);
    if mark_pos(b) < b.len() {
        b.skip(mark_pos(b) + 1)
    } else {
        Seq::empty()
    }
}

/// The digits of an exponent, after its optional sign.
pub open spec fn exponent_digits(t: Seq<char>) -> Seq<char> {
    t.skip(sign_len(t))
}

/// Largest exponent magnitude that is read.
pub open spec fn max_exponent() -> nat {
    1000
}

/// An optional sign, then at least one digit, naming at most
/// `max_exponent()`.
pub open spec fn exponent_ok(t: Seq<char>) -> bool {
    let d = exponent_digits(t);
    d.len() > 0 && all_digits(d) && digits_value(d) <= max_exponent()
}

/// The power of ten that a numeral's exponent names; 0 without one.
pub open spec fn numeral_exponent(s: Seq<char>) -> int {
    let t = exponent_text(s);
    if !has_exponent(s) {
        0
    } else if sign_len(t) == 1 && t[0] == '-' {
        -(digits_value(exponent_digits(t)) as int)
    } else {
        digits_value(exponent_digits(t)) as int
    }
}

/// A numeral: an optional sign, digits with at most one decimal point and at
/// least one digit, then optionally `e` or `E`, an optional sign and digits
/// whose value is at most `max_exponent()`.
pub open spec fn is_numeral(s: Seq<char>) -> bool {
    &&& is_mantissa(mantissa(s))
    &&& (has_exponent(s) ==> exponent_ok(exponent_text(s)))
}

/// Position of the decimal point in `b`, or its length when there is none.
pub open spec fn point_pos(b: Seq<char>) -> int {
    if exists|p: int| 0 <= p < b.len() && b[p] == '.' {
        choose|p: int| 0 <= p < b.len() && b[p] == '.'
    } else {
        b.len() as int
    }
}

pub open spec fn point_int_part(m: Seq<char>) -> Seq<char> {
    m.take(point_pos(m))
}

pub open spec fn point_frac_part(m: Seq<char>) -> Seq<char> {
    if point_pos(m) < m.len() {
        m.skip(point_pos(m) + 1)
    } else {
        Seq::empty()
    }
}

/// The mantissa's digits before its point.
pub open spec fn numeral_int_part(s: Seq<char>) -> Seq<char> {
    point_int_part(mantissa(s))
}

/// The mantissa's digits after its point.
pub open spec fn numeral_frac_part(s: Seq<char>) -> Seq<char> {
    point_frac_part(mantissa(s))
}

pub open spec fn zeros(n: int) -> Seq<char> {
    Seq::new(n as nat, |i: int| '0')
}

/// The digits before the point when the point stands after `p` of `d`.
pub open spec fn shifted_int(d: Seq<char>, p: int) -> Seq<char> {
    if p >= d.len() {
        d + zeros(p - d.len())
    } else if p <= 0 {
        Seq::empty()
    } else {
        d.take(p)
    }
}

/// The digits after the point when the point stands after `p` of `d`.
pub open spec fn shifted_frac(d: Seq<char>, p: int) -> Seq<char> {
    if p >= d.len() {
        Seq::empty()
    } else if p <= 0 {
        zeros(-p) + d
    } else {
        d.skip(p)
    }
}

/// An exact decimal number: a sign, the digits before the point and those
/// after it.
#[derive(Clone, Debug, PartialEq, Eq)]
pub struct Decimal {
    pub negative: bool,
    pub int_digits: Vec<char>,
    pub frac_digits: Vec<char>,
}

/// Canonical text of a decimal: `-` when negative, the integer digits (`0`
/// when there are none), then the point and the fraction digits if any.
pub open spec fn decimal_text(negative: bool, int_digits: Seq<char>, frac_digits: Seq<char>) -> Seq<char> {
    (if negative { seq!['-'] } else { Seq::<char>::empty() })
        + (if int_digits.len() == 0 { seq!['0'] } else { int_digits })
        + (if frac_digits.len() == 0 { Seq::<char>::empty() } else { seq!['.'] + frac_digits })
}

pub open spec fn clamp(x: int, lo: int, hi: int) -> int {
    if x < lo {
        lo
    } else if x > hi {
        hi
    } else {
        x
    }
}

impl Decimal {
    /// Digits are digits, the integer part has no leading zero and the
    /// fraction no trailing zero.
    pub open spec fn wf(&self) -> bool {
        &&& all_digits(self.int_digits@)
        &&& all_digits(self.frac_digits@)
        &&& (self.int_digits@.len() == 0 || self.int_digits@[0] != '0')
        &&& (self.frac_digits@.len() == 0 || self.frac_digits@.last() != '0')
    }

    pub open spec fn text_spec(&self) -> Seq<char> {
        decimal_text(self.negative, self.int_digits@, self.frac_digits@)
    }

    /// The value with its fraction dropped, that is rounded toward zero.
    pub open spec fn trunc_spec(&self) -> int {
        if self.negative {
            -(digits_value(self.int_digits@) as int)
        } else {
            digits_value(self.int_digits@) as int
        }
    }

    /// Whether the number is a whole number that is not below zero.
    pub open spec fn is_natural(&self) -> bool {
        self.frac_digits@.len() == 0 && (!self.negative || self.int_digits@.len() == 0)
    }
}

pub open spec fn numeral_negative(s: Seq<char>) -> bool {
    sign_len(s) == 1 && s[0] == '-'
}

/// Where the point of a numeral stands among its mantissa digits once the
/// exponent is applied.
pub open spec fn numeral_point(s: Seq<char>) -> int {
    numeral_int_part(s).len() + numeral_exponent(s)
}

/// Integer digits of a numeral's value, without leading zeros.
pub open spec fn numeral_int(s: Seq<char>) -> Seq<char> {
    strip_leading_zeros(shifted_int(numeral_int_part(s) + numeral_frac_part(s), numeral_point(s)))
}

/// Fraction digits of a numeral's value, without trailing zeros.
pub open spec fn numeral_frac(s: Seq<char>) -> Seq<char> {
    strip_trailing_zeros(shifted_frac(numeral_int_part(s) + numeral_frac_part(s), numeral_point(s)))
}

/// The decimal that a numeral denotes, in canonical form.
pub open spec fn numeral_matches(s: Seq<char>, d: Decimal) -> bool {
    &&& d.negative == numeral_negative(s)
    &&& d.int_digits@ == numeral_int(s)
    &&& d.frac_digits@ == numeral_frac(s)
}

/// A numeral's value rounded toward zero.
pub open spec fn numeral_trunc(s: Seq<char>) -> int {
    if numeral_negative(s) {
        -(digits_value(numeral_int(s)) as int)
    } else {
        digits_value(numeral_int(s)) as int
    }
}

/// The whole number from zero to `u64::MAX` that a numeral denotes, if any.
pub open spec fn numeral_u64(s: Seq<char>) -> Option<u64> {
    if is_numeral(s) && numeral_frac(s).len() == 0 && (!numeral_negative(s) || numeral_int(s).len() == 0)
        && digits_value(numeral_int(s)) <= u64::MAX {
        Some(digits_value(numeral_int(s)) as u64)
    } else {
        None
    }
}

/// What reading a numeral gives: nothing when `s` is no numeral, else the
/// canonical decimal it denotes.
pub open spec fn reads_as(s: Seq<char>, r: Option<Decimal>) -> bool {
    &&& (r is Some <==> is_numeral(s))
    &&& (r matches Some(d) ==> d.wf() && numeral_matches(s, d))
}

proof fn lemma_strip_leading(s: Seq<char>)
    requires
        all_digits(s),
    ensures
        all_digits(strip_leading_zeros(s)),
        strip_leading_zeros(s).len() == 0 || strip_leading_zeros(s)[0] != '0',
    decreases s.len(),
{
    if s.len() > 0 && s[0] == '0' {
        lemma_strip_leading(s.skip(1));
    }
}

proof fn lemma_strip_trailing(s: Seq<char>)
    requires
        all_digits(s),
    ensures
        all_digits(strip_trailing_zeros(s)),
        strip_trailing_zeros(s).len() == 0 || strip_trailing_zeros(s).last() != '0',
    decreases s.len(),
{
    if s.len() > 0 && s.last() == '0' {
        lemma_strip_trailing(s.drop_last());
    }
}

/// Drops the zeros at the front of a run of digits.
fn without_leading_zeros(s: &Vec<char>) -> (r: Vec<char>)
    ensures
        r@ == strip_leading_zeros(s@),
{
    let mut k: usize = 0;
    assert(s@.skip(0) =~= s@);
    while k < s.len() && s[k] == '0'
        invariant
            k <= s.len(),
            strip_leading_zeros(s@) == strip_leading_zeros(s@.skip(k as int)),
        decreases s.len() - k,
    {
        assert(s@.skip(k as int).skip(1) =~= s@.skip(k + 1));
        k = k + 1;
    }
    let mut r: Vec<char> = Vec::new();
    let mut i: usize = k;
    while i < s.len()
        invariant
            k <= i <= s.len(),
            r@ == s@.subrange(k as int, i as int),
        decreases s.len() - i,
    {
        r.push(s[i]);
        i = i + 1;
        assert(r@ =~= s@.subrange(k as int, i as int));
    }
    assert(s@.skip(k as int) =~= s@.subrange(k as int, s.len() as int));
    r
}

/// Drops the zeros at the end of a run of digits.
fn without_trailing_zeros(s: &Vec<char>) -> (r: Vec<char>)
    ensures
        r@ == strip_trailing_zeros(s@),
{
    let mut k: usize = s.len();
    assert(s@.take(k as int) =~= s@);
    while k > 0 && s[k - 1] == '0'
        invariant
            k <= s.len(),
            strip_trailing_zeros(s@) == strip_trailing_zeros(s@.take(k as int)),
        decreases k,
    {
        assert(s@.take(k as int).drop_last() =~= s@.take(k - 1));
        k = k - 1;
    }
    let mut r: Vec<char> = Vec::new();
    let mut i: usize = 0;
    while i < k
        invariant
            i <= k <= s.len(),
            r@ == s@.take(i as int),
        decreases k - i,
    {
        r.push(s[i]);
        i = i + 1;
        assert(r@ =~= s@.take(i as int));
    }
    assert(s@.take(k as int) =~= s@.take(k as int).take(k as int));
    if k == s.len() {
        assert(s@.take(k as int) =~= s@);
    }
    r
}

/// Reads the mantissa `s[lo..hi]`: its digits before and after the point.
fn read_mantissa(s: &str, lo: usize, hi: usize) -> (r: Option<(Vec<char>, Vec<char>)>)
    requires
        lo <= hi <= s@.len(),
    ensures
        match r {
            None => !is_mantissa(s@.subrange(lo as int, hi as int)),
            Some((i, f)) => {
                &&& is_mantissa(s@.subrange(lo as int, hi as int))
                &&& i@ == point_int_part(s@.subrange(lo as int, hi as int))
                &&& f@ == point_frac_part(s@.subrange(lo as int, hi as int))
                &&& all_digits(i@)
                &&& all_digits(f@)
            },
        },
{
    let ghost b = s@.subrange(lo as int, hi as int);
    let mut int_raw: Vec<char> = Vec::new();
    let mut frac_raw: Vec<char> = Vec::new();
    let mut seen_point = false;
    let mut point: usize = 0;
    let mut any_digit = false;
    let mut j: usize = lo;
    while j < hi
        invariant
            hi <= s@.len(),
            lo <= j <= hi,
            b == s@.subrange(lo as int, hi as int),
            forall|i: int| 0 <= i < j - lo ==> is_digit(#[trigger] b[i]) || b[i] == '.',
            !seen_point ==> forall|i: int| 0 <= i < j - lo ==> is_digit(#[trigger] b[i]),
            !seen_point ==> int_raw@ == b.take(j - lo),
            seen_point ==> lo <= point < j,
            seen_point ==> b[point - lo] == '.',
            seen_point ==> forall|i: int| 0 <= i < j - lo && i != point - lo ==> is_digit(#[trigger] b[i]),
            seen_point ==> int_raw@ == b.take(point - lo),
            seen_point ==> frac_raw@ == b.subrange(point - lo + 1, j - lo),
            !seen_point ==> frac_raw@.len() == 0,
            any_digit <==> exists|i: int| 0 <= i < j - lo && is_digit(#[trigger] b[i]),
        decreases hi - j,
    {
        let c = s.get_char(j);
        assert(c == b[j - lo]);
        if '0' <= c && c <= '9' {
            if seen_point {
                frac_raw.push(c);
                assert(frac_raw@ =~= b.subrange(point - lo + 1, j + 1 - lo));
            } else {
                int_raw.push(c);
                assert(int_raw@ =~= b.take(j + 1 - lo));
            }
            any_digit = true;
        } else if c == '.' && !seen_point {
            seen_point = true;
            point = j;
            assert(frac_raw@ =~= b.subrange(point - lo + 1, j + 1 - lo));
        } else {
            proof {
                if c == '.' {
                    assert(b[point - lo] == '.' && b[j - lo] == '.');
                } else {
                    assert(!(is_digit(b[j - lo]) || b[j - lo] == '.'));
                }
                assert(!is_mantissa(b));
            }
            return None;
        }
        j = j + 1;
        assert(any_digit <==> exists|i: int| 0 <= i < j - lo && is_digit(#[trigger] b[i])) by {
            if is_digit(c) {
                assert(is_digit(b[j - 1 - lo]));
            }
        }
    }
    if !any_digit {
        return None;
    }
    proof {
        if seen_point {
            assert forall|i: int, k: int| 0 <= i < k < b.len() && #[trigger] b[i] == '.' implies #[trigger] b[k] != '.' by {
                assert(i == point - lo);
            }
            assert(point_pos(b) == point - lo) by {
                let p = choose|p: int| 0 <= p < b.len() && b[p] == '.';
                assert(p == point - lo);
            }
            assert(b.skip(point - lo + 1) =~= b.subrange(point - lo + 1, j - lo));
        } else {
            assert(point_pos(b) == b.len());
            assert(b.take(b.len() as int) =~= b);
        }
        assert(all_digits(int_raw@));
        assert(all_digits(frac_raw@)) by {
            if seen_point {
                assert forall|i: int| 0 <= i < frac_raw@.len() implies is_digit(#[trigger] frac_raw@[i]) by {
                    assert(frac_raw@[i] == b[point - lo + 1 + i]);
                }
            }
        }
        assert(is_mantissa(b));
    }
    Some((int_raw, frac_raw))
}

/// When `q` is the first exponent mark of `b`, the chosen mark is `q`, or the
/// mantissa it leaves is no mantissa.
proof fn lemma_mark_choice(b: Seq<char>, q: int)
    requires
        0 <= q < b.len(),
        is_exp_mark(b[q]),
        forall|i: int| 0 <= i < q ==> !is_exp_mark(#[trigger] b[i]),
    ensures
        mark_pos(b) == q || !is_mantissa(b.take(mark_pos(b))),
{
    let p = mark_pos(b);
    assert(is_exp_mark(b[p]));
    if p != q {
        assert(p > q);
        assert(b.take(p)[q] == b[q]);
        assert(!(is_digit(b.take(p)[q]) || b.take(p)[q] == '.'));
    }
}

fn is_mark(c: char) -> (r: bool)
    ensures
        r == is_exp_mark(c),
{
    c == 'e' || c == 'E'
}

proof fn lemma_zeros_digits(n: int)
    requires
        n >= 0,
    ensures
        all_digits(zeros(n)),
{
}

/// The digits before and after the point when it stands after `p` of
/// `digits`.
fn shift_point(digits: &Vec<char>, p: i128) -> (r: (Vec<char>, Vec<char>))
    requires
        all_digits(digits@),
        -1001 <= p <= digits@.len() + 1001,
    ensures
        r.0@ == shifted_int(digits@, p as int),
        r.1@ == shifted_frac(digits@, p as int),
        all_digits(r.0@),
        all_digits(r.1@),
{
    let n = digits.len();
    let mut int_part: Vec<char> = Vec::new();
    let mut frac_part: Vec<char> = Vec::new();
    if p >= n as i128 {
        let mut i: usize = 0;
        while i < n
            invariant
                n == digits@.len(),
                i <= n,
                int_part@ == digits@.take(i as int),
            decreases n - i,
        {
            int_part.push(digits[i]);
            i = i + 1;
            assert(int_part@ =~= digits@.take(i as int));
        }
        assert(digits@.take(n as int) =~= digits@);
        let extra: usize = (p - n as i128) as usize;
        let mut k: usize = 0;
        while k < extra
            invariant
                k <= extra,
                int_part@ == digits@ + zeros(k as int),
            decreases extra - k,
        {
            int_part.push('0');
            k = k + 1;
            assert(int_part@ =~= digits@ + zeros(k as int));
        }
        proof { lemma_zeros_digits(extra as int); }
        assert(frac_part@ =~= shifted_frac(digits@, p as int));
    } else if p <= 0 {
        let lead: usize = (-p) as usize;
        let mut k: usize = 0;
        while k < lead
            invariant
                k <= lead,
                frac_part@ == zeros(k as int),
            decreases lead - k,
        {
            frac_part.push('0');
            k = k + 1;
            assert(frac_part@ =~= zeros(k as int));
        }
        let mut i: usize = 0;
        while i < n
            invariant
                n == digits@.len(),
                i <= n,
                frac_part@ == zeros(lead as int) + digits@.take(i as int),
            decreases n - i,
        {
            frac_part.push(digits[i]);
            i = i + 1;
            assert(frac_part@ =~= zeros(lead as int) + digits@.take(i as int));
        }
        assert(digits@.take(n as int) =~= digits@);
        proof { lemma_zeros_digits(lead as int); }
        assert(frac_part@ =~= shifted_frac(digits@, p as int));
        assert(int_part@ =~= shifted_int(digits@, p as int));
    } else {
        let cut: usize = p as usize;
        let mut i: usize = 0;
        while i < cut
            invariant
                n == digits@.len(),
                cut < n,
                i <= cut,
                int_part@ == digits@.take(i as int),
            decreases cut - i,
        {
            int_part.push(digits[i]);
            i = i + 1;
            assert(int_part@ =~= digits@.take(i as int));
        }
        let mut k: usize = cut;
        while k < n
            invariant
                n == digits@.len(),
                cut <= k <= n,
                frac_part@ == digits@.subrange(cut as int, k as int),
            decreases n - k,
        {
            frac_part.push(digits[k]);
            k = k + 1;
            assert(frac_part@ =~= digits@.subrange(cut as int, k as int));
        }
        assert(digits@.skip(cut as int) =~= digits@.subrange(cut as int, n as int));
    }
    (int_part, frac_part)
}

impl Decimal {
    /// Reads a numeral: an optional `+` or `-`, decimal digits with at most
    /// one `.` and at least one digit, then optionally `e` or `E` with an
    /// optional sign and the digits of a power of ten of at most 1000 in
    /// magnitude. Anything else (blanks, words, larger exponents) gives
    /// `None`.
    pub fn parse(s: &str) -> (r: Option<Decimal>)
        ensures
            reads_as(s@, r),
    {
        let n = s.unicode_len();
        let mut start: usize = 0;
        let mut negative = false;
        if n > 0 {
            let c0 = s.get_char(0);
            if c0 == '+' || c0 == '-' {
                start = 1;
                negative = c0 == '-';
            }
        }
        let ghost b = s@.subrange(start as int, n as int);
        assert(b == numeral_body(s@));
        let mut q: usize = start;
        while q < n && !is_mark(s.get_char(q))
            invariant
                n == s@.len(),
                start <= q <= n,
                b == s@.subrange(start as int, n as int),
                forall|i: int| 0 <= i < q - start ==> !is_exp_mark(#[trigger] b[i]),
            decreases n - q,
        {
            assert(s@[q as int] == b[q - start]);
            q = q + 1;
        }
        proof {
            if q < n {
                assert(is_exp_mark(b[q - start]));
                lemma_mark_choice(b, q - start);
            } else {
                assert(!exists|p: int| 0 <= p < b.len() && is_exp_mark(b[p]));
                assert(b.take(b.len() as int) =~= b);
            }
            assert(b.take(q - start) =~= s@.subrange(start as int, q as int));
        }
        let (int_raw, frac_raw) = match read_mantissa(s, start, q) {
            None => return None,
            Some(parts) => parts,
        };
        let ghost m = s@.subrange(start as int, q as int);
        let mut exponent: i128 = 0;
        if q < n {
            let ghost t = b.skip(q - start + 1);
            assert(t =~= s@.subrange(q + 1, n as int));
            let mut k: usize = q + 1;
            let mut exp_negative = false;
            if k < n {
                let c = s.get_char(k);
                if c == '+' || c == '-' {
                    exp_negative = c == '-';
                    k = k + 1;
                }
            }
            let dstart = k;
            let ghost t_text = t;
            proof {
                if mark_pos(b) == q - start {
                    assert(exponent_text(s@) == t_text);
                }
            }
            assert(sign_len(t) == dstart - (q + 1));
            assert(exponent_digits(t) =~= s@.subrange(dstart as int, n as int));
            let mut v: u64 = 0;
            assert(s@.subrange(dstart as int, dstart as int) =~= Seq::<char>::empty());
            while k < n
                invariant
                    n == s@.len(),
                    dstart <= k <= n,
                    forall|i: int| dstart <= i < k ==> is_digit(#[trigger] s@[i]),
                    exponent_digits(t_text) == s@.subrange(dstart as int, n as int),
                    q < n,
                    mark_pos(b) == q - start || !is_mantissa(b.take(mark_pos(b))),
                    mark_pos(b) == q - start ==> exponent_text(s@) == t_text,
                    b == numeral_body(s@),
                    v as int == if digits_value(s@.subrange(dstart as int, k as int)) > 1001 {
                        1001
                    } else {
                        digits_value(s@.subrange(dstart as int, k as int)) as int
                    },
                decreases n - k,
            {
                let c = s.get_char(k);
                if !('0' <= c && c <= '9') {
                    proof {
                        let d = exponent_digits(t_text);
                        assert(d[k - dstart] == c);
                        assert(!all_digits(d));
                        assert(!is_numeral(s@));
                    }
                    return None;
                }
                assert(s@.subrange(dstart as int, k + 1).drop_last() =~= s@.subrange(dstart as int, k as int));
                let w: u64 = v * 10 + (c as u32 - '0' as u32) as u64;
                v = if w > 1001 { 1001 } else { w };
                k = k + 1;
            }
            assert(s@.subrange(dstart as int, k as int) =~= exponent_digits(t));
            if k == dstart || v > 1000 {
                proof {
                    assert(!exponent_ok(t_text));
                    assert(!is_numeral(s@));
                }
                return None;
            }
            proof {
                assert forall|i: int| 0 <= i < b.len() && i != q - start implies !is_exp_mark(#[trigger] b[i]) by {
                    if i > q - start {
                        assert(b[i] == s@[i + start]);
                        if i + start >= dstart {
                            assert(is_digit(s@[i + start]));
                        }
                    }
                }
                assert(mark_pos(b) == q - start) by {
                    let p = choose|p: int| 0 <= p < b.len() && is_exp_mark(b[p]);
                    assert(p == q - start);
                }
                assert(all_digits(exponent_digits(t)));
            }
            exponent = if exp_negative { -(v as i128) } else { v as i128 };
        }
        let ilen = int_raw.len();
        let mut all_raw = int_raw;
        let mut frac_moved = frac_raw;
        let ghost ip = all_raw@;
        let ghost fp = frac_moved@;
        all_raw.append(&mut frac_moved);
        assert(all_digits(all_raw@));
        let (int_shift, frac_shift) = shift_point(&all_raw, ilen as i128 + exponent);
        proof {
            assert(mantissa(s@) == m);
            assert(numeral_int_part(s@) == ip);
            assert(numeral_frac_part(s@) == fp);
            assert(numeral_exponent(s@) == exponent as int);
            assert(is_numeral(s@));
            lemma_strip_leading(int_shift@);
            lemma_strip_trailing(frac_shift@);
        }
        let int_digits = without_leading_zeros(&int_shift);
        let frac_digits = without_trailing_zeros(&frac_shift);
        Some(Decimal { negative, int_digits, frac_digits })
    }

    /// The canonical text of the number.
    pub fn to_text(&self) -> (r: String)
        ensures
            r@ == self.text_spec(),
    {
        let mut r = String::new();
        if self.negative {
            push_char(&mut r, '-');
        }
        if self.int_digits.len() == 0 {
            push_char(&mut r, '0');
        }
        let ghost head = r@;
        let mut i: usize = 0;
        while i < self.int_digits.len()
            invariant
                i <= self.int_digits@.len(),
                r@ == head + self.int_digits@.take(i as int),
            decreases self.int_digits@.len() - i,
        {
            push_char(&mut r, self.int_digits[i]);
            i = i + 1;
            assert(r@ =~= head + self.int_digits@.take(i as int));
        }
        assert(self.int_digits@.take(i as int) =~= self.int_digits@);
        if self.frac_digits.len() > 0 {
            push_char(&mut r, '.');
        }
        let ghost head2 = r@;
        let mut k: usize = 0;
        while k < self.frac_digits.len()
            invariant
                k <= self.frac_digits@.len(),
                r@ == head2 + self.frac_digits@.take(k as int),
            decreases self.frac_digits@.len() - k,
        {
            push_char(&mut r, self.frac_digits[k]);
            k = k + 1;
            assert(r@ =~= head2 + self.frac_digits@.take(k as int));
        }
        assert(self.frac_digits@.take(k as int) =~= self.frac_digits@);
        assert(r@ =~= self.text_spec());
        r
    }
}


proof fn lemma_prefix_value_le(s: Seq<char>, i: int)
    requires
        0 <= i <= s.len(),
    ensures
        digits_value(s.take(i)) <= digits_value(s),
    decreases s.len(),
{
    if i < s.len() {
        assert(s.drop_last().take(i) =~= s.take(i));
        lemma_prefix_value_le(s.drop_last(), i);
    } else {
        assert(s.take(i) =~= s);
    }
}

/// The value of a run of digits, when it fits in a `u64`.
pub fn digits_u64(ds: &Vec<char>) -> (r: Option<u64>)
    requires
        all_digits(ds@),
    ensures
        r == (if digits_value(ds@) <= u64::MAX { Some(digits_value(ds@) as u64) } else { None::<u64> }),
{
    let mut v: u64 = 0;
    let mut i: usize = 0;
    assert(ds@.take(0) =~= Seq::<char>::empty());
    while i < ds.len()
        invariant
            i <= ds@.len(),
            all_digits(ds@),
            v as nat == digits_value(ds@.take(i as int)),
        decreases ds@.len() - i,
    {
        let c = ds[i];
        assert(is_digit(ds@[i as int]));
        let d: u64 = (c as u32 - '0' as u32) as u64;
        assert(ds@.take(i + 1).drop_last() =~= ds@.take(i as int));
        let w: u128 = v as u128 * 10 + d as u128;
        if w > u64::MAX as u128 {
            proof {
                lemma_prefix_value_le(ds@, i + 1);
            }
            return None;
        }
        v = w as u64;
        i = i + 1;
    }
    assert(ds@.take(i as int) =~= ds@);
    Some(v)
}

impl Decimal {
    /// The number rounded toward zero, held to the range of `i64`.
    pub fn to_i64(&self) -> (r: i64)
        requires
            self.wf(),
        ensures
            r as int == clamp(self.trunc_spec(), i64::MIN as int, i64::MAX as int),
    {
        match digits_u64(&self.int_digits) {
            None => if self.negative { i64::MIN } else { i64::MAX },
            Some(m) => {
                if self.negative {
                    if m >= 9223372036854775808 { i64::MIN } else { -(m as i64) }
                } else {
                    if m > 9223372036854775807 { i64::MAX } else { m as i64 }
                }
            }
        }
    }

    /// The number rounded toward zero, held to the range of `i32`.
    pub fn to_i32(&self) -> (r: i32)
        requires
            self.wf(),
        ensures
            r as int == clamp(self.trunc_spec(), i32::MIN as int, i32::MAX as int),
    {
        let w = self.to_i64();
        if w < i32::MIN as i64 {
            i32::MIN
        } else if w > i32::MAX as i64 {
            i32::MAX
        } else {
            w as i32
        }
    }

    /// The number as a `u64`, when it is a whole number from zero up to
    /// `u64::MAX`.
    /// The same number: sign and digits.
    pub open spec fn same_as(&self, o: &Decimal) -> bool {
        &&& self.negative == o.negative
        &&& self.int_digits@ == o.int_digits@
        &&& self.frac_digits@ == o.frac_digits@
    }

    pub fn copy(&self) -> (r: Decimal)
        ensures
            r.same_as(self),
    {
        let mut int_digits: Vec<char> = Vec::new();
        let mut i: usize = 0;
        while i < self.int_digits.len()
            invariant
                i <= self.int_digits@.len(),
                int_digits@ == self.int_digits@.take(i as int),
            decreases self.int_digits@.len() - i,
        {
            int_digits.push(self.int_digits[i]);
            i = i + 1;
            assert(int_digits@ =~= self.int_digits@.take(i as int));
        }
        let mut frac_digits: Vec<char> = Vec::new();
        let mut k: usize = 0;
        while k < self.frac_digits.len()
            invariant
                k <= self.frac_digits@.len(),
                frac_digits@ == self.frac_digits@.take(k as int),
            decreases self.frac_digits@.len() - k,
        {
            frac_digits.push(self.frac_digits[k]);
            k = k + 1;
            assert(frac_digits@ =~= self.frac_digits@.take(k as int));
        }
        assert(int_digits@ =~= self.int_digits@);
        assert(frac_digits@ =~= self.frac_digits@);
        Decimal { negative: self.negative, int_digits, frac_digits }
    }

    pub fn zero() -> (r: Decimal)
        ensures
            r.wf(),
            !r.negative,
            r.int_digits@.len() == 0,
            r.frac_digits@.len() == 0,
    {
        Decimal { negative: false, int_digits: Vec::new(), frac_digits: Vec::new() }
    }

    pub fn to_u64(&self) -> (r: Option<u64>)
        requires
            self.wf(),
        ensures
            r == (if self.is_natural() && digits_value(self.int_digits@) <= u64::MAX {
                Some(digits_value(self.int_digits@) as u64)
            } else {
                None::<u64>
            }),
    {
        if self.frac_digits.len() > 0 || (self.negative && self.int_digits.len() > 0) {
            return None;
        }
        digits_u64(&self.int_digits)
    }
}

/// Reads a numeral that names a whole number from zero to `u64::MAX`.
pub fn parse_u64(s: &str) -> (r: Option<u64>)
    ensures
        r == numeral_u64(s@),
{
    match Decimal::parse(s) {
        None => None,
        Some(d) => d.to_u64(),
    }
}

} // verus!
