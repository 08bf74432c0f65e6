//! Numbers with nine decimal places, and numbers as text.
//!
//! A [`Fixed`] counts billionths: one dollar, one basis point or one unit of
//! size is `1_000_000_000`. A [`Total`] counts billionths too and holds every sum
//! of amounts; [`Fees`] count trillionths. Texts are read and written digit by
//! digit.

use vstd::prelude::*;

use crate::text::{ascii_lower, chars_of, lower, lower_char, same_text, text_of};

use vstd::arithmetic::div_mod::{lemma_fundamental_div_mod, lemma_fundamental_div_mod_converse};


verus! {

/// A number in billionths.
pub type Fixed = i64;

/// A sum of numbers in billionths.
pub type Total = i128;

/// Fees in trillionths of a dollar, in which a thousandth of an amount is exact.
pub type Fees = i128;

/// One whole unit.
pub const UNIT: i64 = 1_000_000_000;

/// The largest amount.
pub const FIXED_MAX: i64 = 0x7fff_ffff_ffff_ffff;

/// Figures that are read from texts, and running sums, are saturated at this
/// magnitude. It is far above every amount, so that what reaches it is above
/// every cap.
pub const WIDE_MAX: i128 = 1_000_000_000_000_000_000_000_000_000_000;

/// The nearest amount.
pub open spec fn clamped(x: int) -> int {
    if x > FIXED_MAX {
        FIXED_MAX as int
    } else if x < -FIXED_MAX {
        -FIXED_MAX
    } else {
        x
    }
}

/// The nearest amount.
pub fn clamp_wide(x: i128) -> (r: i64)
    ensures
        r == clamped(x as int),
{
    if x > FIXED_MAX as i128 {
        FIXED_MAX
    } else if x < -(FIXED_MAX as i128) {
        -FIXED_MAX
    } else {
        x as i64
    }
}

/// The number nearest to `x` whose magnitude is within `limit`.
pub open spec fn within(x: int, limit: int) -> int {
    if x > limit {
        limit
    } else if x < -limit {
        -limit
    } else {
        x
    }
}

/// Whether fees are within a cap on them.
pub open spec fn fees_fit(fees: int, cap: Fixed) -> bool {
    fees <= cap * 1000
}

/// Whether fees are within a cap on them.
pub fn are_fees_within(fees: Fees, cap: Fixed) -> (r: bool)
    ensures
        r == fees_fit(fees as int, cap),
{
    fees <= cap as i128 * 1000
}

/// A number, or zero where it is negative.
pub open spec fn floor_zero(x: int) -> int {
    if x < 0 {
        0
    } else {
        x
    }
}

/// A number, or zero where it is negative.
pub fn at_least_zero(x: i64) -> (r: i64)
    ensures
        r == floor_zero(x as int),
{
    if x < 0 {
        0
    } else {
        x
    }
}

/// The distance of a number from zero.
pub open spec fn magnitude(x: int) -> int {
    if x < 0 {
        -x
    } else {
        x
    }
}

/// The sum of two remainders: whether the divisor fits into it, and what is
/// left.
fn add_remainders(a: u128, b: u128, d: u128) -> (r: (u128, u128))
    requires
        a < d,
        b < d,
    ensures
        a + b == r.0 * d + r.1,
        r.0 <= 1,
        r.1 < d,
{
    if a >= d - b {
        (1, a - (d - b))
    } else {
        (0, a + b)
    }
}

/// The quotient, saturated, and the remainder of a product divided by `d`.
fn divided_product(f: u128, p: u128, d: u128) -> (r: (i128, u128))
    requires
        0 < d,
        p <= 0x7fff_ffff_ffff_ffff_ffff_ffff_ffff_ffff,
    ensures
        0 <= r.0 <= WIDE_MAX,
        r.0 == within((f * p) / d as int, WIDE_MAX as int),
        r.1 == (f * p) % d as int,
    decreases f,
{
    if f == 0 {
        assert((0 * p) / d as int == 0 && (0 * p) % d as int == 0) by (nonlinear_arith)
            requires
                d > 0,
        ;
        return (0, 0);
    }
    let h: u128 = f / 2;
    let (q, r) = divided_product(h, p, d);
    let (c, s) = add_remainders(r, r, d);
    let odd: bool = f % 2 == 1;
    let more: u128 = if odd {
        p / d
    } else {
        0
    };
    let rest: u128 = if odd {
        p % d
    } else {
        0
    };
    let (e, t) = add_remainders(s, rest, d);
    proof {
        let b: int = if odd {
            1
        } else {
            0
        };
        let x = h * p;
        let k = x / d as int;
        let n = 2 * k + more + c + e;
        assert(x >= 0) by (nonlinear_arith)
            requires
                x == h * p,
                h >= 0,
                p >= 0,
        ;
        lemma_fundamental_div_mod(x, d as int);
        lemma_fundamental_div_mod(p as int, d as int);
        assert(f * p == 2 * x + b * p) by (nonlinear_arith)
            requires
                f == 2 * h + b,
                x == h * p,
        ;
        assert(b * p == more * d + rest) by (nonlinear_arith)
            requires
                p == d * (p as int / d as int) + p as int % d as int,
                (b == 1 && more == p as int / d as int && rest == p as int % d as int) || (b == 0
                    && more == 0 && rest == 0),
        ;
        assert(f * p == n * d + t) by (nonlinear_arith)
            requires
                f * p == 2 * x + b * p,
                x == d * k + r,
                b * p == more * d + rest,
                r + r == c * d + s,
                s + rest == e * d + t,
                n == 2 * k + more + c + e,
        ;
        lemma_fundamental_div_mod_converse((f * p) as int, d as int, n, t as int);
        assert(k >= 0) by (nonlinear_arith)
            requires
                k == x / d as int,
                x >= 0,
                d > 0,
        ;
        assert(more <= p) by (nonlinear_arith)
            requires
                more == 0 || more == p as int / d as int,
                d >= 1,
                p >= 0,
        ;
    }
    let sum: u128 = 2 * (q as u128) + more + c + e;
    if sum > WIDE_MAX as u128 {
        (WIDE_MAX, t)
    } else {
        (sum as i128, t)
    }
}

/// The part of `x` that `part` is of `whole`, rounded up and saturated.
pub open spec fn share_up(x: int, part: int, whole: int) -> int
    recommends
        whole > 0,
{
    within((x * part + whole - 1) / whole, WIDE_MAX as int)
}

/// The part of `x` that `part` is of `whole`, rounded up and saturated.
pub fn share_of(x: i128, part: i128, whole: i128) -> (r: i128)
    requires
        part >= 0,
        whole > 0,
    ensures
        r == share_up(x as int, part as int, whole as int),
        -WIDE_MAX <= r <= WIDE_MAX,
{
    let m: u128 = if x < 0 {
        (-(x + 1)) as u128 + 1
    } else {
        x as u128
    };
    let (q, r) = divided_product(m, part as u128, whole as u128);
    let ghost n = m * part;
    let ghost k = n / whole as int;
    let ghost w = whole as int;
    proof {
        lemma_fundamental_div_mod(n, w);
        if x < 0 {
            assert(x * part == -n) by (nonlinear_arith)
                requires
                    x == -m,
                    n == m * part,
            ;
            assert(x * part + w - 1 == -k * w + (w - 1 - r)) by (nonlinear_arith)
                requires
                    x * part == -n,
                    n == w * k + r,
            ;
            lemma_fundamental_div_mod_converse(x * part + w - 1, w, -k, w - 1 - r);
        } else if r > 0 {
            assert(x * part + w - 1 == (k + 1) * w + (r - 1)) by (nonlinear_arith)
                requires
                    x == m,
                    n == m * part,
                    n == w * k + r,
            ;
            lemma_fundamental_div_mod_converse(x * part + w - 1, w, k + 1, r - 1);
        } else {
            assert(x * part + w - 1 == k * w + (w - 1)) by (nonlinear_arith)
                requires
                    x == m,
                    n == m * part,
                    n == w * k + r,
                    r == 0,
            ;
            lemma_fundamental_div_mod_converse(x * part + w - 1, w, k, w - 1);
        }
        assert(k >= 0) by (nonlinear_arith)
            requires
                k == n / w,
                n == m * part,
                m >= 0,
                part >= 0,
                w > 0,
        ;
    }
    if x < 0 {
        -q
    } else if r > 0 && q < WIDE_MAX {
        q + 1
    } else {
        q
    }
}

/// The character of one decimal digit.
pub open spec fn digit_char(k: int) -> char {
    (48 + k) as char
}

fn digit_of(k: u8) -> (r: char)
    requires
        k < 10,
    ensures
        r == digit_char(k as int),
{
    (48 + k) as char
}

/// The decimal digits of a natural number, without leading zeros.
pub open spec fn dec(n: nat) -> Seq<char>
    decreases n,
{
    if n < 10 {
        seq![digit_char(n as int)]
    } else {
        dec(n / 10).push(digit_char((n % 10) as int))
    }
}

/// The last `width` decimal digits of a number, with leading zeros.
pub open spec fn dec_padded(n: nat, width: nat) -> Seq<char>
    decreases width,
{
    if width == 0 {
        Seq::empty()
    } else {
        dec_padded(n / 10, (width - 1) as nat).push(digit_char((n % 10) as int))
    }
}

/// How often `2 * half` fits into a number, to the nearest whole number; a tie
/// goes to the even neighbour.
pub open spec fn nearest(n: nat, half: nat) -> nat
    recommends
        half > 0,
{
    let q = n / (2 * half);
    let r = n % (2 * half);
    if r > half || (r == half && q % 2 == 1) {
        q + 1
    } else {
        q
    }
}

/// A number of millionths with six decimal places.
pub open spec fn millionths_text(m: nat) -> Seq<char> {
    dec(m / 1000000) + "."@ + dec_padded(m % 1000000, 6)
}

/// A minus sign where the number is negative.
pub open spec fn sign_text(x: int) -> Seq<char> {
    if x < 0 {
        "-"@
    } else {
        Seq::empty()
    }
}

/// A number of billionths with six decimal places.
pub open spec fn fixed6(x: int) -> Seq<char> {
    sign_text(x) + millionths_text(nearest(magnitude(x) as nat, 500))
}

/// A number of trillionths with six decimal places.
pub open spec fn fine6(x: int) -> Seq<char> {
    sign_text(x) + millionths_text(nearest(magnitude(x) as nat, 500000))
}

/// The digits behind the point, without trailing zeros.
pub open spec fn fraction_text(frac: nat, width: nat) -> Seq<char>
    decreases width,
{
    if width > 1 && frac % 10 == 0 {
        fraction_text(frac / 10, (width - 1) as nat)
    } else {
        dec_padded(frac, width)
    }
}

/// A number with as many decimal places as it needs.
pub open spec fn fixed_plain(x: int) -> Seq<char> {
    let m = magnitude(x) as nat;
    let whole = sign_text(x) + dec(m / 1000000000);
    if m % 1000000000 == 0 {
        whole
    } else {
        whole + "."@ + fraction_text(m % 1000000000, 9)
    }
}

/// Appends the decimal digits of a number.
pub fn push_u64(s: &mut String, n: u64)
    ensures
        final(s)@ == old(s)@ + dec(n as nat),
    decreases n,
{
    let ghost start = s@;
    if n >= 10 {
        push_u64(s, n / 10);
    }
    s.push(digit_of((n % 10) as u8));
    proof {
        if n >= 10 {
            assert(s@ =~= start + dec(n as nat));
        } else {
            assert(s@ =~= start + dec(n as nat));
        }
    }
}

/// Appends the decimal digits of a count.
pub fn push_count(s: &mut String, n: usize)
    ensures
        final(s)@ == old(s)@ + dec(n as nat),
{
    push_u64(s, n as u64);
}

/// A number and what it counts.
pub fn counted(n: usize, text: &str) -> (r: String)
    ensures
        r@ == dec(n as nat) + text@,
{
    let mut s: String = String::new();
    push_count(&mut s, n);
    s.append(text);
    assert(s@ =~= dec(n as nat) + text@);
    s
}

/// Appends the last `width` digits of a number.
pub fn push_padded(s: &mut String, n: u64, width: u8)
    ensures
        final(s)@ == old(s)@ + dec_padded(n as nat, width as nat),
    decreases width,
{
    let ghost start = s@;
    if width > 0 {
        push_padded(s, n / 10, width - 1);
        s.push(digit_of((n % 10) as u8));
    }
    assert(s@ =~= start + dec_padded(n as nat, width as nat));
}

fn push_sign(s: &mut String, x: i64) -> (m: u64)
    ensures
        final(s)@ == old(s)@ + sign_text(x as int),
        m == magnitude(x as int),
{
    let ghost start = s@;
    if x < 0 {
        s.append("-");
        (-(x as i128)) as u64
    } else {
        assert(s@ =~= start + sign_text(x as int));
        x as u64
    }
}

fn push_u128(s: &mut String, n: u128)
    ensures
        final(s)@ == old(s)@ + dec(n as nat),
    decreases n,
{
    let ghost start = s@;
    if n >= 10 {
        push_u128(s, n / 10);
    }
    s.push(digit_of((n % 10) as u8));
    assert(s@ =~= start + dec(n as nat));
}

fn push_wide_sign(s: &mut String, x: i128) -> (m: u128)
    ensures
        final(s)@ == old(s)@ + sign_text(x as int),
        m == magnitude(x as int),
{
    let ghost start = s@;
    if x < 0 {
        s.append("-");
        (-(x + 1)) as u128 + 1
    } else {
        assert(s@ =~= start + sign_text(x as int));
        x as u128
    }
}

fn push_nearest(s: &mut String, n: u128, half: u128)
    requires
        1 < half <= 500000,
    ensures
        final(s)@ == old(s)@ + millionths_text(nearest(n as nat, half as nat)),
{
    let ghost start = s@;
    let q: u128 = n / (2 * half);
    let r: u128 = n % (2 * half);
    assert(q <= n / 2) by (nonlinear_arith)
        requires
            q == n as int / (2 * half as int),
            half >= 1,
    ;
    let m: u128 = if r > half || (r == half && q % 2 == 1) {
        q + 1
    } else {
        q
    };
    push_u128(s, m / 1000000);
    s.append(".");
    push_padded(s, (m % 1000000) as u64, 6);
    assert(s@ =~= start + millionths_text(m as nat));
}

/// Appends a number of billionths with six decimal places.
pub fn push_fixed6(s: &mut String, x: i64)
    ensures
        final(s)@ == old(s)@ + fixed6(x as int),
{
    push_total6(s, x as i128);
}

/// Appends a number of billionths with six decimal places.
pub fn push_total6(s: &mut String, x: Total)
    ensures
        final(s)@ == old(s)@ + fixed6(x as int),
{
    let ghost start = s@;
    let n: u128 = push_wide_sign(s, x);
    push_nearest(s, n, 500);
    assert(s@ =~= start + fixed6(x as int));
}

/// Appends a natural number of billionths with six decimal places.
pub fn push_natural6(s: &mut String, x: u128)
    ensures
        final(s)@ == old(s)@ + fixed6(x as int),
{
    let ghost start = s@;
    push_nearest(s, x, 500);
    assert(s@ =~= start + fixed6(x as int));
}

/// Appends a number of trillionths with six decimal places.
pub fn push_fine6(s: &mut String, x: Fees)
    ensures
        final(s)@ == old(s)@ + fine6(x as int),
{
    let ghost start = s@;
    let n: u128 = push_wide_sign(s, x);
    push_nearest(s, n, 500000);
    assert(s@ =~= start + fine6(x as int));
}

fn push_fraction(s: &mut String, frac: u64, width: u8)
    ensures
        final(s)@ == old(s)@ + fraction_text(frac as nat, width as nat),
    decreases width,
{
    if width > 1 && frac % 10 == 0 {
        push_fraction(s, frac / 10, width - 1);
    } else {
        push_padded(s, frac, width);
    }
}

/// Appends a number with as many decimal places as it needs.
pub fn push_plain(s: &mut String, x: i64)
    ensures
        final(s)@ == old(s)@ + fixed_plain(x as int),
{
    let ghost start = s@;
    let n: u64 = push_sign(s, x);
    push_u64(s, n / 1000000000);
    if n % 1000000000 != 0 {
        s.append(".");
        push_fraction(s, n % 1000000000, 9);
    }
    assert(s@ =~= start + fixed_plain(x as int));
}

/// Whether a character is a decimal digit.
pub open spec fn is_digit(c: char) -> bool {
    '0' <= c <= '9'
}

/// The number that a run of decimal digits denotes.
pub open spec fn digits_value(d: Seq<char>) -> int
    decreases d.len(),
{
    if d.len() == 0 {
        0
    } else {
        digits_value(d.drop_last()) * 10 + (d.last() as int - 48)
    }
}

/// The length of the run of digits that a text starts with.
pub open spec fn digit_run(s: Seq<char>) -> nat
    decreases s.len(),
{
    if s.len() > 0 && is_digit(s[0]) {
        1 + digit_run(s.subrange(1, s.len() as int))
    } else {
        0
    }
}

/// Ten to the power of `k`.
pub open spec fn pow10(k: nat) -> int
    decreases k,
{
    if k == 0 {
        1
    } else {
        10 * pow10((k - 1) as nat)
    }
}

/// The whole number that stands before the point when it is put behind `t`
/// digits; missing digits count as zeros.
pub open spec fn leading_value(d: Seq<char>, t: int) -> int {
    if t <= 0 {
        0
    } else if t <= d.len() {
        digits_value(d.subrange(0, t))
    } else {
        digits_value(d) * pow10((t - d.len()) as nat)
    }
}

/// Whether a digit other than zero stands behind the point when it is put
/// behind `t` digits.
pub open spec fn cuts_off(d: Seq<char>, t: int) -> bool {
    exists|k: int| t <= k && 0 <= k < d.len() && #[trigger] d[k] != '0'
}

/// The least whole number that is not below the number that the digits denote
/// when the point is put behind `t` of them.
pub open spec fn ceiling_value(d: Seq<char>, t: int) -> int {
    leading_value(d, t) + (if cuts_off(d, t) {
        1int
    } else {
        0int
    })
}

/// The parts of a decimal number.
pub struct DecimalParts {
    pub negative: bool,
    pub digits: Seq<char>,
    pub point: int,
}

/// An exponent counts up to this magnitude.
pub open spec fn exponent_cap() -> int {
    1_000_000_000_000_000_000_000_000
}

/// An exponent, saturated at the cap.
pub open spec fn capped_exponent(e: int) -> int {
    if e > exponent_cap() {
        exponent_cap()
    } else {
        e
    }
}

/// Whether a text starts with a sign.
pub open spec fn has_sign(s: Seq<char>) -> bool {
    s.len() > 0 && (s[0] == '+' || s[0] == '-')
}

/// A text without its leading sign.
pub open spec fn unsigned(s: Seq<char>) -> Seq<char> {
    if has_sign(s) {
        s.subrange(1, s.len() as int)
    } else {
        s
    }
}

/// The exponent that a text gives: nothing, or `e` and a whole number.
pub open spec fn read_exponent(s: Seq<char>) -> Option<int> {
    if s.len() == 0 {
        Some(0)
    } else if s[0] == 'e' || s[0] == 'E' {
        let t = s.subrange(1, s.len() as int);
        let d = unsigned(t);
        if d.len() > 0 && digit_run(d) == d.len() {
            if has_sign(t) && t[0] == '-' {
                Some(-capped_exponent(digits_value(d)))
            } else {
                Some(capped_exponent(digits_value(d)))
            }
        } else {
            None
        }
    } else {
        None
    }
}

/// The fraction digits that follow a point.
pub open spec fn fraction_run(s: Seq<char>) -> nat {
    if s.len() > 0 && s[0] == '.' {
        digit_run(s.subrange(1, s.len() as int))
    } else {
        0
    }
}

/// What follows the fraction, or the whole text where there is no point.
pub open spec fn after_fraction(s: Seq<char>) -> Seq<char> {
    if s.len() > 0 && s[0] == '.' {
        s.subrange(1 + fraction_run(s) as int, s.len() as int)
    } else {
        s
    }
}

/// The digits that an unsigned number starts with, without the point.
pub open spec fn mantissa_digits(s: Seq<char>) -> Seq<char> {
    let whole = digit_run(s);
    let rest = s.subrange(whole as int, s.len() as int);
    if fraction_run(rest) == 0 {
        s.subrange(0, whole as int)
    } else {
        s.subrange(0, whole as int) + rest.subrange(1, 1 + fraction_run(rest) as int)
    }
}

/// Whether a text is a word for infinity, with or without a sign.
pub open spec fn reads_infinite(s: Seq<char>) -> bool {
    lower(unsigned(s)) == "inf"@ || lower(unsigned(s)) == "infinity"@
}

/// A decimal number as text: an optional sign, digits with an optional point,
/// and an optional exponent. At least one digit stands before the exponent.
/// A word for infinity denotes a number above every limit.
pub open spec fn read_decimal(s: Seq<char>) -> Option<DecimalParts> {
    let r = unsigned(s);
    let whole = digit_run(r);
    let rest = r.subrange(whole as int, r.len() as int);
    let frac = fraction_run(rest);
    if reads_infinite(s) {
        Some(
            DecimalParts {
                negative: has_sign(s) && s[0] == '-',
                digits: seq!['1'],
                point: exponent_cap(),
            },
        )
    } else if whole + frac == 0 {
        None
    } else {
        match read_exponent(after_fraction(rest)) {
            None => None,
            Some(e) => Some(
                DecimalParts {
                    negative: has_sign(s) && s[0] == '-',
                    digits: mantissa_digits(r),
                    point: whole + e,
                },
            ),
        }
    }
}

/// A magnitude with its sign.
pub open spec fn signed(negative: bool, m: int) -> int {
    if negative {
        -m
    } else {
        m
    }
}

/// The number that a text denotes, in units of the given decimal place: what
/// is less than a unit is cut off, and the range is saturated.
pub open spec fn decimal_value(s: Seq<char>, places: nat) -> Option<int> {
    match read_decimal(s) {
        None => None,
        Some(p) => Some(
            within(signed(p.negative, leading_value(p.digits, p.point + places)), WIDE_MAX as int),
        ),
    }
}

/// The distance from zero of the number that a text denotes, in units of the
/// given decimal place: it is rounded up, and the range is saturated. It is above
/// a whole bound within range where the text's own number is.
pub open spec fn size_value(s: Seq<char>, places: nat) -> Option<int> {
    match read_decimal(s) {
        None => None,
        Some(p) => Some(within(ceiling_value(p.digits, p.point + places), WIDE_MAX as int)),
    }
}

/// The distance from zero of the amount that a text denotes, in billionths
/// and rounded up.
pub open spec fn amount_size(s: Seq<char>) -> Option<int> {
    size_value(s, 9)
}

/// The distance from zero of the amount that a text denotes, in billionths:
/// what is less than a billionth is cut off, but an amount other than zero
/// counts at least one.
pub open spec fn amount_worth(s: Seq<char>) -> Option<int> {
    match read_decimal(s) {
        None => None,
        Some(p) => {
            let m = leading_value(p.digits, p.point + 9);
            Some(
                clamped(
                    if m == 0 {
                        ceiling_value(p.digits, p.point + 9)
                    } else {
                        m
                    },
                ),
            )
        },
    }
}

/// Whether a text denotes a number below zero, or a zero with a minus sign.
pub open spec fn reads_negative(s: Seq<char>) -> bool {
    read_decimal(s) is Some && read_decimal(s)->0.negative
}

fn digit(c: char) -> (r: bool)
    ensures
        r == is_digit(c),
{
    '0' <= c && c <= '9'
}

proof fn digit_run_skip(s: Seq<char>, i: int)
    requires
        0 <= i <= s.len(),
        forall|k: int| 0 <= k < i ==> is_digit(#[trigger] s[k]),
    ensures
        digit_run(s) == i + digit_run(s.subrange(i, s.len() as int)),
    decreases i,
{
    if i == 0 {
        assert(s.subrange(0, s.len() as int) =~= s);
    } else {
        let t = s.subrange(1, s.len() as int);
        assert forall|k: int| 0 <= k < i - 1 implies is_digit(#[trigger] t[k]) by {
            assert(t[k] == s[k + 1]);
        }
        digit_run_skip(t, i - 1);
        assert(t.subrange(i - 1, t.len() as int) =~= s.subrange(i, s.len() as int));
        assert(is_digit(s[0]));
    }
}

/// The position behind the run of digits that starts at `from`.
fn digits_end(v: &Vec<char>, from: usize) -> (r: usize)
    requires
        from <= v@.len(),
    ensures
        from <= r <= v@.len(),
        r == from + digit_run(v@.subrange(from as int, v@.len() as int)),
        forall|k: int| from <= k < r ==> is_digit(#[trigger] v@[k]),
{
    let mut i: usize = from;
    while i < v.len() && digit(v[i])
        invariant
            from <= i <= v@.len(),
            forall|k: int| from <= k < i ==> is_digit(#[trigger] v@[k]),
        decreases v@.len() - i,
    {
        i += 1;
    }
    proof {
        let s = v@.subrange(from as int, v@.len() as int);
        assert forall|k: int| 0 <= k < i - from implies is_digit(#[trigger] s[k]) by {
            assert(s[k] == v@[k + from]);
        }
        digit_run_skip(s, i - from);
        let t = s.subrange(i - from, s.len() as int);
        assert(t.len() > 0 ==> t[0] == v@[i as int]);
    }
    i
}

proof fn digits_value_step(d: Seq<char>, i: int)
    requires
        0 <= i < d.len(),
    ensures
        digits_value(d.subrange(0, i + 1)) == digits_value(d.subrange(0, i)) * 10 + (d[i] as int
            - 48),
{
    assert(d.subrange(0, i + 1).drop_last() =~= d.subrange(0, i));
}

proof fn digits_value_grows(d: Seq<char>, i: int, j: int)
    requires
        0 <= i <= j <= d.len(),
        forall|k: int| 0 <= k < d.len() ==> is_digit(#[trigger] d[k]),
    ensures
        0 <= digits_value(d.subrange(0, i)) <= digits_value(d.subrange(0, j)),
    decreases j,
{
    if j > 0 {
        digits_value_step(d, j - 1);
        assert(is_digit(d[j - 1]));
        if i < j {
            digits_value_grows(d, i, j - 1);
        } else {
            digits_value_grows(d, j - 1, j - 1);
        }
    }
}

/// The digits of `v` between two positions as a number, saturated at `cap`.
fn run_value(v: &Vec<char>, from: usize, to: usize, cap: i128) -> (r: i128)
    requires
        from <= to <= v@.len(),
        forall|k: int| from <= k < to ==> is_digit(#[trigger] v@[k]),
        0 <= cap <= WIDE_MAX,
    ensures
        0 <= r <= cap,
        r == if digits_value(v@.subrange(from as int, to as int)) > cap {
            cap as int
        } else {
            digits_value(v@.subrange(from as int, to as int))
        },
{
    let ghost d = v@.subrange(from as int, to as int);
    proof {
        assert forall|k: int| 0 <= k < d.len() implies is_digit(#[trigger] d[k]) by {
            assert(d[k] == v@[k + from]);
        }
        assert(d.subrange(0, d.len() as int) =~= d);
    }
    let mut acc: i128 = 0;
    let mut i: usize = from;
    while i < to
        invariant
            from <= i <= to <= v@.len(),
            d == v@.subrange(from as int, to as int),
            d.subrange(0, d.len() as int) == d,
            forall|k: int| 0 <= k < d.len() ==> is_digit(#[trigger] d[k]),
            0 <= cap <= WIDE_MAX,
            0 <= acc <= cap,
            acc == digits_value(d.subrange(0, i - from)),
        decreases to - i,
    {
        proof {
            digits_value_step(d, i - from);
            digits_value_grows(d, i - from + 1, d.len() as int);
            assert(d[i - from] == v@[i as int]);
            assert(is_digit(d[i - from]));
        }
        let c: u8 = v[i] as u8;
        let next: i128 = acc * 10 + (c - 48) as i128;
        if next > cap {
            return cap;
        }
        acc = next;
        i += 1;
    }
    acc
}

proof fn pow10_positive(k: nat)
    ensures
        pow10(k) >= 1,
    decreases k,
{
    if k > 0 {
        pow10_positive((k - 1) as nat);
    }
}

/// The value of the digits with the point behind `t` of them, saturated at `cap`.
fn shifted_value(d: &Vec<char>, t: i128, cap: i128) -> (r: i128)
    requires
        0 < cap <= WIDE_MAX,
        forall|k: int| 0 <= k < d@.len() ==> is_digit(#[trigger] d@[k]),
        -0x7fff_ffff_ffff_ffff_ffff_ffff_ffff <= t <= 0x7fff_ffff_ffff_ffff_ffff_ffff_ffff,
    ensures
        r == if leading_value(d@, t as int) > cap {
            cap as int
        } else {
            leading_value(d@, t as int)
        },
        0 <= r <= cap,
{
    if t <= 0 {
        return 0;
    }
    let n: usize = d.len();
    if t <= n as i128 {
        return run_value(d, 0, t as usize, cap);
    }
    let mut acc: i128 = run_value(d, 0, n, cap);
    assert(d@.subrange(0, n as int) =~= d@);
    let mut z: i128 = t - n as i128;
    let ghost total = digits_value(d@) * pow10(z as nat);
    proof {
        pow10_positive(z as nat);
        digits_value_grows(d@, 0, n as int);
        assert(total >= digits_value(d@)) by (nonlinear_arith)
            requires
                total == digits_value(d@) * pow10(z as nat),
                pow10(z as nat) >= 1,
                digits_value(d@) >= 0,
        ;
        if digits_value(d@) > cap {
            assert(total > cap);
        }
        if acc < cap {
            assert(acc == digits_value(d@));
        }
    }
    while z > 0 && acc > 0 && acc < cap
        invariant
            0 < cap <= WIDE_MAX,
            0 <= z,
            0 <= acc <= cap,
            acc < cap ==> total == acc * pow10(z as nat),
            acc == cap ==> total >= cap,
        decreases z,
    {
        let ghost before = acc;
        let ghost zb = z;
        z -= 1;
        acc = acc * 10;
        proof {
            let p = pow10(z as nat);
            pow10_positive(z as nat);
            assert(pow10(zb as nat) == 10 * p);
            assert(total == (before * 10) * p) by (nonlinear_arith)
                requires
                    total == before * (10 * p),
            ;
            assert((before * 10) * p >= before * 10) by (nonlinear_arith)
                requires
                    p >= 1,
                    before >= 0,
            ;
        }
        if acc > cap {
            acc = cap;
        }
    }
    proof {
        if acc == 0 {
            assert(total == 0) by (nonlinear_arith)
                requires
                    total == acc * pow10(z as nat),
                    acc == 0,
            ;
        }
    }
    acc
}

fn read_exponent_at(v: &Vec<char>, from: usize) -> (r: Option<i128>)
    requires
        from <= v@.len(),
    ensures
        match read_exponent(v@.subrange(from as int, v@.len() as int)) {
            None => r is None,
            Some(e) => r is Some && r->0 == e && -exponent_cap() <= e <= exponent_cap(),
        },
{
    let n: usize = v.len();
    let ghost s = v@.subrange(from as int, n as int);
    if from == n {
        return Some(0);
    }
    assert(s[0] == v@[from as int]);
    if v[from] != 'e' && v[from] != 'E' {
        return None;
    }
    let ghost t = s.subrange(1, s.len() as int);
    assert(t =~= v@.subrange(from + 1, n as int));
    let mut start: usize = from + 1;
    let mut negative: bool = false;
    if start < n && (v[start] == '+' || v[start] == '-') {
        assert(t[0] == v@[start as int]);
        negative = v[start] == '-';
        start += 1;
    } else {
        assert(t.len() > 0 ==> t[0] == v@[start as int]);
    }
    let ghost d = unsigned(t);
    assert(d =~= v@.subrange(start as int, n as int));
    let end: usize = digits_end(v, start);
    if start == n || end != n {
        return None;
    }
    let e: i128 = run_value(v, start, n, 1_000_000_000_000_000_000_000_000);
    proof {
        assert forall|k: int| 0 <= k < d.len() implies is_digit(#[trigger] d[k]) by {
            assert(d[k] == v@[k + start]);
        }
        digits_value_grows(d, 0, d.len() as int);
        assert(d.subrange(0, d.len() as int) =~= d);
    }
    if negative {
        Some(-e)
    } else {
        Some(e)
    }
}

/// The digits of `v` between two positions, appended to `out`.
fn push_digits(out: &mut Vec<char>, v: &Vec<char>, from: usize, to: usize)
    requires
        from <= to <= v@.len(),
    ensures
        final(out)@ == old(out)@ + v@.subrange(from as int, to as int),
{
    let ghost first = out@;
    let mut i: usize = from;
    assert(out@ =~= first + v@.subrange(from as int, i as int));
    while i < to
        invariant
            from <= i <= to <= v@.len(),
            out@ == first + v@.subrange(from as int, i as int),
        decreases to - i,
    {
        out.push(v[i]);
        assert(out@ =~= first + v@.subrange(from as int, i as int + 1));
        i += 1;
    }
}

/// The digits before the exponent, the count of those before the point, and
/// the position behind them.
fn read_mantissa(v: &Vec<char>, start: usize) -> (r: (Vec<char>, usize, usize))
    requires
        start <= v@.len(),
    ensures
        ({
            let s = v@.subrange(start as int, v@.len() as int);
            let rest = s.subrange(digit_run(s) as int, s.len() as int);
            &&& r.0@ == mantissa_digits(s)
            &&& r.1 == digit_run(s)
            &&& r.0@.len() == digit_run(s) + fraction_run(rest)
            &&& r.2 <= v@.len()
            &&& v@.subrange(r.2 as int, v@.len() as int) == after_fraction(rest)
        }),
        forall|k: int| 0 <= k < r.0@.len() ==> is_digit(#[trigger] r.0@[k]),
{
    let n: usize = v.len();
    let ghost s = v@.subrange(start as int, n as int);
    let end: usize = digits_end(v, start);
    let ghost rest = s.subrange(digit_run(s) as int, s.len() as int);
    assert(rest =~= v@.subrange(end as int, n as int));
    let mut digits: Vec<char> = Vec::new();
    push_digits(&mut digits, v, start, end);
    assert(digits@ =~= s.subrange(0, digit_run(s) as int));
    let ghost first = digits@;
    assert forall|k: int| 0 <= k < first.len() implies is_digit(#[trigger] first[k]) by {
        assert(first[k] == v@[k + start]);
    }
    if end < n && v[end] == '.' {
        assert(rest[0] == v@[end as int]);
        let tail: usize = digits_end(v, end + 1);
        assert(rest.subrange(1, rest.len() as int) =~= v@.subrange(end as int + 1, n as int));
        push_digits(&mut digits, v, end + 1, tail);
        assert(rest.subrange(1, 1 + fraction_run(rest) as int) =~= v@.subrange(
            end as int + 1,
            tail as int,
        ));
        assert(after_fraction(rest) =~= v@.subrange(tail as int, n as int));
        assert(digits@ =~= mantissa_digits(s));
        assert forall|k: int| 0 <= k < digits@.len() implies is_digit(#[trigger] digits@[k]) by {
            if k < first.len() {
                assert(digits@[k] == first[k]);
            } else {
                assert(digits@[k] == v@[k - first.len() + end + 1]);
            }
        }
        (digits, end - start, tail)
    } else {
        assert(rest.len() > 0 ==> rest[0] == v@[end as int]);
        assert(after_fraction(rest) =~= v@.subrange(end as int, n as int));
        assert(digits@ =~= mantissa_digits(s));
        (digits, end - start, end)
    }
}

/// What a text that denotes a number is made of.
struct Reading {
    negative: bool,
    digits: Vec<char>,
    point: i128,
}

fn is_infinite_at(v: &Vec<char>, start: usize) -> (r: bool)
    requires
        start <= v@.len(),
    ensures
        r == (lower(v@.subrange(start as int, v@.len() as int)) == "inf"@
            || lower(v@.subrange(start as int, v@.len() as int)) == "infinity"@),
{
    let s: String = text_of(v, start, v.len());
    let word: String = ascii_lower(&s);
    same_text(&word, "inf") || same_text(&word, "infinity")
}

fn read_number(text: &str) -> (r: Option<Reading>)
    ensures
        match read_decimal(text@) {
            None => r is None,
            Some(p) => {
                &&& r is Some
                &&& r->0.negative == p.negative
                &&& r->0.digits@ == p.digits
                &&& r->0.point == p.point
                &&& -exponent_cap() <= p.point <= exponent_cap() + usize::MAX
                &&& forall|k: int| 0 <= k < p.digits.len() ==> is_digit(#[trigger] p.digits[k])
            },
        },
{
    let v: Vec<char> = chars_of(text);
    let n: usize = v.len();
    let mut start: usize = 0;
    let mut negative: bool = false;
    if n > 0 && (v[0] == '+' || v[0] == '-') {
        negative = v[0] == '-';
        start = 1;
    }
    assert(unsigned(text@) =~= v@.subrange(start as int, n as int));
    if is_infinite_at(&v, start) {
        let digits: Vec<char> = vec!['1'];
        assert(digits@ =~= seq!['1']);
        return Some(Reading { negative, digits, point: 1_000_000_000_000_000_000_000_000 });
    }
    let (digits, whole, tail) = read_mantissa(&v, start);
    if digits.len() == 0 {
        return None;
    }
    match read_exponent_at(&v, tail) {
        None => None,
        Some(e) => Some(Reading { negative, digits, point: whole as i128 + e }),
    }
}

/// The number that a text denotes, in units of the given decimal place.
pub fn parse_decimal(text: &str, places: u8) -> (r: Option<i128>)
    ensures
        match decimal_value(text@, places as nat) {
            None => r is None,
            Some(x) => r is Some && r->0 == x && -WIDE_MAX <= x <= WIDE_MAX,
        },
{
    match read_number(text) {
        None => None,
        Some(p) => {
            let m: i128 = shifted_value(&p.digits, p.point + places as i128, WIDE_MAX);
            if p.negative {
                Some(-m)
            } else {
                Some(m)
            }
        },
    }
}

/// Whether a digit other than zero stands at `t` or behind it.
fn has_rest(d: &Vec<char>, t: i128) -> (r: bool)
    ensures
        r == cuts_off(d@, t as int),
{
    let mut i: usize = 0;
    while i < d.len()
        invariant
            i <= d@.len(),
            forall|k: int| t <= k && 0 <= k < i ==> #[trigger] d@[k] == '0',
        decreases d@.len() - i,
    {
        if i as i128 >= t && d[i] != '0' {
            return true;
        }
        i += 1;
    }
    false
}

/// The distance from zero of the number that a text denotes, in units of the
/// given decimal place and rounded up.
pub fn parse_size(text: &str, places: u8) -> (r: Option<i128>)
    ensures
        match size_value(text@, places as nat) {
            None => r is None,
            Some(x) => r is Some && r->0 == x && 0 <= x <= WIDE_MAX,
        },
{
    match read_number(text) {
        None => None,
        Some(p) => {
            let t: i128 = p.point + places as i128;
            let m: i128 = shifted_value(&p.digits, t, WIDE_MAX);
            if m < WIDE_MAX && has_rest(&p.digits, t) {
                Some(m + 1)
            } else {
                Some(m)
            }
        },
    }
}

/// The distance from zero of the amount that a text denotes, in billionths
/// and rounded up.
pub fn parse_amount_size(text: &str) -> (r: Option<i128>)
    ensures
        match amount_size(text@) {
            None => r is None,
            Some(x) => r is Some && r->0 == x && 0 <= x <= WIDE_MAX,
        },
{
    parse_size(text, 9)
}

/// The distance from zero of the amount that a text denotes, in billionths.
pub fn parse_amount_worth(text: &str) -> (r: Option<i64>)
    ensures
        match amount_worth(text@) {
            None => r is None,
            Some(x) => r is Some && r->0 == x && x >= 0,
        },
{
    match read_number(text) {
        None => None,
        Some(p) => {
            let t: i128 = p.point + 9;
            let m: i128 = shifted_value(&p.digits, t, 10_000_000_000_000_000_000);
            if m == 0 && has_rest(&p.digits, t) {
                Some(1)
            } else {
                Some(clamp_wide(m))
            }
        },
    }
}

/// Whether a text denotes a number below zero, or a zero with a minus sign.
pub fn is_negative_text(text: &str) -> (r: bool)
    ensures
        r == reads_negative(text@),
{
    match read_number(text) {
        None => false,
        Some(p) => p.negative,
    }
}

/// Whether a text is a word for infinity.
pub fn is_infinite_text(text: &str) -> (r: bool)
    ensures
        r == reads_infinite(text@),
{
    let v: Vec<char> = chars_of(text);
    let n: usize = v.len();
    let mut start: usize = 0;
    if n > 0 && (v[0] == '+' || v[0] == '-') {
        start = 1;
    }
    assert(unsigned(text@) =~= v@.subrange(start as int, n as int));
    is_infinite_at(&v, start)
}

proof fn run_is_digits(s: Seq<char>)
    ensures
        digit_run(s) <= s.len(),
        forall|k: int| 0 <= k < digit_run(s) ==> is_digit(#[trigger] s[k]),
    decreases s.len(),
{
    if s.len() > 0 && is_digit(s[0]) {
        let t = s.subrange(1, s.len() as int);
        run_is_digits(t);
        assert forall|k: int| 0 <= k < digit_run(s) implies is_digit(#[trigger] s[k]) by {
            if k > 0 {
                assert(s[k] == t[k - 1]);
            }
        }
    }
}

proof fn mantissa_is_digits(s: Seq<char>)
    ensures
        forall|k: int|
            0 <= k < mantissa_digits(s).len() ==> is_digit(#[trigger] mantissa_digits(s)[k]),
{
    run_is_digits(s);
    let whole = digit_run(s);
    let rest = s.subrange(whole as int, s.len() as int);
    let m = mantissa_digits(s);
    if fraction_run(rest) > 0 {
        let t = rest.subrange(1, rest.len() as int);
        run_is_digits(t);
        assert forall|k: int| 0 <= k < m.len() implies is_digit(#[trigger] m[k]) by {
            if k < whole {
                assert(m[k] == s[k]);
            } else {
                assert(m[k] == t[k - whole]);
            }
        }
    } else {
        assert forall|k: int| 0 <= k < m.len() implies is_digit(#[trigger] m[k]) by {
            assert(m[k] == s[k]);
        }
    }
}

proof fn leading_is_natural(s: Seq<char>, places: nat)
    ensures
        read_decimal(s) matches Some(p) ==> leading_value(p.digits, p.point + places) >= 0,
{
    if let Some(p) = read_decimal(s) {
        let d = p.digits;
        let t = p.point + places;
        mantissa_is_digits(unsigned(s));
        assert(forall|k: int| 0 <= k < d.len() ==> is_digit(#[trigger] d[k]));
        assert(d.subrange(0, d.len() as int) =~= d);
        digits_value_grows(d, 0, d.len() as int);
        if 0 < t <= d.len() {
            digits_value_grows(d, 0, t);
        } else if t > d.len() {
            pow10_positive((t - d.len()) as nat);
            assert(digits_value(d) * pow10((t - d.len()) as nat) >= 0) by (nonlinear_arith)
                requires
                    digits_value(d) >= 0,
                    pow10((t - d.len()) as nat) >= 1,
            ;
        }
    }
}

/// A size that can be read is a natural number within range.
pub proof fn size_is_natural(s: Seq<char>, places: nat)
    ensures
        size_value(s, places) matches Some(x) ==> 0 <= x <= WIDE_MAX,
{
    leading_is_natural(s, places);
}

/// A worth that can be read is a natural number within range.
pub proof fn worth_is_natural(s: Seq<char>)
    ensures
        amount_worth(s) matches Some(x) ==> 0 <= x <= FIXED_MAX,
{
    leading_is_natural(s, 9);
}

proof fn split_at(d: Seq<char>, t: int)
    requires
        0 <= t <= d.len(),
        forall|k: int| 0 <= k < d.len() ==> is_digit(#[trigger] d[k]),
    ensures
        ({
            let rest = digits_value(d) - leading_value(d, t) * pow10((d.len() - t) as nat);
            &&& 0 <= rest < pow10((d.len() - t) as nat)
            &&& (rest == 0) == !cuts_off(d, t)
        }),
    decreases d.len() - t,
{
    assert(d.subrange(0, d.len() as int) =~= d);
    if t == d.len() {
        assert(pow10(0) == 1);
    } else {
        let e = d.drop_last();
        let q = leading_value(d, t);
        assert forall|k: int| 0 <= k < e.len() implies is_digit(#[trigger] e[k]) by {
            assert(e[k] == d[k]);
        }
        split_at(e, t);
        assert(e.subrange(0, t) =~= d.subrange(0, t));
        let p = pow10((e.len() - t) as nat);
        assert(pow10((d.len() - t) as nat) == 10 * p);
        assert(q * (10 * p) == 10 * (q * p)) by (nonlinear_arith);
        assert(is_digit(d.last()));
        if cuts_off(e, t) {
            let k = choose|k: int| t <= k && 0 <= k < e.len() && #[trigger] e[k] != '0';
            assert(d[k] != '0');
        }
        if cuts_off(d, t) && d.last() == '0' {
            let k = choose|k: int| t <= k && 0 <= k < d.len() && #[trigger] d[k] != '0';
            assert(e[k] != '0');
        }
    }
}

/// Whole bounds are kept by both ways of reading a number at a decimal place.
/// The digits `d` with the point behind `t` of them are at most `bound` where
/// the rounded-up number is, and at least `bound` where the cut number is.
pub proof fn whole_bounds_survive_rounding(d: Seq<char>, t: int, bound: int)
    requires
        t <= d.len(),
        bound >= 0,
        forall|k: int| 0 <= k < d.len() ==> is_digit(#[trigger] d[k]),
    ensures
        ceiling_value(d, t) <= bound <==> digits_value(d) <= bound * pow10((d.len() - t) as nat),
        leading_value(d, t) >= bound <==> digits_value(d) >= bound * pow10((d.len() - t) as nat),
{
    let u = if t < 0 {
        0
    } else {
        t
    };
    split_at(d, u);
    let p = pow10((d.len() - u) as nat);
    let w = pow10((d.len() - t) as nat);
    let v = digits_value(d);
    pow10_grows((d.len() - u) as nat, (d.len() - t) as nat);
    pow10_positive((d.len() - u) as nat);
    assert(d.subrange(0, 0) =~= Seq::<char>::empty());
    let q = leading_value(d, u);
    assert(q == leading_value(d, t));
    assert(cuts_off(d, u) == cuts_off(d, t)) by {
        if cuts_off(d, t) {
            let k = choose|k: int| t <= k && 0 <= k < d.len() && #[trigger] d[k] != '0';
            assert(u <= k && d[k] != '0');
        }
        if cuts_off(d, u) {
            let k = choose|k: int| u <= k && 0 <= k < d.len() && #[trigger] d[k] != '0';
            assert(t <= k && d[k] != '0');
        }
    }
    if t >= 0 {
        if q >= bound + 1 {
            assert(q * p >= bound * p + p) by (nonlinear_arith)
                requires
                    q >= bound + 1,
                    p >= 1,
            ;
        } else if q < bound {
            assert(q * p + p <= bound * p) by (nonlinear_arith)
                requires
                    q + 1 <= bound,
                    p >= 1,
            ;
        }
    } else {
        assert(q == 0);
        assert(q * p == 0) by (nonlinear_arith)
            requires
                q == 0,
        ;
        if bound >= 1 {
            assert(bound * w >= w) by (nonlinear_arith)
                requires
                    bound >= 1,
                    w >= 1,
            ;
        } else {
            assert(bound * w == 0) by (nonlinear_arith)
                requires
                    bound == 0,
            ;
        }
    }
}

proof fn pow10_grows(j: nat, k: nat)
    requires
        j <= k,
    ensures
        1 <= pow10(j) <= pow10(k),
    decreases k,
{
    pow10_positive(j);
    if j < k {
        pow10_grows(j, (k - 1) as nat);
    }
}

/// Whether a text holds digits alone.
pub open spec fn all_digits(d: Seq<char>) -> bool {
    forall|k: int| 0 <= k < d.len() ==> is_digit(#[trigger] d[k])
}

/// The value of digits: nothing is zero, and one more digit counts ten times what
/// stands before it.
pub proof fn digits_count_by_tens(d: Seq<char>, k: int)
    requires
        0 <= k < 10,
    ensures
        digits_value(Seq::empty()) == 0,
        digits_value(d.push(digit_char(k))) == 10 * digits_value(d) + k,
        is_digit(digit_char(k)),
{
    assert(d.push(digit_char(k)).drop_last() =~= d);
}

/// A number is written in digits that have its value, without a needless zero in
/// front.
pub proof fn numbers_are_written_out(n: nat)
    ensures
        all_digits(dec(n)),
        digits_value(dec(n)) == n,
        dec(n).len() > 0,
        dec(n).len() > 1 ==> dec(n)[0] != '0',
    decreases n,
{
    if n < 10 {
        assert(dec(n).drop_last() =~= Seq::<char>::empty());
        assert(digits_value(Seq::empty()) == 0);
    } else {
        numbers_are_written_out(n / 10);
        digits_count_by_tens(dec(n / 10), (n % 10) as int);
        if dec(n / 10).len() == 1 {
            assert(n / 10 >= 1);
            let d = dec(n / 10);
            assert(d.drop_last() =~= Seq::<char>::empty());
            assert(digits_value(d.drop_last()) == 0);
            assert(d[0] != '0');
        }
    }
}

/// A number that is written to a width takes up the width, and has its value where
/// it fits.
pub proof fn padded_numbers_take_their_width(n: nat, width: nat)
    ensures
        all_digits(dec_padded(n, width)),
        dec_padded(n, width).len() == width,
        n < pow10(width) ==> digits_value(dec_padded(n, width)) == n,
    decreases width,
{
    if width > 0 {
        padded_numbers_take_their_width(n / 10, (width - 1) as nat);
        digits_count_by_tens(dec_padded(n / 10, (width - 1) as nat), (n % 10) as int);
    }
}

/// Rounding goes to the nearest whole step, and to the even one of two that are
/// equally near.
pub proof fn rounding_goes_to_the_nearest(n: nat, half: nat)
    requires
        half > 0,
    ensures
        -(half as int) <= n - nearest(n, half) * (2 * half) <= half,
        n - nearest(n, half) * (2 * half) == half || nearest(n, half) * (2 * half) - n == half
            ==> nearest(n, half) % 2 == 0,
{
    let w = 2 * half;
    let q = (n / w) as int;
    let r = (n % w) as int;
    vstd::arithmetic::div_mod::lemma_fundamental_div_mod(n as int, w as int);
    vstd::arithmetic::div_mod::lemma_mod_bound(n as int, w as int);
    assert(w * q == q * w) by (nonlinear_arith);
    assert((q + 1) * w == q * w + w) by (nonlinear_arith);
}

/// An amount is limited to the range that it is kept in, on either side of zero,
/// and otherwise left alone.
pub proof fn limits_leave_what_fits(x: int, limit: int)
    requires
        limit >= 0,
    ensures
        -limit <= within(x, limit) <= limit,
        -limit <= x <= limit ==> within(x, limit) == x,
        x > limit ==> within(x, limit) == limit,
        x < -limit ==> within(x, limit) == -limit,
        clamped(x) == within(x, 0x7fff_ffff_ffff_ffff),
{
}

proof fn run_of(w: Seq<char>, x: Seq<char>)
    requires
        all_digits(w),
        x.len() > 0 ==> !is_digit(x[0]),
    ensures
        digit_run(w + x) == w.len(),
{
    let s = w + x;
    assert forall|k: int| 0 <= k < w.len() implies is_digit(#[trigger] s[k]) by {
        assert(s[k] == w[k]);
    }
    digit_run_skip(s, w.len() as int);
    assert(s.subrange(w.len() as int, s.len() as int) =~= x);
}

/// Whether a text may stand in front of a number as its sign.
pub open spec fn is_sign(sign: Seq<char>) -> bool {
    sign == Seq::<char>::empty() || sign == seq!['+'] || sign == seq!['-']
}

proof fn sign_comes_off(sign: Seq<char>, r: Seq<char>)
    requires
        is_sign(sign),
        r.len() > 0,
        is_digit(r[0]) || r[0] == '.',
    ensures
        unsigned(sign + r) == r,
        (has_sign(sign + r) && (sign + r)[0] == '-') == (sign == seq!['-']),
        !reads_infinite(sign + r),
{
    let s = sign + r;
    if sign.len() == 0 {
        assert(s =~= r);
        assert(seq!['-'].len() == 1);
    } else {
        assert(s.subrange(1, s.len() as int) =~= r);
        assert(sign[0] == s[0]);
        assert(seq!['-'][0] == '-');
        if s[0] == '-' {
            assert(sign =~= seq!['-']);
        }
    }
    reveal_strlit("inf");
    reveal_strlit("infinity");
    assert(lower(r)[0] == lower_char(r[0]));
    assert("inf"@[0] == 'i' && "infinity"@[0] == 'i');
}

/// A number is read from its sign, its digits before and behind the point, and its
/// exponent, as it is written.
pub proof fn a_decimal_is_read_as_written(
    sign: Seq<char>,
    w: Seq<char>,
    f: Seq<char>,
    x: Seq<char>,
    e: int,
)
    requires
        is_sign(sign),
        all_digits(w),
        all_digits(f),
        x.len() == 0 || x[0] == 'e' || x[0] == 'E',
        read_exponent(x) == Some(e),
        w.len() + f.len() > 0,
    ensures
        read_decimal(sign + (w + (seq!['.'] + (f + x)))) == Some(
            (DecimalParts { negative: sign == seq!['-'], digits: w + f, point: w.len() + e }),
        ),
        f.len() == 0 ==> read_decimal(sign + (w + x)) == Some(
            (DecimalParts { negative: sign == seq!['-'], digits: w, point: w.len() + e }),
        ),
{
    let rest = seq!['.'] + (f + x);
    let r = w + rest;
    let s = sign + r;
    if w.len() > 0 {
        assert(is_digit(w[0]));
        assert(r[0] == w[0]);
    } else {
        assert(r[0] == rest[0]);
    }
    sign_comes_off(sign, r);
    run_of(w, rest);
    assert(r.subrange(w.len() as int, r.len() as int) =~= rest);
    assert(rest.subrange(1, rest.len() as int) =~= f + x);
    run_of(f, x);
    assert(rest.subrange(1 + f.len() as int, rest.len() as int) =~= x);
    assert(r.subrange(0, w.len() as int) =~= w);
    assert(rest.subrange(1, 1 + f.len() as int) =~= f);
    assert(mantissa_digits(r) =~= w + f);
    if f.len() == 0 {
        let q = w + x;
        assert(is_digit(w[0]));
        assert(q[0] == w[0]);
        sign_comes_off(sign, q);
        run_of(w, x);
        assert(q.subrange(w.len() as int, q.len() as int) =~= x);
        assert(q.subrange(0, w.len() as int) =~= w);
    }
}

/// No exponent is zero; one that is written is the number behind its letter, below
/// zero behind a minus.
pub proof fn an_exponent_is_read_as_written(letter: char, sign: Seq<char>, d: Seq<char>)
    requires
        letter == 'e' || letter == 'E',
        is_sign(sign),
        all_digits(d),
        d.len() > 0,
        digits_value(d) <= 1_000_000_000_000_000_000_000_000,
    ensures
        read_exponent(Seq::empty()) == Some(0int),
        read_exponent(seq![letter] + (sign + d)) == Some(
            if sign == seq!['-'] {
                -digits_value(d)
            } else {
                digits_value(d)
            },
        ),
{
    let t = sign + d;
    let x = seq![letter] + t;
    assert(x.subrange(1, x.len() as int) =~= t);
    assert(is_digit(d[0]));
    sign_comes_off(sign, d);
    run_of(d, Seq::empty());
    assert(d + Seq::<char>::empty() =~= d);
}

/// Digits in a row count as those in front, moved up by as many places as follow,
/// and those that follow.
pub proof fn digits_in_a_row_add_up(a: Seq<char>, b: Seq<char>)
    ensures
        digits_value(a + b) == digits_value(a) * pow10(b.len()) + digits_value(b),
    decreases b.len(),
{
    if b.len() == 0 {
        assert(a + b =~= a);
    } else {
        let c = b.drop_last();
        digits_in_a_row_add_up(a, c);
        assert((a + b).drop_last() =~= a + c);
        let v = digits_value(a);
        let p = pow10(c.len());
        assert(v * (10 * p) == 10 * (v * p)) by (nonlinear_arith);
    }
}

/// A number whose decimal places all count is read as the whole number of its
/// last place.
pub proof fn a_decimal_has_the_value_of_its_digits(
    sign: Seq<char>,
    w: Seq<char>,
    f: Seq<char>,
    places: nat,
)
    requires
        is_sign(sign),
        all_digits(w),
        all_digits(f),
        w.len() + f.len() > 0,
        f.len() <= places,
    ensures
        ({
            let m = digits_value(w) * pow10(places) + digits_value(f) * pow10(
                (places - f.len()) as nat,
            );
            let v = if sign == seq!['-'] {
                -m
            } else {
                m
            };
            &&& m >= 0
            &&& decimal_value(sign + (w + (seq!['.'] + f)), places) == Some(
                within(v, 1_000_000_000_000_000_000_000_000_000_000),
            )
            &&& size_value(sign + (w + (seq!['.'] + f)), places) == Some(
                within(m, 1_000_000_000_000_000_000_000_000_000_000),
            )
            &&& f.len() == 0 ==> decimal_value(sign + w, places) == Some(
                within(v, 1_000_000_000_000_000_000_000_000_000_000),
            )
            &&& f.len() == 0 ==> size_value(sign + w, places) == Some(
                within(m, 1_000_000_000_000_000_000_000_000_000_000),
            )
        }),
{
    let x = Seq::<char>::empty();
    a_decimal_is_read_as_written(sign, w, f, x, 0);
    assert(f + x =~= f);
    assert(w + x =~= w);
    let d = w + f;
    let t = w.len() + places as int;
    let k = (places - f.len()) as nat;
    digits_in_a_row_add_up(w, f);
    powers_add_up(f.len(), k);
    let a = digits_value(w);
    let p = pow10(f.len());
    let q = pow10(k);
    assert((a * p + digits_value(f)) * q == a * (p * q) + digits_value(f) * q)
        by (nonlinear_arith);
    assert(d.subrange(0, d.len() as int) =~= d);
    assert(pow10(0) == 1);
    assert(leading_value(d, t) == digits_value(d) * q);
    assert(!cuts_off(d, t));
    if f.len() == 0 {
        assert(d =~= w);
    }
    assert(d.len() >= 1);
    let s = sign + (w + (seq!['.'] + (f + x)));
    leading_is_natural(s, places);
}

proof fn powers_add_up(j: nat, k: nat)
    ensures
        pow10(j) * pow10(k) == pow10(j + k),
    decreases j,
{
    if j > 0 {
        powers_add_up((j - 1) as nat, k);
        let a = pow10((j - 1) as nat);
        let b = pow10(k);
        assert(10 * a * b == 10 * (a * b)) by (nonlinear_arith);
        assert(pow10(j + k) == 10 * pow10((j + k - 1) as nat));
    } else {
        assert(pow10(0) == 1);
    }
}

proof fn fraction_keeps_its_value(frac: nat, width: nat)
    requires
        width > 0,
        frac < pow10(width),
    ensures
        ({
            let f = fraction_text(frac, width);
            &&& all_digits(f)
            &&& 0 < f.len() <= width
            &&& digits_value(f) * pow10((width - f.len()) as nat) == frac
        }),
    decreases width,
{
    if width > 1 && frac % 10 == 0 {
        fraction_keeps_its_value(frac / 10, (width - 1) as nat);
        let f = fraction_text(frac / 10, (width - 1) as nat);
        let v = digits_value(f);
        let p = pow10((width - 1 - f.len()) as nat);
        assert(pow10((width - f.len()) as nat) == 10 * p);
        assert(v * (10 * p) == 10 * (v * p)) by (nonlinear_arith);
    } else {
        padded_numbers_take_their_width(frac, width);
        assert(pow10(0) == 1);
    }
}

/// An amount that is written with as many places as it needs reads as itself, and
/// its size as its distance from zero.
pub proof fn amounts_are_read_back(x: int)
    requires
        -1_000_000_000_000_000_000_000_000_000_000 <= x
            <= 1_000_000_000_000_000_000_000_000_000_000,
    ensures
        decimal_value(fixed_plain(x), 9) == Some(x),
        amount_size(fixed_plain(x)) == Some(
            if x < 0 {
                -x
            } else {
                x
            },
        ),
{
    let m = magnitude(x) as nat;
    let sign = sign_text(x);
    reveal_strlit("-");
    reveal_strlit(".");
    assert("-"@ =~= seq!['-']);
    assert("."@ =~= seq!['.']);
    assert(Seq::<char>::empty() != seq!['-']) by {
        assert(seq!['-'].len() == 1);
    }
    let w = dec(m / 1000000000);
    numbers_are_written_out(m / 1000000000);
    nine_places();
    if m % 1000000000 == 0 {
        a_decimal_has_the_value_of_its_digits(sign, w, Seq::empty(), 9);
        assert(digits_value(Seq::empty()) == 0);
        assert(0 * pow10(9) == 0);
    } else {
        let f = fraction_text(m % 1000000000, 9);
        fraction_keeps_its_value(m % 1000000000, 9);
        a_decimal_has_the_value_of_its_digits(sign, w, f, 9);
        assert(fixed_plain(x) =~= sign + (w + (seq!['.'] + f)));
    }
}

proof fn nine_places()
    ensures
        pow10(6) == 1_000_000,
        pow10(9) == 1_000_000_000,
        pow10(0) == 1,
{
    reveal_with_fuel(pow10, 11);
}

proof fn millionths_are_read_back(x: int, m: nat)
    requires
        m <= 1_000_000_000_000_000_000_000_000_000_000,
    ensures
        decimal_value(sign_text(x) + millionths_text(m), 6) == Some(
            if x < 0 {
                -m
            } else {
                m as int
            },
        ),
{
    let sign = sign_text(x);
    reveal_strlit("-");
    reveal_strlit(".");
    assert("-"@ =~= seq!['-']);
    assert("."@ =~= seq!['.']);
    assert(Seq::<char>::empty() != seq!['-']) by {
        assert(seq!['-'].len() == 1);
    }
    let w = dec(m / 1000000);
    let f = dec_padded(m % 1000000, 6);
    numbers_are_written_out(m / 1000000);
    nine_places();
    padded_numbers_take_their_width(m % 1000000, 6);
    a_decimal_has_the_value_of_its_digits(sign, w, f, 6);
    assert(millionths_text(m) =~= w + (seq!['.'] + f));
}

/// What is shown of an amount to six places reads as a number of millionths that
/// is no further from the amount than half a millionth.
pub proof fn shown_amounts_are_near(x: int)
    requires
        -1_000_000_000_000_000_000_000_000_000_000 <= x
            <= 1_000_000_000_000_000_000_000_000_000_000,
    ensures
        decimal_value(fixed6(x), 6) is Some,
        -500 <= decimal_value(fixed6(x), 6)->0 * 1000 - x <= 500,
        decimal_value(fine6(x), 6) is Some,
        -500_000 <= decimal_value(fine6(x), 6)->0 * 1_000_000 - x <= 500_000,
{
    let m = magnitude(x) as nat;
    rounding_goes_to_the_nearest(m, 500);
    millionths_are_read_back(x, nearest(m, 500));
    rounding_goes_to_the_nearest(m, 500000);
    millionths_are_read_back(x, nearest(m, 500000));
}

/// A text is read as a number only where it is made up of digits, signs, a point
/// and an exponent's letter, with a digit among them, or says that it is infinite;
/// it is below zero exactly where it starts with a minus.
pub proof fn only_numbers_are_read(s: Seq<char>)
    ensures
        read_decimal(s) is Some ==> s.len() > 0,
        reads_negative(s) <==> read_decimal(s) is Some && s[0] == '-',
        read_decimal(s) is Some && !reads_infinite(s) ==> read_decimal(s)->0.digits.len() > 0
            && all_digits(read_decimal(s)->0.digits),
        s.len() > 0 && !is_digit(s[0]) && s[0] != '+' && s[0] != '-' && s[0] != '.' && s[0] != 'i'
            && s[0] != 'I' ==> read_decimal(s) is None,
{
    let r = unsigned(s);
    mantissa_is_digits(r);
    run_is_digits(r);
    let rest = r.subrange(digit_run(r) as int, r.len() as int);
    if rest.len() > 0 {
        run_is_digits(rest.subrange(1, rest.len() as int));
    }
    reveal_strlit("inf");
    reveal_strlit("infinity");
    if reads_infinite(s) {
        assert(lower(r).len() == r.len());
        assert("inf"@[0] == 'i' && "infinity"@[0] == 'i');
        assert(lower(r)[0] == lower_char(r[0]));
        assert(r[0] == 'i' || r[0] == 'I') by {
            let c = r[0];
            assert(lower_char(c) == 'i');
            if 'A' <= c <= 'Z' {
                assert((c as u32 + 32) as char == 'i');
            }
        }
    }
}

/// What an amount is worth does not depend on its sign, and is the whole number of
/// its last place where its places all count.
pub proof fn worth_is_the_value_without_its_sign(sign: Seq<char>, w: Seq<char>, f: Seq<char>)
    requires
        is_sign(sign),
        all_digits(w),
        all_digits(f),
        w.len() + f.len() > 0,
        f.len() <= 9,
    ensures
        amount_worth(sign + (w + (seq!['.'] + f))) == Some(
            clamped(
                digits_value(w) * 1_000_000_000 + digits_value(f) * pow10((9 - f.len()) as nat),
            ),
        ),
{
    let x = Seq::<char>::empty();
    let s = sign + (w + (seq!['.'] + f));
    a_decimal_is_read_as_written(sign, w, f, x, 0);
    assert(f + x =~= f);
    let d = w + f;
    let t = w.len() as int + 9;
    let k = (9 - f.len()) as nat;
    nine_places();
    digits_in_a_row_add_up(w, f);
    powers_add_up(f.len(), k);
    let a = digits_value(w);
    let p = pow10(f.len());
    let q = pow10(k);
    assert((a * p + digits_value(f)) * q == a * (p * q) + digits_value(f) * q)
        by (nonlinear_arith);
    assert(d.subrange(0, d.len() as int) =~= d);
    assert(leading_value(d, t) == digits_value(d) * q);
    assert(!cuts_off(d, t));
}

/// However small an amount is, it is worth something where it has any size.
pub proof fn small_amounts_are_worth_something(s: Seq<char>)
    ensures
        amount_worth(s) is Some <==> read_decimal(s) is Some,
        amount_size(s) is Some <==> read_decimal(s) is Some,
        read_decimal(s) is Some ==> (amount_worth(s)->0 > 0 <==> amount_size(s)->0 > 0),
        read_decimal(s) is Some ==> amount_worth(s)->0 <= amount_size(s)->0,
{
    leading_is_natural(s, 9);
}

} // verus!
