//! Human-readable sizes and parameter counts.
//!
//! Both are rounded to one decimal place, the way a double-precision value is
//! printed with `{:.1}`: the exact value of the double is rounded to the nearest
//! tenth, ties to even. A size leaves the decimal off where it is zero. The functions here compute the same digits with integer
//! arithmetic, from an exact model of the doubles involved.

use vstd::prelude::*;
use crate::text::{decimal, digit_char, push_char, digit};

verus! {

/// 2^52 and 2^53: the bounds of a double's 53-bit significand.
pub open spec fn two52() -> nat {
    4503599627370496
}

pub open spec fn two53() -> nat {
    9007199254740992
}

/// `a / d` rounded to the nearest integer, ties to the even one.
pub open spec fn round_half_even(a: nat, d: nat) -> nat
    recommends
        d > 0,
{
    let q = a / d;
    let r = a % d;
    if 2 * r > d || (2 * r == d && q % 2 == 1) {
        q + 1
    } else {
        q
    }
}

/// The power of two by which `n` must be divided to fit in 53 bits.
pub open spec fn excess_divisor(n: nat) -> nat
    decreases n,
{
    if n < two53() {
        1
    } else {
        2 * excess_divisor(n / 2)
    }
}

/// The value of the double nearest to `n` (what `n as f64` holds):
/// `n` rounded to 53 significant bits, ties to even.
pub open spec fn nearest_double(n: nat) -> nat {
    round_half_even(n, excess_divisor(n)) * excess_divisor(n)
}

/// The text of `t / 10` with one decimal place: `t` is a number of tenths.
pub open spec fn tenths_text(t: nat) -> Seq<char> {
    decimal(t / 10) + seq!['.', digit_char(t % 10)]
}

/// The exact value `a / b` printed with one decimal place (`{:.1}`).
pub open spec fn one_decimal(a: nat, b: nat) -> Seq<char> {
    tenths_text(round_half_even(10 * a, b))
}

/// The text of `t / 10` with one decimal place, where a zero decimal is left
/// off: a whole value reads "256", any other "4.5".
pub open spec fn short_tenths_text(t: nat) -> Seq<char> {
    if t % 10 == 0 {
        decimal(t / 10)
    } else {
        tenths_text(t)
    }
}

/// The exact value `a / b` rounded to one decimal place, without a zero decimal.
pub open spec fn short_one_decimal(a: nat, b: nat) -> Seq<char> {
    short_tenths_text(round_half_even(10 * a, b))
}

/// The unit index and divisor of a size: the largest power of 1024, up to
/// 1024^4, that does not exceed `n`, counted from `(k, d)`.
pub open spec fn unit_scale(n: nat, k: nat, d: nat) -> (nat, nat)
    decreases 4 - k,
{
    if k < 4 && n >= d * 1024 {
        unit_scale(n, k + 1, d * 1024)
    } else {
        (k, d)
    }
}

pub open spec fn unit_name(k: nat) -> Seq<char> {
    if k == 0 {
        seq!['B']
    } else if k == 1 {
        seq!['K', 'B']
    } else if k == 2 {
        seq!['M', 'B']
    } else if k == 3 {
        seq!['G', 'B']
    } else {
        seq!['T', 'B']
    }
}

/// What `bytes_to_human` shows for `bytes`.
pub open spec fn human_size(bytes: nat) -> Seq<char> {
    let n = nearest_double(bytes);
    let (k, d) = unit_scale(n, 0, 1);
    if k == 0 {
        decimal(bytes) + seq!['B']
    } else {
        short_one_decimal(n, d) + unit_name(k)
    }
}

proof fn lemma_exact_below_two53(n: nat)
    requires
        n < two53(),
    ensures
        nearest_double(n) == n,
{
    assert(excess_divisor(n) == 1);
    assert(n / 1 == n && n % 1 == 0) by (nonlinear_arith);
    assert(round_half_even(n, 1) == n);
    assert(n * 1 == n);
}

proof fn lemma_unit_scale_grows(n: nat, k: nat, d: nat)
    ensures
        unit_scale(n, k, d).0 >= k,
    decreases 4 - k,
{
    if k < 4 && n >= d * 1024 {
        lemma_unit_scale_grows(n, k + 1, d * 1024);
    }
}

/// Sizes under one kilobyte are shown as a whole number of bytes.
pub proof fn law_small_sizes_in_bytes(bytes: nat)
    requires
        bytes < 1024,
    ensures
        human_size(bytes) == decimal(bytes) + seq!['B'],
{
    lemma_exact_below_two53(bytes);
}

/// Sizes of at least one kilobyte get a unit and at most one decimal place.
pub proof fn law_large_sizes_have_unit(bytes: nat)
    requires
        1024 <= bytes < two53(),
    ensures
        human_size(bytes) == short_one_decimal(bytes, unit_scale(bytes, 0, 1).1) + unit_name(
            unit_scale(bytes, 0, 1).0,
        ),
        unit_scale(bytes, 0, 1).0 >= 1,
{
    lemma_exact_below_two53(bytes);
    assert(1 * 1024 == 1024nat);
    assert(unit_scale(bytes, 0, 1) == unit_scale(bytes, 1, 1024));
    lemma_unit_scale_grows(bytes, 1, 1024);
}

/// A size that is a whole number of its unit is shown without a decimal:
/// 256 MiB reads "256MB".
pub proof fn law_whole_sizes_without_decimal(bytes: nat)
    requires
        1024 <= bytes < two53(),
        bytes % unit_scale(bytes, 0, 1).1 == 0,
    ensures
        human_size(bytes) == decimal(bytes / unit_scale(bytes, 0, 1).1) + unit_name(
            unit_scale(bytes, 0, 1).0,
        ),
{
    law_large_sizes_have_unit(bytes);
    let d = unit_scale(bytes, 0, 1).1;
    lemma_unit_scale_divisor_positive(bytes, 0, 1);
    let m = bytes / d;
    vstd::arithmetic::div_mod::lemma_fundamental_div_mod(bytes as int, d as int);
    assert(bytes == d * m);
    assert(10 * bytes == d * (10 * m)) by (nonlinear_arith)
        requires
            bytes == d * m,
    ;
    vstd::arithmetic::div_mod::lemma_div_multiples_vanish((10 * m) as int, d as int);
    vstd::arithmetic::div_mod::lemma_mod_multiples_basic((10 * m) as int, d as int);
    assert((10 * m) * d == d * (10 * m)) by (nonlinear_arith);
    assert(round_half_even(10 * bytes, d) == 10 * m);
    assert((10 * m) % 10 == 0 && (10 * m) / 10 == m) by (nonlinear_arith);
}

proof fn lemma_unit_scale_divisor_positive(n: nat, k: nat, d: nat)
    requires
        d > 0,
    ensures
        unit_scale(n, k, d).1 > 0,
    decreases 4 - k,
{
    if k < 4 && n >= d * 1024 {
        lemma_unit_scale_divisor_positive(n, k + 1, d * 1024);
    }
}

/// Counts under a thousand are shown as they are.
pub proof fn law_small_counts_plain(count: nat)
    requires
        count < 1000,
    ensures
        param_count_text(count) == decimal(count),
{
}

/// The power of two `s`, searched from `s` upward for at most `steps` doublings,
/// at which `a * s` first reaches `2^52 * b`: the scale at which the quotient
/// `a / b` has its 53 significant bits in the integer part.
pub open spec fn quotient_scale(a: nat, b: nat, s: nat, steps: nat) -> nat
    decreases steps,
{
    if steps == 0 || a * s >= two52() * b {
        s
    } else {
        quotient_scale(a, b, 2 * s, (steps - 1) as nat)
    }
}

/// The double nearest to `a / b`, for `1 <= a / b < 2^53`, as the pair
/// `(m, s)` with value `m / s`: `m` is the rounded 53-bit significand.
pub open spec fn nearest_double_quotient(a: nat, b: nat) -> (nat, nat) {
    let s = quotient_scale(a, b, 1, 52);
    (round_half_even(a * s, b), s)
}

/// The double nearest to `a / b` printed with one decimal place.
pub open spec fn quotient_one_decimal(a: nat, b: nat) -> Seq<char> {
    let (m, s) = nearest_double_quotient(a, b);
    one_decimal(m, s)
}

/// What `format_param_count` shows for `count`.
pub open spec fn param_count_text(count: nat) -> Seq<char> {
    if count >= 1_000_000_000 {
        quotient_one_decimal(nearest_double(count), 1_000_000_000) + seq!['B']
    } else if count >= 1_000_000 {
        quotient_one_decimal(count, 1_000_000) + seq!['M']
    } else if count >= 1_000 {
        quotient_one_decimal(count, 1_000) + seq!['K']
    } else {
        decimal(count)
    }
}

fn round_half_even_u128(a: u128, d: u128) -> (r: u128)
    requires
        0 < d < 0x8000_0000_0000_0000_0000_0000_0000_0000,
        a < 0xffff_ffff_ffff_ffff_ffff_ffff_ffff_fff0,
    ensures
        r == round_half_even(a as nat, d as nat),
{
    let q = a / d;
    let r = a % d;
    proof {
        vstd::arithmetic::div_mod::lemma_div_is_ordered_by_denominator(a as int, 1, d as int);
    }
    assert(q <= a);
    if 2 * r > d || (2 * r == d && q % 2 == 1) {
        q + 1
    } else {
        q
    }
}

/// The value of `n as f64`, as an integer.
fn nearest_double_u64(n: u64) -> (r: u128)
    ensures
        r == nearest_double(n as nat),
        r <= 0x1_0000_0000_0000_1000,
{
    let mut m: u128 = n as u128;
    let mut p: u128 = 1;
    while m >= 9007199254740992
        invariant
            1 <= p <= 0x1000,
            m == n as nat / p as nat,
            m * p <= n,
            excess_divisor(n as nat) == p * excess_divisor(m as nat),
        decreases m,
    {
        proof {
            vstd::arithmetic::div_mod::lemma_div_denominator(n as int, p as int, 2);
            assert(excess_divisor(m as nat) == 2 * excess_divisor((m / 2) as nat));
            assert(p * (2 * excess_divisor((m / 2) as nat)) == (p * 2) * excess_divisor(
                (m / 2) as nat,
            )) by (nonlinear_arith);
            assert((m / 2) * (p * 2) <= m * p) by (nonlinear_arith)
                requires
                    p >= 1,
            ;
            assert(m * p >= 9007199254740992 * p) by (nonlinear_arith)
                requires
                    m >= 9007199254740992,
                    p >= 1,
            ;
            assert(p < 0x800);
        }
        m = m / 2;
        p = p * 2;
    }
    assert(excess_divisor(m as nat) == 1);
    assert(excess_divisor(n as nat) == p) by {
        let e = excess_divisor(m as nat);
        assert(p * e == p) by (nonlinear_arith)
            requires
                e == 1,
        ;
    }
    let r = round_half_even_u128(n as u128, p);
    assert(r == round_half_even(n as nat, excess_divisor(n as nat)));
    proof {
        vstd::arithmetic::div_mod::lemma_fundamental_div_mod(n as int, p as int);
        assert(r <= m + 1);
        assert(r * p <= m * p + p) by (nonlinear_arith)
            requires
                r <= m + 1,
        ;
    }
    r * p
}

/// Appends the decimal representation of `n` to `s`.
fn push_decimal_u128(s: &mut String, n: u128)
    ensures
        final(s)@ == old(s)@ + decimal(n as nat),
    decreases n,
{
    if n < 10 {
        push_char(s, digit(n as u64));
    } else {
        push_decimal_u128(s, n / 10);
        push_char(s, digit((n % 10) as u64));
    }
}

/// Appends `t / 10` with one decimal place.
fn push_tenths(s: &mut String, t: u128)
    ensures
        final(s)@ == old(s)@ + tenths_text(t as nat),
{
    push_decimal_u128(s, t / 10);
    push_char(s, '.');
    push_char(s, digit((t % 10) as u64));
}

/// Appends `t / 10` with one decimal place, leaving off a zero decimal.
fn push_short_tenths(s: &mut String, t: u128)
    ensures
        final(s)@ == old(s)@ + short_tenths_text(t as nat),
{
    if t % 10 == 0 {
        push_decimal_u128(s, t / 10);
    } else {
        push_tenths(s, t);
    }
}

/// Converts bytes to a human-readable size such as "4.5GB" or "256MB".
///
/// Below 1024 bytes the exact count is shown ("512B"); above, the size is
/// divided by the largest power of 1024 it reaches (up to TB) and shown
/// rounded to one decimal place, the decimal left off where it is zero.
pub fn bytes_to_human(bytes: u64) -> (s: String)
    ensures
        s@ == human_size(bytes as nat),
{
    let n = nearest_double_u64(bytes);
    let mut k: u64 = 0;
    let mut d: u128 = 1;
    while k < 4 && n >= d * 1024
        invariant
            k <= 4,
            k == 0 ==> d == 1,
            k == 1 ==> d == 0x400,
            k == 2 ==> d == 0x10_0000,
            k == 3 ==> d == 0x4000_0000,
            k == 4 ==> d == 0x100_0000_0000,
            unit_scale(n as nat, 0, 1) == unit_scale(n as nat, k as nat, d as nat),
        decreases 4 - k,
    {
        d = d * 1024;
        k = k + 1;
    }
    let mut s = String::new();
    if k == 0 {
        crate::text::push_decimal(&mut s, bytes);
        push_char(&mut s, 'B');
    } else {
        let t = round_half_even_u128(10 * n, d);
        push_short_tenths(&mut s, t);
        if k == 1 {
            push_char(&mut s, 'K');
        } else if k == 2 {
            push_char(&mut s, 'M');
        } else if k == 3 {
            push_char(&mut s, 'G');
        } else {
            push_char(&mut s, 'T');
        }
        push_char(&mut s, 'B');
    }
    s
}

/// Appends the double nearest to `a / b`, printed with one decimal place.
fn push_quotient_one_decimal(s: &mut String, a: u128, b: u128)
    requires
        1 <= b <= 1_000_000_000,
        a <= 0x2_0000_0000_0000_0000,
    ensures
        final(s)@ == old(s)@ + quotient_one_decimal(a as nat, b as nat),
{
    let mut sc: u128 = 1;
    let mut k: u64 = 0;
    proof {
        vstd::arithmetic::power2::lemma_pow2(0);
        assert(vstd::arithmetic::power2::pow2(0) == 1) by {
            vstd::arithmetic::power2::lemma2_to64();
        }
    }
    while k < 52 && a * sc < 4503599627370496 * b
        invariant
            k <= 52,
            sc == vstd::arithmetic::power2::pow2(k as nat),
            1 <= sc <= 4503599627370496,
            a <= 0x2_0000_0000_0000_0000,
            a * sc <= 0x2_0000_0000_0000_0000 * 4503599627370496,
            1 <= b <= 1_000_000_000,
            quotient_scale(a as nat, b as nat, 1, 52) == quotient_scale(
                a as nat,
                b as nat,
                sc as nat,
                (52 - k) as nat,
            ),
        decreases 52 - k,
    {
        proof {
            vstd::arithmetic::power2::lemma_pow2_unfold((k + 1) as nat);
            if k + 1 < 52 {
                vstd::arithmetic::power2::lemma_pow2_strictly_increases((k + 1) as nat, 52);
            }
            vstd::arithmetic::power2::lemma2_to64();
            vstd::arithmetic::power2::lemma2_to64_rest();
            assert(sc * 2 <= 4503599627370496);
            assert(a * (sc * 2) <= 0x2_0000_0000_0000_0000 * 4503599627370496) by (nonlinear_arith)
                requires
                    a <= 0x2_0000_0000_0000_0000,
                    sc * 2 <= 4503599627370496,
            ;
        }
        sc = sc * 2;
        k = k + 1;
    }
    proof {
        assert(quotient_scale(a as nat, b as nat, sc as nat, (52 - k) as nat) == sc);
    }
    let m = round_half_even_u128(a * sc, b);
    proof {
        vstd::arithmetic::div_mod::lemma_div_is_ordered_by_denominator((a * sc) as int, 1, b as int);
    }
    assert(m <= a * sc + 1);
    let t = round_half_even_u128(10 * m, sc);
    push_tenths(s, t);
}

/// Formats a parameter count with a unit: "7.6B", "350.0M", "1.5K", or the
/// plain count below one thousand.
pub fn format_param_count(count: u64) -> (s: String)
    ensures
        s@ == param_count_text(count as nat),
{
    let mut s = String::new();
    if count >= 1_000_000_000 {
        let a = nearest_double_u64(count);
        push_quotient_one_decimal(&mut s, a, 1_000_000_000);
        push_char(&mut s, 'B');
    } else if count >= 1_000_000 {
        push_quotient_one_decimal(&mut s, count as u128, 1_000_000);
        push_char(&mut s, 'M');
    } else if count >= 1_000 {
        push_quotient_one_decimal(&mut s, count as u128, 1_000);
        push_char(&mut s, 'K');
    } else {
        crate::text::push_decimal(&mut s, count);
    }
    s
}

} // verus!
