//! Byte counts as the user interface prints them: `123 B`, or the value in
//! KB, MB or GB (units of 1024) with two decimals, exactly as std prints an
//! `f64` with `{:.2}`.

use vstd::prelude::*;
use crate::text::{decimal, decimal_string, digit_char, owned, push_char, push_str};

verus! {

pub const KB: u64 = 1024;
pub const MB: u64 = 1024 * 1024;
pub const GB: u64 = 1024 * 1024 * 1024;

/// 2 to the power `e`.
pub open spec fn two_to(e: nat) -> nat
    decreases e,
{
    if e == 0 {
        1
    } else {
        2 * two_to((e - 1) as nat)
    }
}

/// The largest integer below which every integer is an `f64` (2^53).
pub open spec fn exact_limit() -> nat {
    0x20_0000_0000_0000
}

/// How many low bits of `n` an `f64` cannot hold.
pub open spec fn excess_bits(n: nat) -> nat
    decreases n,
{
    if n < exact_limit() {
        0
    } else {
        1 + excess_bits(n / 2)
    }
}

/// `a / d` rounded to the nearest integer, ties to the even one.
pub open spec fn div_round_even(a: nat, d: nat) -> nat
    recommends
        d > 0,
{
    let q = a / d;
    let r = a % d;
    if r * 2 > d || (r * 2 == d && q % 2 == 1) {
        q + 1
    } else {
        q
    }
}

/// The integer `n` as `n as f64` holds it: rounded to 53 significant bits,
/// ties to even.
pub open spec fn f64_value(n: nat) -> nat {
    div_round_even(n, two_to(excess_bits(n))) * two_to(excess_bits(n))
}

/// `h` hundredths with two decimals.
pub open spec fn hundredths_text(h: nat) -> Seq<char> {
    decimal(h / 100) + "."@ + seq![digit_char((h / 10) % 10), digit_char(h % 10)]
}

/// `bytes` in units of `unit`, as `{:.2}` prints `bytes as f64 / unit as f64`.
pub open spec fn scaled_text(bytes: u64, unit: u64) -> Seq<char> {
    hundredths_text(div_round_even(f64_value(bytes as nat) * 100, unit as nat))
}

/// How a byte count is shown.
pub open spec fn size_text(bytes: u64) -> Seq<char> {
    if bytes >= GB {
        scaled_text(bytes, GB) + " GB"@
    } else if bytes >= MB {
        scaled_text(bytes, MB) + " MB"@
    } else if bytes >= KB {
        scaled_text(bytes, KB) + " KB"@
    } else {
        decimal(bytes as nat) + " B"@
    }
}

/// `a / d` rounded to the nearest integer, ties to the even one.
fn div_round_even_u128(a: u128, d: u128) -> (r: u128)
    requires
        d > 0,
        a < 0x1_0000_0000_0000_0000_0000_0000_0000,
    ensures
        r == div_round_even(a as nat, d as nat),
{
    let q = a / d;
    let rem = a % d;
    assert(q <= a) by (nonlinear_arith)
        requires
            d > 0,
            q == a / d,
    ;
    if rem > d - rem || (rem == d - rem && q % 2 == 1) {
        q + 1
    } else {
        q
    }
}

/// The integer `n` as `n as f64` holds it.
fn f64_value_u128(n: u64) -> (r: u128)
    requires
        n > 0,
    ensures
        r == f64_value(n as nat),
        r <= 2 * (n as int),
{
    let b = n as u128;
    let mut d: u128 = 1;
    let ghost mut s: nat = 0;
    while b / d >= 0x20_0000_0000_0000
        invariant
            b == n as u128,
            b > 0,
            d > 0,
            d == two_to(s),
            d == 1 || d <= b,
            excess_bits(n as nat) == s + excess_bits((b / d) as nat),
        decreases b / d,
    {
        let ghost t = b / d;
        proof {
            vstd::arithmetic::div_mod::lemma_div_denominator(b as int, d as int, 2);
            assert(2 * d <= b) by (nonlinear_arith)
                requires
                    d > 0,
                    t == b / d,
                    t >= 2,
            ;
            assert(t / 2 < t);
        }
        d = d * 2;
        proof {
            s = s + 1;
        }
    }
    assert(excess_bits((b / d) as nat) == 0);
    let v = div_round_even_u128(b, d);
    assert(v <= b / d + 1);
    assert((b / d) * d <= b) by (nonlinear_arith)
        requires
            d > 0,
    ;
    assert(v * d <= b + d) by (nonlinear_arith)
        requires
            v <= b / d + 1,
            (b / d) * d <= b,
            d > 0,
    ;
    v * d
}

/// The two-decimal text of `h` hundredths.
fn push_hundredths(out: &mut String, h: u64)
    ensures
        final(out)@ == old(out)@ + hundredths_text(h as nat),
{
    let whole = decimal_string(h / 100);
    push_str(out, whole.as_str());
    push_char(out, '.');
    let tens = ((h / 10) % 10) as u8;
    let ones = (h % 10) as u8;
    push_char(out, ('0' as u8 + tens) as char);
    push_char(out, ('0' as u8 + ones) as char);
    proof {
        reveal_strlit(".");
        assert(final(out)@ =~= old(out)@ + hundredths_text(h as nat));
    }
}

/// A byte count for display: `N B` below 1 KB, else the value in KB, MB
/// or GB with two decimals.
pub fn format_size(bytes: u64) -> (r: String)
    ensures
        r@ == size_text(bytes),
{
    if bytes < KB {
        let mut r = decimal_string(bytes);
        push_str(&mut r, " B");
        return r;
    }
    let (unit, suffix) = if bytes >= GB {
        (GB, " GB")
    } else if bytes >= MB {
        (MB, " MB")
    } else {
        (KB, " KB")
    };
    let v = f64_value_u128(bytes);
    let h = div_round_even_u128(v * 100, unit as u128);
    proof {
        let a: int = v * 100;
        let u: int = unit as int;
        assert(h <= a / u + 1);
        assert(a / u <= a / 1024) by (nonlinear_arith)
            requires
                u >= 1024,
                a >= 0,
        ;
    }
    let mut r = String::new();
    push_hundredths(&mut r, h as u64);
    push_str(&mut r, suffix);
    r
}

} // verus!
