//! Rendering of a transfer rate with a scaled unit.
//!
//! A rate is held exactly, as a byte count over an elapsed time in
//! microseconds. The scale is the largest factor of
//! 10^12, 10^9, 10^6, 10^3 that the rate strictly exceeds, and the base
//! unit otherwise. The scaled value is shown with one decimal place,
//! halves rounded up.

use vstd::prelude::*;
use crate::text::{decimal, digit_chars, push_decimal, push_digit};

verus! {

/// The scale factor for `bytes` transferred in `micros` microseconds:
/// the largest factor `f` of the table with `rate / f > 1`, else 1.
pub open spec fn scale_factor(bytes: nat, micros: nat) -> nat {
    let per_second = bytes * 1_000_000;
    if per_second > micros * 1_000_000_000_000 {
        1_000_000_000_000
    } else if per_second > micros * 1_000_000_000 {
        1_000_000_000
    } else if per_second > micros * 1_000_000 {
        1_000_000
    } else if per_second > micros * 1_000 {
        1_000
    } else {
        1
    }
}

/// The unit shown for a scale factor.
pub open spec fn unit_suffix(factor: nat) -> Seq<char> {
    if factor == 1_000_000_000_000 {
        seq!['T', 'i', 'B', '/', 's']
    } else if factor == 1_000_000_000 {
        seq!['G', 'i', 'B', '/', 's']
    } else if factor == 1_000_000 {
        seq!['M', 'i', 'B', '/', 's']
    } else if factor == 1_000 {
        seq!['K', 'i', 'B', '/', 's']
    } else {
        seq!['B', '/', 's']
    }
}

/// Ten times the scaled rate, rounded to the nearest integer, halves up.
pub open spec fn scaled_tenths(bytes: nat, micros: nat) -> nat {
    let den = micros * scale_factor(bytes, micros);
    ((20 * bytes * 1_000_000 + den) / (2 * den)) as nat
}

/// The text of a rate: the scaled value with one decimal place, a space,
/// and the unit.
pub open spec fn rate_text(bytes: nat, micros: nat) -> Seq<char> {
    let t = scaled_tenths(bytes, micros);
    decimal(t / 10) + seq!['.', digit_chars()[(t % 10) as int], ' ']
        + unit_suffix(scale_factor(bytes, micros))
}

proof fn lemma_product_bounds(bytes: u64, micros: u64, factor: u128)
    requires
        1 <= factor <= 1_000_000_000_000,
        micros > 0,
    ensures
        bytes as int * 1_000_000 <= u64::MAX as int * 1_000_000,
        1 <= micros as int * factor,
        micros as int * factor <= u64::MAX as int * 1_000_000_000_000,
{
    assert(bytes as int * 1_000_000 <= u64::MAX as int * 1_000_000) by (nonlinear_arith)
        requires bytes <= u64::MAX;
    assert(micros as int * factor <= u64::MAX as int * 1_000_000_000_000) by (nonlinear_arith)
        requires micros <= u64::MAX, factor <= 1_000_000_000_000;
    assert(1 <= micros as int * factor) by (nonlinear_arith)
        requires micros >= 1, factor >= 1;
}

/// Renders the rate of `bytes` transferred in `elapsed_micros`
/// microseconds, such as `1.5 KiB/s`.
pub fn format_rate(bytes: u64, elapsed_micros: u64) -> (r: String)
    requires
        elapsed_micros > 0,
    ensures
        r@ == rate_text(bytes as nat, elapsed_micros as nat),
{
    let num: u128 = bytes as u128 * 1_000_000;
    let m: u128 = elapsed_micros as u128;
    assert(m * 1_000_000_000_000 <= u64::MAX as int * 1_000_000_000_000) by (nonlinear_arith)
        requires m <= u64::MAX;
    let (factor, suffix): (u128, &str) = if num > m * 1_000_000_000_000 {
        (1_000_000_000_000, "TiB/s")
    } else if num > m * 1_000_000_000 {
        (1_000_000_000, "GiB/s")
    } else if num > m * 1_000_000 {
        (1_000_000, "MiB/s")
    } else if num > m * 1_000 {
        (1_000, "KiB/s")
    } else {
        (1, "B/s")
    };
    proof {
        reveal_strlit("TiB/s");
        reveal_strlit("GiB/s");
        reveal_strlit("MiB/s");
        reveal_strlit("KiB/s");
        reveal_strlit("B/s");
        lemma_product_bounds(bytes, elapsed_micros, factor);
    }
    assert(factor == scale_factor(bytes as nat, elapsed_micros as nat));
    assert(suffix@ =~= unit_suffix(factor as nat));
    let den: u128 = m * factor;
    let tenths: u128 = (20 * num + den) / (2 * den);
    assert(tenths == scaled_tenths(bytes as nat, elapsed_micros as nat));
    let mut out = String::new();
    push_decimal(&mut out, tenths / 10);
    out.append(".");
    push_digit(&mut out, (tenths % 10) as u8);
    out.append(" ");
    out.append(suffix);
    proof {
        reveal_strlit(".");
        reveal_strlit(" ");
    }
    assert(out@ =~= rate_text(bytes as nat, elapsed_micros as nat));
    out
}

} // verus!
