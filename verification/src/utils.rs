//! Human-readable sizes and durations.
use vstd::prelude::*;
use vstd::arithmetic::div_mod::{lemma_div_denominator, lemma_fundamental_div_mod};
use crate::text::{decimal, pad2, u128_to_decimal, u64_to_pad2};

verus! {

pub open spec fn pow2(e: nat) -> nat
    decreases e,
{
    if e == 0 {
        1
    } else {
        2 * pow2((e - 1) as nat)
    }
}

/// How many low bits of `b` a 64-bit float cannot keep: the float has a
/// 53-bit significand.
pub open spec fn f64_shift(b: nat) -> nat
    decreases b,
{
    if b < 0x20_0000_0000_0000 {
        0
    } else {
        1 + f64_shift(b / 2)
    }
}

/// `n / d` rounded to the nearest integer, ties to the even neighbour.
pub open spec fn round_half_even_div(n: nat, d: nat) -> nat {
    let q = n / d;
    let r = n % d;
    if 2 * r > d || (2 * r == d && q % 2 == 1) {
        q + 1
    } else {
        q
    }
}

/// The value that converting the integer `b` to a 64-bit float yields:
/// the nearest multiple of the float's precision step, ties to even.
pub open spec fn f64_nearest(b: nat) -> nat {
    let p = pow2(f64_shift(b));
    round_half_even_div(b, p) * p
}

/// Which unit (B, KB, MB, GB, TB) a byte count is shown in: the largest
/// one that keeps the shown value at or above one, up to TB.
pub open spec fn unit_index(v: nat) -> nat {
    if v < 1024 {
        0
    } else if v < 1024 * 1024 {
        1
    } else if v < 1024 * 1024 * 1024 {
        2
    } else if v < 1024 * 1024 * 1024 * 1024 {
        3
    } else {
        4
    }
}

pub open spec fn unit_divisor(i: nat) -> nat {
    if i == 0 {
        1
    } else if i == 1 {
        1024
    } else if i == 2 {
        1024 * 1024
    } else if i == 3 {
        1024 * 1024 * 1024
    } else {
        1024 * 1024 * 1024 * 1024
    }
}

pub open spec fn unit_name(i: nat) -> Seq<char> {
    if i == 0 {
        seq!['B']
    } else if i == 1 {
        seq!['K', 'B']
    } else if i == 2 {
        seq!['M', 'B']
    } else if i == 3 {
        seq!['G', 'B']
    } else {
        seq!['T', 'B']
    }
}

/// A count of hundredths shown with two decimal places, as in `12.34`.
pub open spec fn two_decimals(h: nat) -> Seq<char> {
    decimal(h / 100) + seq!['.'] + pad2(h % 100)
}

/// A byte count shown as a float with two decimals and a unit, as in `1.50 KB`:
/// the count is first taken as a 64-bit float, divided by 1024 per unit step,
/// and rounded to two decimals, ties to even.
pub open spec fn pretty_bytes_spec(bytes: nat) -> Seq<char> {
    let v = f64_nearest(bytes);
    let i = unit_index(v);
    two_decimals(round_half_even_div(v * 100, unit_divisor(i))) + seq![' '] + unit_name(i)
}

/// A duration in seconds shown as `HH:MM:SS`; hours take more digits when needed.
pub open spec fn pretty_duration_spec(d: nat) -> Seq<char> {
    pad2(d / 3600) + seq![':'] + pad2((d % 3600) / 60) + seq![':'] + pad2(d % 60)
}

fn round_half_even_div_exec(n: u128, d: u128) -> (r: u128)
    requires
        d > 0,
        d <= u64::MAX,
        n < u128::MAX,
    ensures
        r == round_half_even_div(n as nat, d as nat),
        r <= n / d + 1,
{
    let q = n / d;
    let r = n % d;
    if r * 2 > d || (r * 2 == d && q % 2 == 1) {
        q + 1
    } else {
        q
    }
}

/// The integer a 64-bit float holds after converting `b` to it.
fn f64_nearest_exec(b: u64) -> (v: u128)
    ensures
        v == f64_nearest(b as nat),
        v <= 0x1_0000_0000_0000_1000,
{
    let bb = b as u128;
    let mut p: u128 = 1;
    let ghost mut e: nat = 0;
    while bb / p >= 0x20_0000_0000_0000
        invariant
            bb == b,
            p == pow2(e),
            1 <= p <= 4096,
            f64_shift(b as nat) == e + f64_shift((b as nat) / (p as nat)),
        decreases bb / p,
    {
        proof {
            lemma_div_denominator(b as int, p as int, 2);
            lemma_fundamental_div_mod(b as int, p as int);
            let q = (b as int) / (p as int);
            assert(p * q <= b);
            assert(p * 0x20_0000_0000_0000 <= p * q) by (nonlinear_arith)
                requires
                    q >= 0x20_0000_0000_0000,
                    p >= 1,
            ;
            assert(p < 2048) by (nonlinear_arith)
                requires
                    p * 0x20_0000_0000_0000 <= b,
                    b < 0x1_0000_0000_0000_0000,
            ;
            assert((b as nat) / (p as nat) / 2 == (b as nat) / ((p * 2) as nat));
        }
        p = p * 2;
        proof {
            e = e + 1;
        }
    }
    let q = bb / p;
    let r = bb % p;
    let rounded = if r * 2 > p || (r * 2 == p && q % 2 == 1) {
        q + 1
    } else {
        q
    };
    proof {
        lemma_fundamental_div_mod(b as int, p as int);
        assert(rounded * p <= q * p + p) by (nonlinear_arith)
            requires
                rounded <= q + 1,
                p >= 1,
        ;
        assert(q * p <= b) by {
            assert(q * p == p * q) by (nonlinear_arith);
        }
    }
    rounded * p
}

/// Shows a byte count with two decimals and the fitting unit (B, KB, MB, GB or TB).
pub fn pretty_bytes(bytes: u64) -> (r: String)
    ensures
        r@ == pretty_bytes_spec(bytes as nat),
{
    let v = f64_nearest_exec(bytes);
    let ghost i = unit_index(v as nat);
    let (d, unit): (u128, &str) = if v < 1024 {
        proof { reveal_strlit("B"); }
        (1, "B")
    } else if v < 1048576 {
        proof { reveal_strlit("KB"); }
        (1024, "KB")
    } else if v < 1073741824 {
        proof { reveal_strlit("MB"); }
        (1048576, "MB")
    } else if v < 1099511627776 {
        proof { reveal_strlit("GB"); }
        (1073741824, "GB")
    } else {
        proof { reveal_strlit("TB"); }
        (1099511627776, "TB")
    };
    assert(d == unit_divisor(i) && unit@ == unit_name(i));
    let h = round_half_even_div_exec(v * 100, d);
    let mut s = u128_to_decimal(h / 100);
    proof {
        reveal_strlit(".");
        reveal_strlit(" ");
    }
    s.append(".");
    let frac = u64_to_pad2((h % 100) as u64);
    s.append(frac.as_str());
    s.append(" ");
    s.append(unit);
    s
}

/// A byte count in mebibytes with two decimals, as a 64-bit float divided
/// by 1024 twice and rounded, ties to even.
pub open spec fn mebibytes_spec(size: nat) -> Seq<char> {
    two_decimals(round_half_even_div(f64_nearest(size) * 100, 1024 * 1024))
}

/// Shows a byte count in mebibytes with two decimals, as in `3.50`.
pub fn mebibytes_two_decimals(size: u64) -> (r: String)
    ensures
        r@ == mebibytes_spec(size as nat),
{
    let v = f64_nearest_exec(size);
    let h = round_half_even_div_exec(v * 100, 1048576);
    let mut s = u128_to_decimal(h / 100);
    proof {
        reveal_strlit(".");
    }
    s.append(".");
    let frac = u64_to_pad2((h % 100) as u64);
    s.append(frac.as_str());
    s
}

/// Shows a number of seconds as `HH:MM:SS`.
pub fn pretty_duration(duration: u64) -> (r: String)
    ensures
        r@ == pretty_duration_spec(duration as nat),
{
    let hours = duration / 3600;
    let minutes = (duration % 3600) / 60;
    let seconds = duration % 60;
    proof {
        reveal_strlit(":");
    }
    let mut s = u64_to_pad2(hours);
    s.append(":");
    let m = u64_to_pad2(minutes);
    s.append(m.as_str());
    s.append(":");
    let sec = u64_to_pad2(seconds);
    s.append(sec.as_str());
    s
}

/// The fields that `pretty_duration` shows add back up to the duration, and
/// minutes and seconds stay below sixty.
pub proof fn law_duration_fields_recombine(d: nat)
    ensures
        (d / 3600) * 3600 + ((d % 3600) / 60) * 60 + d % 60 == d,
        (d % 3600) / 60 < 60,
        d % 60 < 60,
{
    lemma_fundamental_div_mod(d as int, 3600);
    lemma_fundamental_div_mod((d % 3600) as int, 60);
    assert((d % 3600) % 60 == d % 60) by {
        vstd::arithmetic::div_mod::lemma_mod_mod(d as int, 60, 60);
    }
}

} // verus!
