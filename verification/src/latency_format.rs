//! Human-readable latency text.
//!
//! Values of a microsecond and more are shown with two decimals, exactly as
//! formatting the double-precision quotient with `{:.2}` shows them: the
//! nanosecond count is rounded to the nearest double, the quotient by the
//! unit is rounded to the nearest double (ties to even), and that double is
//! rounded to hundredths (ties to even). The computation below does this in
//! integer arithmetic.

use crate::metrics::{decimal_string_wide, digit_str, spec_decimal, spec_digit_char};
use vstd::prelude::*;
use vstd::string::*;

verus! {

/// `2^e`.
pub open spec fn spec_pow2(e: nat) -> nat
    decreases e,
{
    if e == 0 {
        1
    } else {
        2 * spec_pow2((e - 1) as nat)
    }
}

/// Number of binary digits of `x` (0 for 0).
pub open spec fn spec_bit_len(x: nat) -> nat
    decreases x,
{
    if x == 0 {
        0
    } else {
        1 + spec_bit_len(x / 2)
    }
}

/// `num / den` rounded to the nearest integer, ties to even.
pub open spec fn spec_round_half_even(num: nat, den: nat) -> nat {
    let q = num / den;
    let r = num % den;
    if 2 * r > den || (2 * r == den && q % 2 == 1) {
        q + 1
    } else {
        q
    }
}

/// `n` rounded to 53 significant bits (ties to even): the value of the
/// nearest double.
pub open spec fn spec_nearest_double_int(n: nat) -> nat {
    if spec_bit_len(n) <= 53 {
        n
    } else {
        let sh = (spec_bit_len(n) - 53) as nat;
        spec_round_half_even(n, spec_pow2(sh)) * spec_pow2(sh)
    }
}

/// Binary scale `s` that puts `a / d` times `2^s` among 53-bit integers.
pub open spec fn spec_quotient_scale(a: nat, d: nat) -> nat {
    if spec_bit_len(a / d) <= 53 {
        (53 - spec_bit_len(a / d)) as nat
    } else {
        0
    }
}

/// `n / d` in hundredths, as the double quotient rounded to hundredths.
pub open spec fn spec_hundredths(n: nat, d: nat) -> nat {
    let a = spec_nearest_double_int(n);
    let s = spec_quotient_scale(a, d);
    let m = spec_round_half_even(a * spec_pow2(s), d);
    spec_round_half_even(m * 100, spec_pow2(s))
}

/// Text of `n / d` with two decimals.
pub open spec fn spec_fixed2(n: nat, d: nat) -> Seq<char> {
    let h = spec_hundredths(n, d);
    spec_decimal(h / 100) + "."@ + seq![spec_digit_char((h % 100) / 10), spec_digit_char(h % 10)]
}

/// Human-readable latency: whole nanoseconds below 1 µs, then µs, ms or s
/// with two decimals.
pub open spec fn spec_format_latency(ns: nat) -> Seq<char> {
    if ns < 1000 {
        spec_decimal(ns) + "ns"@
    } else if ns < 1000000 {
        spec_fixed2(ns, 1000) + "μs"@
    } else if ns < 1000000000 {
        spec_fixed2(ns, 1000000) + "ms"@
    } else {
        spec_fixed2(ns, 1000000000) + "s"@
    }
}

proof fn lemma_pow2_pos(e: nat)
    ensures
        spec_pow2(e) >= 1,
    decreases e,
{
    if e > 0 {
        lemma_pow2_pos((e - 1) as nat);
    }
}

proof fn lemma_pow2_mono(a: nat, b: nat)
    requires
        a <= b,
    ensures
        spec_pow2(a) <= spec_pow2(b),
    decreases b,
{
    if a < b {
        lemma_pow2_mono(a, (b - 1) as nat);
        lemma_pow2_pos((b - 1) as nat);
    }
}

/// `2^(len-1) <= x < 2^len` for `x >= 1`, with `len` the bit length.
proof fn lemma_bit_len_bounds(x: nat)
    requires
        x >= 1,
    ensures
        spec_bit_len(x) >= 1,
        spec_pow2((spec_bit_len(x) - 1) as nat) <= x,
        x < spec_pow2(spec_bit_len(x)),
    decreases x,
{
    if x / 2 == 0 {
        assert(x == 1);
        assert(spec_bit_len(0) == 0);
    } else {
        lemma_bit_len_bounds(x / 2);
    }
}

/// Bit length grows with the argument.
proof fn lemma_bit_len_mono(x: nat, y: nat)
    requires
        x <= y,
    ensures
        spec_bit_len(x) <= spec_bit_len(y),
    decreases y,
{
    if x > 0 {
        lemma_bit_len_mono(x / 2, y / 2);
    }
}

proof fn lemma_round_half_even_bound(num: nat, den: nat)
    requires
        den >= 1,
    ensures
        spec_round_half_even(num, den) <= num / den + 1,
        num / den <= num,
{
    assert(num / den <= num) by (nonlinear_arith)
        requires
            den >= 1,
    ;
}

/// Below `2^k`, a number has at most `k` binary digits.
proof fn lemma_bit_len_le(x: nat, k: nat)
    requires
        x < spec_pow2(k),
    ensures
        spec_bit_len(x) <= k,
{
    if x >= 1 {
        lemma_bit_len_bounds(x);
        if spec_bit_len(x) - 1 >= k {
            lemma_pow2_mono(k, (spec_bit_len(x) - 1) as nat);
        }
    }
}

proof fn lemma_pow2_add(a: nat, b: nat)
    ensures
        spec_pow2(a + b) == spec_pow2(a) * spec_pow2(b),
    decreases b,
{
    if b == 0 {
        assert(a + b == a);
        assert(spec_pow2(b) == 1);
    } else {
        let b1 = (b - 1) as nat;
        lemma_pow2_add(a, b1);
        let x = spec_pow2(a);
        let y = spec_pow2(b1);
        assert(a + b == (a + b1) + 1);
        assert(spec_pow2(a + b) == 2 * spec_pow2(a + b1));
        assert(spec_pow2(b) == 2 * y);
        assert(spec_pow2(a + b1) == x * y);
        assert(x * (2 * y) == 2 * (x * y)) by (nonlinear_arith);
    }
}

proof fn lemma_pow2_128()
    ensures
        spec_pow2(128) == 0x1_0000_0000_0000_0000_0000_0000_0000_0000,
{
    lemma_pow2_64();
    lemma_pow2_add(64, 64);
}

proof fn lemma_pow2_64()
    ensures
        spec_pow2(64) == 0x10000000000000000,
{
    reveal_with_fuel(spec_pow2, 65);
}

proof fn lemma_pow2_53()
    ensures
        spec_pow2(53) == 0x20000000000000,
{
    reveal_with_fuel(spec_pow2, 54);
}

proof fn lemma_bit_len_u64_max()
    ensures
        spec_bit_len(0xffff_ffff_ffff_ffff) == 64,
{
    reveal_with_fuel(spec_bit_len, 65);
}

/// `2^e` for `e <= 64`.
fn pow2_u128(e: u32) -> (p: u128)
    requires
        e <= 64,
    ensures
        p == spec_pow2(e as nat),
{
    let mut p: u128 = 1;
    let mut i: u32 = 0;
    proof {
        lemma_pow2_64();
    }
    while i < e
        invariant
            i <= e <= 64,
            p == spec_pow2(i as nat),
            p <= spec_pow2(64),
        decreases e - i,
    {
        proof {
            lemma_pow2_mono((i + 1) as nat, 64);
            assert(spec_pow2((i + 1) as nat) == 2 * spec_pow2(i as nat));
            lemma_pow2_64();
        }
        p = p * 2;
        i = i + 1;
    }
    p
}

/// Bit length of `x`.
fn bit_len_u128(x: u128) -> (l: u32)
    ensures
        l == spec_bit_len(x as nat),
        l <= 128,
{
    let mut cur = x;
    let mut l: u32 = 0;
    proof {
        lemma_pow2_128();
        lemma_bit_len_le(x as nat, 128);
    }
    while cur > 0
        invariant
            spec_bit_len(x as nat) == l + spec_bit_len(cur as nat),
            l <= 128,
            cur as nat <= (x as nat),
            l + spec_bit_len(cur as nat) <= 128,
        decreases cur,
    {
        proof {
            if cur >= 1 {
                lemma_bit_len_bounds(cur as nat);
                lemma_bit_len_mono(cur as nat, 0xffff_ffff_ffff_ffff_ffff_ffff_ffff_ffff);
            }
        }
        cur = cur / 2;
        l = l + 1;
    }
    l
}

/// `num / den` rounded to the nearest integer, ties to even.
fn round_half_even_u128(num: u128, den: u128) -> (r: u128)
    requires
        1 <= den < 0x8000_0000_0000_0000_0000_0000_0000_0000,
        num < 0xffff_ffff_ffff_ffff_ffff_ffff_ffff_ffff,
    ensures
        r == spec_round_half_even(num as nat, den as nat),
{
    proof {
        lemma_round_half_even_bound(num as nat, den as nat);
    }
    let q = num / den;
    let rem = num % den;
    if 2 * rem > den || (2 * rem == den && q % 2 == 1) {
        q + 1
    } else {
        q
    }
}

/// `n / d` in hundredths as the double quotient shows it.
fn hundredths(n: u64, d: u64) -> (h: u128)
    requires
        d == 1000 || d == 1000000 || d == 1000000000,
    ensures
        h == spec_hundredths(n as nat, d as nat),
{
    let len = bit_len_u128(n as u128);
    let a: u128 = if len <= 53 {
        n as u128
    } else {
        let sh = len - 53;
        proof {
            lemma_bit_len_bounds(n as nat);
            lemma_bit_len_mono(n as nat, 0xffff_ffff_ffff_ffff);
            lemma_bit_len_u64_max();
            lemma_pow2_mono(sh as nat, (len - 1) as nat);
            lemma_pow2_pos(sh as nat);
        }
        let p = pow2_u128(sh);
        let r = round_half_even_u128(n as u128, p);
        proof {
            lemma_round_half_even_bound(n as nat, p as nat);
            let nn = n as int;
            let pp = p as int;
            let rr = r as int;
            assert(rr * pp <= 2 * nn) by (nonlinear_arith)
                requires
                    rr <= nn / pp + 1,
                    pp <= nn,
                    pp >= 1,
            ;
        }
        r * p
    };
    assert(a <= 2 * (n as nat));
    let qd = a / (d as u128);
    let ql = bit_len_u128(qd);
    let s: u32 = if ql <= 53 {
        53 - ql
    } else {
        0
    };
    let p = pow2_u128(s);
    proof {
        lemma_pow2_mono(s as nat, 53);
        lemma_pow2_53();
        assert(a * p <= 0x20000000000000 * 0x20000000000000000) by (nonlinear_arith)
            requires
                a <= 0x20000000000000000,
                p <= 0x20000000000000,
        ;
    }
    let scaled = a * p;
    let m = round_half_even_u128(scaled, d as u128);
    proof {
        lemma_round_half_even_bound(scaled as nat, d as nat);
        assert(m * 100 < 0xffff_ffff_ffff_ffff_ffff_ffff_ffff_ffff) by (nonlinear_arith)
            requires
                m <= scaled + 1,
                scaled <= 0x20000000000000 * 0x20000000000000000,
        ;
        lemma_pow2_pos(s as nat);
    }
    round_half_even_u128(m * 100, p)
}

/// Text of `n / d` with two decimals.
fn fixed2(n: u64, d: u64) -> (s: String)
    requires
        d == 1000 || d == 1000000 || d == 1000000000,
    ensures
        s@ == spec_fixed2(n as nat, d as nat),
{
    let h = hundredths(n, d);
    let whole = h / 100;
    let tens = ((h % 100) / 10) as u64;
    let ones = (h % 10) as u64;
    let head = decimal_string_wide(whole);
    let t1 = head.concat(".");
    let t2 = t1.concat(digit_str(tens));
    let text = t2.concat(digit_str(ones));
    proof {
        reveal_strlit(".");
        assert(text@ =~= spec_decimal(whole as nat) + "."@ + seq![
            spec_digit_char(tens as nat),
            spec_digit_char(ones as nat),
        ]);
    }
    text
}

/// Human-readable latency: whole nanoseconds below 1 µs, otherwise the
/// value in µs, ms or s with two decimals.
pub fn format_latency(latency_ns: u64) -> (s: String)
    ensures
        s@ == spec_format_latency(latency_ns as nat),
{
    if latency_ns < 1000 {
        decimal_string_wide(latency_ns as u128).concat("ns")
    } else if latency_ns < 1000000 {
        fixed2(latency_ns, 1000).concat("μs")
    } else if latency_ns < 1000000000 {
        fixed2(latency_ns, 1000000).concat("ms")
    } else {
        fixed2(latency_ns, 1000000000).concat("s")
    }
}

} // verus!
