//! Word-level arithmetic helpers: powers of two, alignment, rounding, and
//! the size-class computations used by the untyped-memory carver.
//!
//! Contracts are stated over `pow2` and `%` so that callers reason about
//! alignment arithmetically; the bodies use shifts and masks as the kernel
//! does, with the bridge proved here once.

use vstd::arithmetic::div_mod::{
    lemma_add_mod_noop, lemma_div_by_multiple, lemma_div_denominator, lemma_fundamental_div_mod,
    lemma_mod_bound, lemma_mod_breakdown, lemma_mod_multiples_basic, lemma_mod_self_0,
    lemma_small_mod,
};
use vstd::arithmetic::power2::{
    lemma2_to64, lemma2_to64_rest, lemma_pow2_adds, lemma_pow2_pos, pow2,
};
use vstd::bits::{
    lemma_u64_low_bits_mask_is_mod, lemma_u64_pow2_no_overflow, lemma_u64_shl_is_mul,
    lemma_u64_shr_is_div, low_bits_mask,
};
use vstd::prelude::*;

verus! {

/// `n` is a multiple of the alignment `a`.
pub open spec fn aligned(n: int, a: int) -> bool
    recommends
        a > 0,
{
    n % a == 0
}

/// The greatest multiple of `pow2(b)` that is at most `n`.
pub open spec fn align_down(n: int, b: nat) -> int {
    n - n % (pow2(b) as int)
}

/// The least multiple of `pow2(b)` that is at least `n`.
pub open spec fn align_up(n: int, b: nat) -> int {
    if n % (pow2(b) as int) == 0 {
        n
    } else {
        n + pow2(b) - n % (pow2(b) as int)
    }
}

/// A value aligned to a larger power of two is aligned to any smaller one.
pub proof fn lemma_aligned_weaken(n: int, b_small: nat, b_big: nat)
    requires
        n >= 0,
        b_small <= b_big,
        aligned(n, pow2(b_big) as int),
    ensures
        aligned(n, pow2(b_small) as int),
{
    let c = pow2(b_small) as int;
    let d = pow2((b_big - b_small) as nat) as int;
    lemma_pow2_adds(b_small, (b_big - b_small) as nat);
    lemma_pow2_pos(b_small);
    lemma_pow2_pos((b_big - b_small) as nat);
    lemma_mod_breakdown(n, c, d);
}

/// The sum of two multiples of `a` is a multiple of `a`.
pub proof fn lemma_aligned_add(x: int, y: int, a: int)
    requires
        a > 0,
        aligned(x, a),
        aligned(y, a),
    ensures
        aligned(x + y, a),
{
    lemma_add_mod_noop(x, y, a);
    lemma_small_mod(0, a as nat);
}

/// Rounding down and up to a power of two: both results are aligned and
/// bracket the value within one alignment unit.
pub proof fn lemma_align_bounds(x: int, b: nat)
    requires
        x >= 0,
    ensures
        aligned(align_down(x, b), pow2(b) as int),
        align_down(x, b) <= x,
        x - align_down(x, b) < pow2(b),
        aligned(align_up(x, b), pow2(b) as int),
        align_up(x, b) >= x,
        align_up(x, b) - x < pow2(b),
{
    let p = pow2(b) as int;
    lemma_pow2_pos(b);
    lemma_mod_bound(x, p);
    vstd::arithmetic::div_mod::lemma_sub_mod_noop(x, x % p, p);
    vstd::arithmetic::div_mod::lemma_mod_twice(x, p);
    lemma_small_mod(0, p as nat);
    if x % p != 0 {
        lemma_mod_self_0(p);
        lemma_aligned_add(x - x % p, p, p);
    }
}

/// The aligned hull `[align_down(s), align_up(e))` of a range is an exact
/// number of alignment units wide.
pub proof fn lemma_aligned_range_exact(s: int, e: int, b: nat)
    requires
        0 <= s <= e,
    ensures
        ({
            let d = align_down(s, b);
            let u = align_up(e, b);
            let p = pow2(b) as int;
            &&& d <= s
            &&& s - d < p
            &&& e <= u
            &&& u - e < p
            &&& u - d == ((u - d) / p) * p
            &&& (u - d) / p >= 0
        }),
{
    let d = align_down(s, b);
    let u = align_up(e, b);
    let p = pow2(b) as int;
    lemma_pow2_pos(b);
    lemma_align_bounds(s, b);
    lemma_align_bounds(e, b);
    vstd::arithmetic::div_mod::lemma_sub_mod_noop(u, d, p);
    lemma_small_mod(0, p as nat);
    lemma_fundamental_div_mod(u - d, p);
    vstd::arithmetic::div_mod::lemma_div_is_ordered(0, u - d, p);
    vstd::arithmetic::div_mod::lemma_div_of0(p);
    assert(((u - d) / p) * p == p * ((u - d) / p)) by (nonlinear_arith);
}

/// `1 << b`, connected to `pow2`.
pub fn bit64(b: u64) -> (r: u64)
    requires
        b < 64,
    ensures
        r == pow2(b as nat),
        r >= 1,
{
    proof {
        lemma_u64_pow2_no_overflow(b as nat);
        lemma_u64_shl_is_mul(1u64, b);
        lemma_pow2_pos(b as nat);
    }
    1u64 << b
}

/// Mask with the low `b` bits set.
pub fn mask64(b: u64) -> (r: u64)
    requires
        b < 64,
    ensures
        r == low_bits_mask(b as nat),
        r == pow2(b as nat) - 1,
{
    bit64(b) - 1
}

/// Whether `n` is a multiple of `pow2(b)`.
pub fn is_aligned(n: u64, b: u64) -> (r: bool)
    requires
        b < 64,
    ensures
        r == aligned(n as int, pow2(b as nat) as int),
{
    proof {
        lemma_u64_low_bits_mask_is_mod(n, b as nat);
        lemma_u64_pow2_no_overflow(b as nat);
    }
    n & mask64(b) == 0
}

/// Rounds `n` down to a multiple of `pow2(b)`.
pub fn round_down(n: u64, b: u64) -> (r: u64)
    requires
        b < 64,
    ensures
        r == align_down(n as int, b as nat),
        aligned(r as int, pow2(b as nat) as int),
        r <= n,
        n - r < pow2(b as nat),
{
    proof {
        lemma_u64_pow2_no_overflow(b as nat);
        let p = pow2(b as nat) as int;
        let q = n as int / p;
        lemma_u64_shr_is_div(n, b);
        lemma_fundamental_div_mod(n as int, p);
        lemma_mod_bound(n as int, p);
        assert(p * q == q * p) by (nonlinear_arith);
        lemma_u64_shl_is_mul((n >> b), b);
        lemma_mod_multiples_basic(q, p);
    }
    (n >> b) << b
}

/// Rounds `n` up to a multiple of `pow2(b)`.
pub fn round_up(n: u64, b: u64) -> (r: u64)
    requires
        b < 64,
        n + pow2(b as nat) <= u64::MAX + 1,
    ensures
        r == align_up(n as int, b as nat),
        aligned(r as int, pow2(b as nat) as int),
        n <= r,
        r - n < pow2(b as nat),
{
    let down = round_down(n, b);
    if down == n {
        n
    } else {
        proof {
            lemma_pow2_pos(b as nat);
            let p = pow2(b as nat) as int;
            lemma_add_mod_noop(down as int, p, p);
            lemma_mod_self_0(p);
            lemma_small_mod(0, p as nat);
        }
        down + bit64(b)
    }
}

/// The floor of the base-two logarithm, as a recursive definition.
pub open spec fn floor_log2_spec(x: u64) -> int
    decreases x,
{
    if x < 2 {
        0
    } else {
        1 + floor_log2_spec((x / 2) as u64)
    }
}

/// The number of low zero bits, as a recursive definition.
pub open spec fn low_zero_bits_spec(x: u64) -> int
    decreases x,
{
    if x == 0 || x % 2 == 1 {
        0
    } else {
        1 + low_zero_bits_spec((x / 2) as u64)
    }
}

/// The base-two logarithm is within the word and its power fits under `x`.
pub proof fn lemma_floor_log2_spec_bounds(x: u64)
    requires
        x > 0,
    ensures
        0 <= floor_log2_spec(x) < 64,
        pow2(floor_log2_spec(x) as nat) <= x,
    decreases x,
{
    lemma2_to64();
    if x >= 2 {
        lemma_floor_log2_spec_bounds((x / 2) as u64);
        let f = floor_log2_spec((x / 2) as u64);
        lemma_pow2_adds(f as nat, 1);
        if f + 1 >= 64 {
            lemma2_to64_rest();
            vstd::arithmetic::power2::lemma_pow2_strictly_increases(63, (f + 1) as nat);
            assert(false);
        }
    }
}

/// The low-zero-bit count is within the word and the power it names divides
/// `x`.
pub proof fn lemma_low_zero_bits_spec_bounds(x: u64)
    requires
        x > 0,
    ensures
        0 <= low_zero_bits_spec(x) < 64,
        aligned(x as int, pow2(low_zero_bits_spec(x) as nat) as int),
    decreases x,
{
    lemma2_to64();
    if !(x % 2 == 1) {
        lemma_low_zero_bits_spec_bounds((x / 2) as u64);
        let f = low_zero_bits_spec((x / 2) as u64);
        let p = pow2(f as nat) as int;
        lemma_pow2_pos(f as nat);
        lemma_pow2_adds(f as nat, 1);
        lemma_fundamental_div_mod(x as int, 2);
        let h = (x / 2) as u64;
        lemma_fundamental_div_mod(h as int, p);
        // x == 2 * (h / p) * (2^f * 2) ... combine the two divisions.
        assert(x as int == (p * 2) * (h as int / p)) by (nonlinear_arith)
            requires
                x as int == 2 * (h as int) + x as int % 2,
                x % 2 == 0,
                h as int == p * (h as int / p) + h as int % p,
                h as int % p == 0,
        ;
        lemma_mod_multiples_basic(h as int / p, p * 2);
        assert((h as int / p) * (p * 2) == (p * 2) * (h as int / p)) by (nonlinear_arith);
        if f + 1 >= 64 {
            lemma2_to64_rest();
            vstd::arithmetic::power2::lemma_pow2_strictly_increases(63, (f + 1) as nat);
            assert(x as int >= p * 2) by (nonlinear_arith)
                requires
                    x as int == (p * 2) * (h as int / p),
                    h as int / p >= 1,
                    p > 0,
            ;
            assert(false);
        }
    }
}

/// The floor of the base-two logarithm: `pow2(r) <= x < pow2(r + 1)`.
pub fn floor_log2(x: u64) -> (r: u64)
    requires
        x > 0,
    ensures
        r == floor_log2_spec(x),
        r < 64,
        pow2(r as nat) <= x < pow2((r + 1) as nat),
{
    let mut v: u64 = x;
    let mut r: u64 = 0;
    proof {
        lemma2_to64();
    }
    while v >= 2
        invariant
            r < 64,
            1 <= v,
            v == x as int / pow2(r as nat) as int,
            pow2(r as nat) <= x,
            floor_log2_spec(x) == r + floor_log2_spec(v),
        decreases v,
    {
        proof {
            let p = pow2(r as nat) as int;
            lemma_pow2_pos(r as nat);
            lemma_pow2_adds(r as nat, 1);
            lemma2_to64();
            assert(pow2((r + 1) as nat) == p * 2);
            lemma_fundamental_div_mod(x as int, p);
            // x == p * v + x % p, v >= 2, x % p >= 0, so x >= 2 * p.
            assert(p * (v as int) >= p * 2) by (nonlinear_arith)
                requires
                    p > 0,
                    v >= 2,
            ;
            assert(pow2((r + 1) as nat) <= x);
            if r + 1 == 64 {
                lemma2_to64_rest();
                assert(false);
            }
            lemma_div_denominator(x as int, p, 2);
            assert(floor_log2_spec(v) == 1 + floor_log2_spec((v / 2) as u64));
        }
        v = v / 2;
        r = r + 1;
    }
    proof {
        let p = pow2(r as nat) as int;
        lemma_pow2_pos(r as nat);
        lemma_pow2_adds(r as nat, 1);
        lemma2_to64();
        assert(pow2((r + 1) as nat) == p * 2);
        lemma_fundamental_div_mod(x as int, p);
        // v == 1, so x == p + x % p < 2 * p.
    }
    r
}

/// The number of low zero bits of `x`: `pow2(r)` divides `x` and the
/// quotient is odd.
pub fn low_zero_bits(x: u64) -> (r: u64)
    requires
        x > 0,
    ensures
        r == low_zero_bits_spec(x),
        r < 64,
        aligned(x as int, pow2(r as nat) as int),
        (x as int / pow2(r as nat) as int) % 2 == 1,
{
    let mut v: u64 = x;
    let mut r: u64 = 0;
    proof {
        lemma2_to64();
    }
    while v % 2 == 0
        invariant
            r < 64,
            1 <= v,
            v == x as int / pow2(r as nat) as int,
            aligned(x as int, pow2(r as nat) as int),
            low_zero_bits_spec(x) == r + low_zero_bits_spec(v),
        decreases v,
    {
        proof {
            let p = pow2(r as nat) as int;
            let k = v as int / 2;
            lemma_pow2_pos(r as nat);
            lemma_pow2_adds(r as nat, 1);
            lemma2_to64();
            assert(pow2((r + 1) as nat) == p * 2);
            lemma_fundamental_div_mod(x as int, p);
            lemma_fundamental_div_mod(v as int, 2);
            // x == p * v and v == 2 * k, so x == (p * 2) * k.
            assert(x as int == (p * 2) * k) by (nonlinear_arith)
                requires
                    x as int == p * (v as int) + x as int % p,
                    x as int % p == 0,
                    v == 2 * k + v as int % 2,
                    v % 2 == 0,
            ;
            lemma_div_by_multiple(k, p * 2);
            lemma_mod_multiples_basic(k, p * 2);
            assert(k * (p * 2) == (p * 2) * k) by (nonlinear_arith);
            assert(low_zero_bits_spec(v) == 1 + low_zero_bits_spec((v / 2) as u64));
            if r + 1 == 64 {
                // x would be a positive multiple of pow2(64), above u64::MAX.
                lemma2_to64_rest();
                assert(x as int >= p * 2) by (nonlinear_arith)
                    requires
                        x as int == (p * 2) * k,
                        k >= 1,
                        p > 0,
                ;
                assert(false);
            }
        }
        v = v / 2;
        r = r + 1;
    }
    r
}

} // verus!
