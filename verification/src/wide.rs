//! Wide integer arithmetic.
//!
//! Ratios of token amounts are computed as `a * b / c` where the product
//! may need up to 256 bits. [`U256`] holds such a product exactly; dividing
//! it by a 128-bit divisor and narrowing the quotient back to 128 bits is
//! checked, so no intermediate step loses precision.

use vstd::prelude::*;
use vstd::arithmetic::div_mod::{lemma_fundamental_div_mod, lemma_fundamental_div_mod_converse};
use vstd::arithmetic::mul::lemma_mul_is_commutative;
use vstd::arithmetic::power::{lemma_pow0, lemma_pow1, lemma_pow_adds, lemma_pow_strictly_increases, pow};
use vstd::arithmetic::power2::{lemma2_to64, lemma_pow2_adds, lemma_pow2_pos, lemma_pow2_unfold, pow2};

verus! {

/// 2^64, the radix used to split a 128-bit word into halves.
pub const RADIX_64: u128 = 0x1_0000_0000_0000_0000;

/// 2^127, the weight of the top bit of a 128-bit word.
pub const TOP_BIT: u128 = 0x8000_0000_0000_0000_0000_0000_0000_0000;

/// 2^128 as a mathematical integer.
pub open spec fn radix_128() -> nat {
    0x1_0000_0000_0000_0000_0000_0000_0000_0000nat
}

/// An unsigned 256-bit integer, stored as two 128-bit words.
#[derive(Clone, Copy, Debug)]
pub struct U256 {
    /// The upper 128 bits.
    pub hi: u128,
    /// The lower 128 bits.
    pub lo: u128,
}

impl View for U256 {
    type V = nat;

    open spec fn view(&self) -> nat {
        (self.hi as nat) * 0x1_0000_0000_0000_0000_0000_0000_0000_0000nat + (self.lo as nat)
    }
}

/// The ratio `a * b / c`, rounded towards zero, over the natural numbers.
pub open spec fn mul_div(a: nat, b: nat, c: nat) -> nat
    recommends
        c != 0,
{
    (a * b) / c
}

/// Ten to the power `decimals`.
pub open spec fn pow10(decimals: nat) -> nat {
    pow(10, decimals) as nat
}

/// The product of two numbers written in halves to the radix `r`.
proof fn lemma_product_of_halves(a0: int, a1: int, b0: int, b1: int, r: int)
    ensures
        (a1 * r + a0) * (b1 * r + b0) == (a1 * b1) * (r * r) + (a0 * b1) * r + (a1 * b0) * r + a0
            * b0,
{
    let x: int = a1 * r + a0;
    assert(x * (b1 * r + b0) == x * (b1 * r) + x * b0) by (nonlinear_arith);
    assert(x * b0 == (a1 * b0) * r + a0 * b0) by (nonlinear_arith)
        requires
            x == a1 * r + a0,
    ;
    assert(x * (b1 * r) == (a1 * b1) * (r * r) + (a0 * b1) * r) by (nonlinear_arith)
        requires
            x == a1 * r + a0,
    ;
}

/// A product of two numbers up to `m` is at most `m * m`.
proof fn lemma_product_bound(a: int, b: int, m: int)
    by (nonlinear_arith)
    requires
        0 <= a <= m,
        0 <= b <= m,
    ensures
        a * b <= m * m,
{
}

/// The product of two 64-bit halves fits in 128 bits.
proof fn lemma_half_product_bound(x: int, y: int)
    by (nonlinear_arith)
    requires
        0 <= x < 0x1_0000_0000_0000_0000,
        0 <= y < 0x1_0000_0000_0000_0000,
    ensures
        0 <= x * y <= 0xffff_ffff_ffff_fffe_0000_0000_0000_0001,
{
}

/// The values of the powers of two that the division needs.
proof fn lemma_pow2_128()
    ensures
        pow2(64) == 0x1_0000_0000_0000_0000,
        pow2(127) == 0x8000_0000_0000_0000_0000_0000_0000_0000,
        pow2(128) == 0x1_0000_0000_0000_0000_0000_0000_0000_0000nat,
{
    lemma2_to64();
    lemma_pow2_adds(64, 63);
    lemma_pow2_unfold(64);
    lemma_pow2_unfold(128);
}

/// One step of binary long division: the doubled remainder plus the next
/// dividend bit is reduced below the divisor again.
proof fn lemma_division_step(
    n: int,
    q: int,
    r: int,
    d: int,
    p: int,
    l: int,
    bit: int,
    qb: int,
    half: int,
)
    by (nonlinear_arith)
    requires
        n == (q * d + r) * p + l,
        p == 2 * half,
    ensures
        n == ((2 * q + qb) * d + (2 * r + bit - qb * d)) * half + (l - bit * half),
{
}

/// Testing the top bit of the shifted rest is testing the next bit of
/// the dividend, and shifting the rest left keeps it the scaled rest.
proof fn lemma_top_bit_test(rest: int, l: int, s: int, half: int, top: int)
    by (nonlinear_arith)
    requires
        rest == l * s,
        top == half * s,
        s > 0,
        half >= 1,
    ensures
        (rest >= top) <==> (l >= half),
        (rest - top) * 2 == (l - half) * (2 * s),
        rest * 2 == l * (2 * s),
        s <= top,
{
}

/// Dividing the upper word first and its remainder with the lower word
/// next divides the whole.
proof fn lemma_quotient_of_parts(n: int, hi: int, lo: int, qh: int, rh: int, ql: int, rl: int, d: int, w: int)
    by (nonlinear_arith)
    requires
        n == hi * w + lo,
        hi == qh * d + rh,
        rh * w + lo == ql * d + rl,
    ensures
        n == (qh * w + ql) * d + rl,
{
}

impl U256 {
    /// Widens a 128-bit value.
    pub fn from_u128(value: u128) -> (r: U256)
        ensures
            r@ == value,
            r.hi == 0,
            r.lo == value,
    {
        U256 { hi: 0, lo: value }
    }

    /// The full 256-bit product of two 128-bit values.
    pub fn mul_u128(a: u128, b: u128) -> (r: U256)
        ensures
            r@ == (a as nat) * (b as nat),
    {
        let a0: u128 = a % RADIX_64;
        let a1: u128 = a / RADIX_64;
        let b0: u128 = b % RADIX_64;
        let b1: u128 = b / RADIX_64;
        proof {
            lemma_half_product_bound(a0 as int, b0 as int);
            lemma_half_product_bound(a0 as int, b1 as int);
            lemma_half_product_bound(a1 as int, b0 as int);
            lemma_half_product_bound(a1 as int, b1 as int);
            lemma_product_of_halves(a0 as int, a1 as int, b0 as int, b1 as int, RADIX_64 as int);
            lemma_product_bound(a as int, b as int, u128::MAX as int);
            assert((a as int) * (b as int) == (a as nat) * (b as nat)) by (nonlinear_arith);
        }
        let p00: u128 = a0 * b0;
        let p01: u128 = a0 * b1;
        let p10: u128 = a1 * b0;
        let p11: u128 = a1 * b1;
        // Middle terms, split so that nothing exceeds 128 bits.
        let mid: u128 = p01 % RADIX_64 + p10 % RADIX_64;
        let mid_lo: u128 = (mid % RADIX_64) * RADIX_64;
        let carry_mid: u128 = mid / RADIX_64;
        let carry_lo: u128 = if mid_lo > u128::MAX - p00 {
            1
        } else {
            0
        };
        let lo: u128 = if mid_lo > u128::MAX - p00 {
            mid_lo - (u128::MAX - p00) - 1
        } else {
            mid_lo + p00
        };
        let hi: u128 = p11 + p01 / RADIX_64 + p10 / RADIX_64 + carry_mid + carry_lo;
        U256 { hi, lo }
    }

    /// The quotient of a 256-bit value by a non-zero 128-bit divisor.
    pub fn div_u128(&self, divisor: u128) -> (r: U256)
        requires
            divisor != 0,
        ensures
            r@ == self@ / (divisor as nat),
    {
        let q_hi: u128 = self.hi / divisor;
        let r_hi: u128 = self.hi % divisor;
        let (q_lo, r_lo) = long_division(r_hi, self.lo, divisor);
        proof {
            let w: int = radix_128() as int;
            lemma_fundamental_div_mod(self.hi as int, divisor as int);
            lemma_mul_is_commutative(divisor as int, (self.hi as int) / (divisor as int));
            lemma_quotient_of_parts(
                self@ as int,
                self.hi as int,
                self.lo as int,
                q_hi as int,
                r_hi as int,
                q_lo as int,
                r_lo as int,
                divisor as int,
                w,
            );
            lemma_fundamental_div_mod_converse(
                self@ as int,
                divisor as int,
                q_hi as int * w + q_lo as int,
                r_lo as int,
            );
        }
        U256 { hi: q_hi, lo: q_lo }
    }

    /// Narrows to 128 bits when the value fits.
    pub fn as_u128(&self) -> (r: Option<u128>)
        ensures
            r == if self@ <= u128::MAX {
                Some(self@ as u128)
            } else {
                None
            },
    {
        if self.hi == 0 {
            Some(self.lo)
        } else {
            None
        }
    }
}

/// Divides `rem * 2^128 + lo` by `divisor`, given `rem < divisor`, one bit at
/// a time. Returns the quotient, which then fits in 128 bits, and the
/// remainder.
fn long_division(rem: u128, lo: u128, divisor: u128) -> (r: (u128, u128))
    requires
        rem < divisor,
    ensures
        (rem as int) * (radix_128() as int) + (lo as int) == (r.0 as int) * (divisor as int) + (
        r.1 as int),
        r.1 < divisor,
{
    let mut q: u128 = 0;
    let mut r: u128 = rem;
    let mut rest: u128 = lo;
    let mut i: u32 = 0;
    let ghost n: int = (rem as int) * (radix_128() as int) + (lo as int);
    let ghost mut l: int = lo as int;
    proof {
        lemma_pow2_128();
        lemma2_to64();
    }
    while i < 128
        invariant
            i <= 128,
            0 < divisor,
            r < divisor,
            0 <= l < pow2((128 - i) as nat),
            rest as int == l * pow2(i as nat),
            q < pow2(i as nat),
            n == ((q as int) * (divisor as int) + (r as int)) * pow2((128 - i) as nat) + l,
        decreases 128 - i,
    {
        let ghost p: int = pow2((128 - i) as nat) as int;
        let ghost half: int = pow2((127 - i) as nat) as int;
        let ghost s: int = pow2(i as nat) as int;
        proof {
            lemma_pow2_128();
            lemma_pow2_unfold((128 - i) as nat);
            lemma_pow2_unfold((i + 1) as nat);
            lemma_pow2_adds((127 - i) as nat, i as nat);
            lemma_pow2_pos(i as nat);
            lemma_pow2_pos((127 - i) as nat);
            lemma_top_bit_test(rest as int, l, s, half, TOP_BIT as int);
        }
        let top: bool = rest >= TOP_BIT;
        let ghost bit: int = if top {
            1
        } else {
            0
        };
        let bit_word: u128 = if top {
            1
        } else {
            0
        };
        rest = if top {
            (rest - TOP_BIT) * 2
        } else {
            rest * 2
        };
        // The doubled remainder may need 129 bits; `r >= TOP_BIT` tells when.
        let ghost r_before: int = r as int;
        let ghost q_before: int = q as int;
        let take: bool;
        if r >= TOP_BIT {
            // 2r + bit >= 2^128 > divisor, and 2r + bit - divisor < divisor.
            let low: u128 = (r - TOP_BIT) * 2 + bit_word;
            r = low + (u128::MAX - divisor) + 1;
            take = true;
        } else {
            let doubled: u128 = r * 2 + bit_word;
            if doubled >= divisor {
                r = doubled - divisor;
                take = true;
            } else {
                r = doubled;
                take = false;
            }
        }
        let ghost qb: int = if take {
            1
        } else {
            0
        };
        q = if take {
            q * 2 + 1
        } else {
            q * 2
        };
        proof {
            lemma_division_step(n, q_before, r_before, divisor as int, p, l, bit, qb, half);
            l = l - bit * half;
        }
        i = i + 1;
    }
    proof {
        lemma2_to64();
        let unit: int = pow2(0) as int;
        assert(n == (q as int) * (divisor as int) + (r as int)) by (nonlinear_arith)
            requires
                n == ((q as int) * (divisor as int) + (r as int)) * unit + l,
                unit == 1,
                l == 0,
        ;
    }
    (q, r)
}

/// Computes `a * b / c` through a 256-bit intermediate product.
///
/// Returns `None` when `c` is zero or when the quotient does not fit in
/// 128 bits.
pub fn checked_mul_div(a: u128, b: u128, c: u128) -> (r: Option<u128>)
    ensures
        r == if c != 0 && mul_div(a as nat, b as nat, c as nat) <= u128::MAX {
            Some(mul_div(a as nat, b as nat, c as nat) as u128)
        } else {
            None
        },
{
    if c == 0 {
        return None;
    }
    let product: U256 = U256::mul_u128(a, b);
    product.div_u128(c).as_u128()
}

/// Computes ten to the power `decimals` when it fits in 128 bits, which is
/// the case up to an exponent of 38.
pub fn checked_pow10(decimals: u8) -> (r: Option<u128>)
    ensures
        r == if pow10(decimals as nat) <= u128::MAX {
            Some(pow10(decimals as nat) as u128)
        } else {
            None
        },
        r.is_some() <==> decimals <= 38,
{
    if decimals > 38 {
        proof {
            lemma_power_of_ten_38();
            lemma_pow1(10);
            lemma_pow_adds(10, 38, 1);
            if decimals > 39 {
                lemma_pow_strictly_increases(10, 39, decimals as nat);
            }
        }
        return None;
    }
    let mut acc: u128 = 1;
    let mut i: u8 = 0;
    proof {
        lemma_pow0(10);
    }
    while i < decimals
        invariant
            i <= decimals <= 38,
            acc as int == pow(10, i as nat),
        decreases decimals - i,
    {
        proof {
            lemma_pow1(10);
            lemma_pow_adds(10, i as nat, 1);
            lemma_power_of_ten_38();
            if i < 37 {
                lemma_pow_strictly_increases(10, i as nat, 37);
            }
        }
        acc = acc * 10;
        i = i + 1;
    }
    proof {
        lemma_power_of_ten_38();
        if decimals < 38 {
            lemma_pow_strictly_increases(10, decimals as nat, 38);
        }
    }
    Some(acc)
}

/// The exact values of the two largest powers of ten that matter here.
proof fn lemma_power_of_ten_38()
    ensures
        pow(10, 37) == 10000000000000000000000000000000000000,
        pow(10, 38) == 100000000000000000000000000000000000000,
{
    lemma_pow1(10);
    lemma_pow_adds(10, 1, 1);
    assert(pow(10, 2) == 100);
    lemma_pow_adds(10, 2, 2);
    assert(pow(10, 4) == 10000);
    lemma_pow_adds(10, 4, 4);
    assert(pow(10, 8) == 100000000);
    lemma_pow_adds(10, 8, 8);
    assert(pow(10, 16) == 10000000000000000);
    lemma_pow_adds(10, 16, 16);
    assert(pow(10, 32) == 100000000000000000000000000000000);
    lemma_pow_adds(10, 32, 4);
    assert(pow(10, 36) == 1000000000000000000000000000000000000);
    lemma_pow_adds(10, 36, 1);
    assert(pow(10, 37) == 10000000000000000000000000000000000000);
    lemma_pow_adds(10, 37, 1);
}

} // verus!
