use vstd::prelude::*;
use vstd::arithmetic::power2::*;

use crate::error::Error;

verus! {

/// One unit in the crate's fixed-point representation (2^48).
pub const SCALE: u128 = 0x1_0000_0000_0000;

/// 2^64, the radix of the limbs used by the wide multiplication.
const LIMB: u128 = 0x1_0000_0000_0000_0000;

/// 2^127, the top bit of a `u128`.
const TOP_BIT: u128 = 0x8000_0000_0000_0000_0000_0000_0000_0000;

/// 2^48 as a mathematical integer.
pub open spec fn scale() -> int {
    0x1_0000_0000_0000
}

/// 2^128 as a mathematical integer.
pub open spec fn two_pow_128() -> int {
    0x1_0000_0000_0000_0000_0000_0000_0000_0000int
}

/// `x / d`, rounded up when `round_up` is set and the division is inexact.
pub open spec fn div_round(x: int, d: int, round_up: bool) -> int {
    x / d + if round_up && x % d != 0 { 1int } else { 0int }
}

/// The exact value of `a * b / c` with the requested rounding.
pub open spec fn mul_div_spec(a: int, b: int, c: int, round_up: bool) -> int {
    div_round(a * b, c, round_up)
}

/// `a * b / 2^48`, floored.
pub open spec fn mul_scale_spec(a: int, b: int) -> int {
    (a * b) / scale()
}

/// `a * 2^48 / b`, floored.
pub open spec fn div_scale_spec(a: int, b: int) -> int {
    (a * scale()) / b
}

/// `x / 2^48`, rounded up.
pub open spec fn ceil_scaled(x: int) -> int {
    div_round(x, scale(), true)
}

/// Outcome of [`mul_div`] on the given operands.
pub open spec fn mul_div_result(a: int, b: int, c: int, round_up: bool) -> Result<u128, Error> {
    if c != 0 && mul_div_spec(a, b, c, round_up) <= u128::MAX {
        Ok(mul_div_spec(a, b, c, round_up) as u128)
    } else {
        Err(Error::ArithmeticOverflow)
    }
}

/// Outcome of [`mul_scale`] on the given operands.
pub open spec fn mul_scale_result(a: int, b: int) -> Result<u128, Error> {
    mul_div_result(a, b, scale(), false)
}

/// Outcome of [`div_scale`] on the given operands.
pub open spec fn div_scale_result(a: int, b: int) -> Result<u128, Error> {
    mul_div_result(a, scale(), b, false)
}

proof fn lemma_pow2_128()
    ensures
        pow2(128) == two_pow_128(),
        pow2(127) == TOP_BIT,
{
    lemma2_to64();
    lemma_pow2_adds(64, 64);
    lemma_pow2_unfold(128);
}

pub proof fn lemma_div_at_least(x: int, c: int, k: int)
    requires
        c > 0,
        k >= 0,
        x >= c * k,
    ensures
        x / c >= k,
{
    vstd::arithmetic::div_mod::lemma_fundamental_div_mod(x, c);
    assert(x / c >= k) by (nonlinear_arith)
        requires
            c > 0,
            x >= c * k,
            x == c * (x / c) + x % c,
            0 <= x % c < c,
    ;
}

proof fn lemma_div_below(x: int, d: int, k: int)
    requires
        d > 0,
        0 <= x < d * k,
    ensures
        x / d < k,
{
    vstd::arithmetic::div_mod::lemma_fundamental_div_mod(x, d);
    assert(x / d < k) by (nonlinear_arith)
        requires
            d > 0,
            x < d * k,
            x == d * (x / d) + x % d,
            0 <= x % d < d,
    ;
}

proof fn lemma_div_round_bound(x: int, d: int, round_up: bool)
    requires
        d > 0,
        x >= 0,
    ensures
        div_round(x, d, round_up) >= x / d,
        div_round(x, d, round_up) <= x / d + 1,
        x / d >= 0,
{
    vstd::arithmetic::div_mod::lemma_div_pos_is_pos(x, d);
}

/// Full 256-bit product of two `u128` values, returned as `(high, low)` halves.
fn mul_wide(a: u128, b: u128) -> (res: (u128, u128))
    ensures
        res.0 * two_pow_128() + res.1 == a * b,
{
    let a1 = a / LIMB;
    let a0 = a % LIMB;
    let b1 = b / LIMB;
    let b0 = b % LIMB;
    assert(a1 < LIMB && b1 < LIMB) by {
        assert(a < LIMB * LIMB);
        lemma_div_below(a as int, LIMB as int, LIMB as int);
        lemma_div_below(b as int, LIMB as int, LIMB as int);
    }
    assert(a0 * b0 < LIMB * LIMB && a0 * b1 < LIMB * LIMB && a1 * b0 < LIMB * LIMB
        && a1 * b1 < LIMB * LIMB) by (nonlinear_arith)
        requires
            a0 < LIMB,
            b0 < LIMB,
            a1 < LIMB,
            b1 < LIMB,
    ;
    let x00: u128 = a0 * b0;
    let x01: u128 = a0 * b1;
    let x10: u128 = a1 * b0;
    let x11: u128 = a1 * b1;
    let h00 = x00 / LIMB;
    let l00 = x00 % LIMB;
    let h01 = x01 / LIMB;
    let l01 = x01 % LIMB;
    let h10 = x10 / LIMB;
    let l10 = x10 % LIMB;
    assert(h00 < LIMB && h01 < LIMB && h10 < LIMB) by {
        lemma_div_below(x00 as int, LIMB as int, LIMB as int);
        lemma_div_below(x01 as int, LIMB as int, LIMB as int);
        lemma_div_below(x10 as int, LIMB as int, LIMB as int);
    }
    let t: u128 = h00 + l01 + l10;
    let th = t / LIMB;
    let tl = t % LIMB;
    assert(th < 4);
    let lo: u128 = l00 + tl * LIMB;
    proof {
        assert(x00 == h00 * LIMB + l00);
        assert(x01 == h01 * LIMB + l01);
        assert(x10 == h10 * LIMB + l10);
        assert(t == th * LIMB + tl);
        assert(a == a1 * LIMB + a0);
        assert(b == b1 * LIMB + b0);
        assert(a * b == x11 * (LIMB * LIMB) + (h01 + h10 + th) * (LIMB * LIMB) + lo) by (
        nonlinear_arith)
            requires
                a == a1 * LIMB + a0,
                b == b1 * LIMB + b0,
                x00 == a0 * b0,
                x01 == a0 * b1,
                x10 == a1 * b0,
                x11 == a1 * b1,
                x00 == h00 * LIMB + l00,
                x01 == h01 * LIMB + l01,
                x10 == h10 * LIMB + l10,
                t == h00 + l01 + l10,
                t == th * LIMB + tl,
                lo == l00 + tl * LIMB,
        ;
        assert(LIMB * LIMB == two_pow_128());
        assert(a * b < two_pow_128() * two_pow_128()) by (nonlinear_arith)
            requires
                a < two_pow_128(),
                b < two_pow_128(),
        ;
        assert(x11 + h01 + h10 + th < two_pow_128()) by (nonlinear_arith)
            requires
                a * b == (x11 + h01 + h10 + th) * two_pow_128() + lo,
                lo >= 0,
                a * b < two_pow_128() * two_pow_128(),
        ;
    }
    let hi: u128 = x11 + h01 + h10 + th;
    (hi, lo)
}

/// Divides the 256-bit value `hi * 2^128 + lo` by `c`, given `hi < c`, by
/// binary long division. Returns the quotient and the remainder.
fn div_wide(hi: u128, lo: u128, c: u128) -> (res: (u128, u128))
    requires
        hi < c,
    ensures
        res.0 == (hi * two_pow_128() + lo) / (c as int),
        res.1 == (hi * two_pow_128() + lo) % (c as int),
{
    proof {
        lemma_pow2_128();
        lemma_pow2_pos(0);
        lemma2_to64();
    }
    let mut q: u128 = 0;
    let mut r: u128 = hi;
    let mut low: u128 = lo;
    let mut half: u128 = TOP_BIT;
    let mut i: u32 = 0;
    let ghost mut pre: int = 0;
    while i < 128
        invariant
            0 <= i <= 128,
            hi < c,
            r < c,
            pre >= 0,
            q < pow2(i as nat),
            lo == pre * pow2((128 - i) as nat) + low,
            low < pow2((128 - i) as nat),
            i < 128 ==> half == pow2((127 - i) as nat),
            hi * pow2(i as nat) + pre == q * c + r,
            pow2(128) == two_pow_128(),
            pow2(127) == TOP_BIT,
            pow2(0) == 1,
        decreases 128 - i,
    {
        let ghost w: int = pow2((128 - i) as nat) as int;
        let ghost pi: int = pow2(i as nat) as int;
        proof {
            lemma_pow2_unfold((128 - i) as nat);
            lemma_pow2_unfold((i + 1) as nat);
            assert(w == 2 * half);
            assert(pow2((i + 1) as nat) == 2 * pi);
            if i > 0 {
                lemma_pow2_strictly_increases((127 - i) as nat, 127);
            }
            if i < 127 {
                lemma_pow2_strictly_increases(i as nat, 127);
            }
            assert(half <= TOP_BIT);
            assert(pi <= TOP_BIT);
        }
        let b: u128 = if low >= half { 1 } else { 0 };
        let ghost old_low = low;
        let ghost old_pre = pre;
        let ghost old_q = q;
        let ghost old_r = r;
        if b == 1 {
            low = low - half;
        }
        proof {
            pre = 2 * pre + b;
            assert(lo == pre * half + low) by (nonlinear_arith)
                requires
                    lo == old_pre * w + old_low,
                    w == 2 * half,
                    pre == 2 * old_pre + b,
                    low == old_low - b * half,
            ;
            assert(hi * pow2((i + 1) as nat) + pre == 2 * (q * c + r) + b) by (nonlinear_arith)
                requires
                    pow2((i + 1) as nat) == 2 * pi,
                    hi * pi + old_pre == q * c + r,
                    pre == 2 * old_pre + b,
            ;
        }
        let d: u128 = c - r;
        if r + b >= d {
            q = 2 * q + 1;
            r = r + b - d;
            proof {
                assert(hi * pow2((i + 1) as nat) + pre == q * c + r) by (nonlinear_arith)
                    requires
                        hi * pow2((i + 1) as nat) + pre == 2 * (old_q * c + old_r) + b,
                        q == 2 * old_q + 1,
                        r == old_r + b - (c - old_r),
                ;
            }
        } else {
            q = 2 * q;
            r = 2 * r + b;
            proof {
                assert(hi * pow2((i + 1) as nat) + pre == q * c + r) by (nonlinear_arith)
                    requires
                        hi * pow2((i + 1) as nat) + pre == 2 * (old_q * c + old_r) + b,
                        q == 2 * old_q,
                        r == 2 * old_r + b,
                ;
            }
        }
        half = half / 2;
        i = i + 1;
        proof {
            if i < 128 {
                lemma_pow2_unfold((128 - i) as nat);
            }
            assert(pow2((128 - i) as nat) == half * 2 || i == 128);
            if i == 128 {
                assert(pow2(0) == 1);
            }
        }
    }
    proof {
        assert(pow2(0) == 1);
        assert(i == 128);
        assert(((128 - i) as nat) == 0nat);
        assert(lo == pre * pow2(0) + low);
        assert(low == 0);
        assert(pre == lo);
        vstd::arithmetic::div_mod::lemma_fundamental_div_mod_converse(
            hi * two_pow_128() + lo,
            c as int,
            q as int,
            r as int,
        );
    }
    (q, r)
}

/// `a * b / c` computed without intermediate overflow, rounded up when
/// `round_up` is set and the division leaves a remainder. Fails with
/// `ArithmeticOverflow` when `c` is zero or the result does not fit a `u128`.
pub fn mul_div(a: u128, b: u128, c: u128, round_up: bool) -> (res: Result<u128, Error>)
    ensures
        res is Ok <==> (c != 0 && mul_div_spec(a as int, b as int, c as int, round_up)
            <= u128::MAX),
        res matches Ok(v) ==> v == mul_div_spec(a as int, b as int, c as int, round_up),
        res matches Err(e) ==> e == Error::ArithmeticOverflow,
        res == mul_div_result(a as int, b as int, c as int, round_up),
{
    if c == 0 {
        return Err(Error::ArithmeticOverflow);
    }
    proof {
        lemma_div_round_bound(a * b, c as int, round_up);
        vstd::arithmetic::div_mod::lemma_mod_pos_bound(a * b, c as int);
        assert(a * b >= 0) by (nonlinear_arith)
            requires
                a >= 0,
                b >= 0,
        ;
    }
    let (q, r) = match a.checked_mul(b) {
        Some(p) => (p / c, p % c),
        None => {
            let (hi, lo) = mul_wide(a, b);
            if hi >= c {
                proof {
                    assert(a * b >= c * two_pow_128()) by (nonlinear_arith)
                        requires
                            a * b == hi * two_pow_128() + lo,
                            hi >= c,
                            lo >= 0,
                    ;
                    lemma_div_at_least(a * b, c as int, two_pow_128());
                }
                return Err(Error::ArithmeticOverflow);
            }
            div_wide(hi, lo, c)
        },
    };
    if round_up && r != 0 {
        match q.checked_add(1) {
            Some(v) => Ok(v),
            None => Err(Error::ArithmeticOverflow),
        }
    } else {
        Ok(q)
    }
}

/// `a * b / c` on `u64` operands, with a `u128` intermediate. Fails with
/// `ArithmeticOverflow` when `c` is zero or the result does not fit a `u64`.
pub fn mul_div_u64(a: u64, b: u64, c: u64, round_up: bool) -> (res: Result<u64, Error>)
    ensures
        res is Ok <==> (c != 0 && mul_div_spec(a as int, b as int, c as int, round_up)
            <= u64::MAX),
        res matches Ok(v) ==> v == mul_div_spec(a as int, b as int, c as int, round_up),
        res matches Err(e) ==> e == Error::ArithmeticOverflow,
{
    if c == 0 {
        return Err(Error::ArithmeticOverflow);
    }
    assert((a as u128) * (b as u128) <= u128::MAX) by (nonlinear_arith)
        requires
            a <= u64::MAX,
            b <= u64::MAX,
    ;
    let p: u128 = (a as u128) * (b as u128);
    let q: u128 = p / (c as u128);
    let r: u128 = p % (c as u128);
    proof {
        assert(p < (c as int) * (u128::MAX as int)) by (nonlinear_arith)
            requires
                p == a * b,
                a <= u64::MAX,
                b <= u64::MAX,
                c >= 1,
        ;
        lemma_div_below(p as int, c as int, u128::MAX as int);
    }
    let v: u128 = if round_up && r != 0 {
        q + 1
    } else {
        q
    };
    proof {
        lemma_div_round_bound(p as int, c as int, round_up);
    }
    if v > u64::MAX as u128 {
        Err(Error::ArithmeticOverflow)
    } else {
        Ok(v as u64)
    }
}

/// `a * b / 2^48`, floored: the product of two fixed-point values.
pub fn mul_scale(a: u128, b: u128) -> (res: Result<u128, Error>)
    ensures
        res is Ok <==> mul_scale_spec(a as int, b as int) <= u128::MAX,
        res matches Ok(v) ==> v == mul_scale_spec(a as int, b as int),
        res matches Err(e) ==> e == Error::ArithmeticOverflow,
        res == mul_scale_result(a as int, b as int),
{
    mul_div(a, b, SCALE, false)
}

/// `a * 2^48 / b`, floored: the quotient of two fixed-point values. Fails
/// when `b` is zero or the result does not fit a `u128`.
pub fn div_scale(a: u128, b: u128) -> (res: Result<u128, Error>)
    ensures
        res is Ok <==> (b != 0 && div_scale_spec(a as int, b as int) <= u128::MAX),
        res matches Ok(v) ==> v == div_scale_spec(a as int, b as int),
        res matches Err(e) ==> e == Error::ArithmeticOverflow,
        res == div_scale_result(a as int, b as int),
{
    mul_div(a, SCALE, b, false)
}

/// Lifts an integer amount into fixed point (`x * 2^48`).
pub fn to_scaled(x: u128) -> (res: Result<u128, Error>)
    ensures
        res is Ok <==> x * scale() <= u128::MAX,
        res matches Ok(v) ==> v == x * scale(),
        res matches Err(e) ==> e == Error::ArithmeticOverflow,
{
    match x.checked_mul(SCALE) {
        Some(v) => Ok(v),
        None => Err(Error::ArithmeticOverflow),
    }
}

/// Truncates a fixed-point value to its integer part.
pub fn from_scaled_floor(x: u128) -> (res: u128)
    ensures
        res == (x as int) / scale(),
{
    x / SCALE
}

/// Rounds a fixed-point value up to the next integer.
pub fn from_scaled_ceil(x: u128) -> (res: Result<u128, Error>)
    ensures
        res matches Ok(v) && v == ceil_scaled(x as int),
{
    let q = x / SCALE;
    if x % SCALE != 0 {
        Ok(q + 1)
    } else {
        Ok(q)
    }
}

} // verus!
