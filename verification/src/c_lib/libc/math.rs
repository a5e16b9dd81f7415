//! The libc-like arithmetic helpers.

use vstd::prelude::*;

verus! {

/// Result of a division of 32-bit integers.
#[derive(Debug, Clone, Copy, PartialEq, Eq, Structural)]
pub struct DivT {
    /// Quotient
    pub quot: i32,
    /// Remainder
    pub rem: i32,
}

/// Result of a division of 64-bit integers.
#[derive(Debug, Clone, Copy, PartialEq, Eq, Structural)]
pub struct LDivT {
    /// Quotient
    pub quot: i64,
    /// Remainder
    pub rem: i64,
}

/// The quotient of a division that rounds toward zero.
pub open spec fn trunc_div(num: int, denom: int) -> int {
    if num >= 0 {
        num / denom
    } else {
        -((-num) / denom)
    }
}

/// The remainder of a division that rounds toward zero: it has the sign of
/// the dividend.
pub open spec fn trunc_rem(num: int, denom: int) -> int {
    if num >= 0 {
        num % denom
    } else {
        -((-num) % denom)
    }
}

/// Quotient and remainder of a division that rounds toward zero make up the
/// dividend, and the remainder is smaller in magnitude than the divisor.
pub proof fn lemma_trunc_div_rem(num: int, denom: int)
    requires
        denom != 0,
    ensures
        num == trunc_div(num, denom) * denom + trunc_rem(num, denom),
        if denom < 0 {
            denom < trunc_rem(num, denom) < -denom
        } else {
            -denom < trunc_rem(num, denom) < denom
        },
        trunc_rem(num, denom) == 0 || (trunc_rem(num, denom) < 0 <==> num < 0),
        if num >= 0 {
            -num <= trunc_div(num, denom) <= num
        } else {
            num <= trunc_div(num, denom) <= -num
        },
{
    let m = if num >= 0 {
        num
    } else {
        -num
    };
    vstd::arithmetic::div_mod::lemma_fundamental_div_mod(m, denom);
    let q = m / denom;
    let r = m % denom;
    assert(m == denom * q + r);
    assert(0 <= r);
    if denom > 0 {
        assert(r < denom) by {
            vstd::arithmetic::div_mod::lemma_mod_bound(m, denom);
        }
    } else {
        assert(r < -denom) by (nonlinear_arith)
            requires
                r == m % denom,
                denom < 0,
        ;
    }
    assert(-m <= q <= m) by (nonlinear_arith)
        requires
            m == denom * q + r,
            0 <= m,
            0 <= r,
            denom != 0,
            denom > 0 ==> r < denom,
            denom < 0 ==> r < -denom,
    ;
    assert(trunc_div(num, denom) * denom + trunc_rem(num, denom) == num) by (nonlinear_arith)
        requires
            m == denom * q + r,
            num >= 0 ==> m == num && trunc_div(num, denom) == q && trunc_rem(num, denom) == r,
            num < 0 ==> m == -num && trunc_div(num, denom) == -q && trunc_rem(num, denom) == -r,
    ;
}

/// Absolute value of `x`. The least `i32` has none.
pub fn abs(x: i32) -> (r: i32)
    requires
        x != i32::MIN,
    ensures
        r >= 0,
        r == x || r == -x,
{
    if x < 0 {
        -x
    } else {
        x
    }
}

/// Absolute value of `x`. The least `i64` has none.
pub fn labs(x: i64) -> (r: i64)
    requires
        x != i64::MIN,
    ensures
        r >= 0,
        r == x || r == -x,
{
    if x < 0 {
        -x
    } else {
        x
    }
}

/// Quotient and remainder of a division that rounds toward zero. The divisor
/// must not be zero, and the least number cannot be divided by -1.
pub fn div(num: i32, denom: i32) -> (r: DivT)
    requires
        denom != 0,
        !(num == i32::MIN && denom == -1),
    ensures
        r.quot == trunc_div(num as int, denom as int),
        r.rem == trunc_rem(num as int, denom as int),
{
    proof {
        lemma_trunc_div_rem(num as int, denom as int);
    }
    DivT { quot: num / denom, rem: num % denom }
}

/// Quotient and remainder of a division that rounds toward zero. The divisor
/// must not be zero, and the least number cannot be divided by -1.
pub fn ldiv(num: i64, denom: i64) -> (r: LDivT)
    requires
        denom != 0,
        !(num == i64::MIN && denom == -1),
    ensures
        r.quot == trunc_div(num as int, denom as int),
        r.rem == trunc_rem(num as int, denom as int),
{
    proof {
        lemma_trunc_div_rem(num as int, denom as int);
    }
    LDivT { quot: num / denom, rem: num % denom }
}

/// The state of the linear congruential generator behind `rand`.
#[derive(Debug, Clone, Copy, PartialEq, Eq, Structural)]
pub struct Rng {
    pub next: u32,
}

/// The generator's state after one step.
pub open spec fn spec_step(next: u32) -> int {
    (next * 1103515245 + 12345) % 0x1_0000_0000
}

/// A generator whose seed is 1.
pub fn rng() -> (state: Rng)
    ensures
        state.next == 1,
{
    Rng { next: 1 }
}

/// Steps the generator and returns bits 16 to 30 of its new state. Not fit for
/// anything that safety rests on.
pub fn rand(state: &mut Rng) -> (r: i32)
    ensures
        final(state).next == spec_step(old(state).next),
        r == (final(state).next / 65536) % 32768,
        0 <= r < 32768,
{
    let product = state.next.wrapping_mul(1103515245);
    state.next = product.wrapping_add(12345);
    proof {
        let n = old(state).next as int;
        assert(((n * 1103515245) % 0x1_0000_0000 + 12345) % 0x1_0000_0000 == (n * 1103515245
            + 12345) % 0x1_0000_0000) by {
            vstd::arithmetic::div_mod::lemma_add_mod_noop(n * 1103515245, 12345, 0x1_0000_0000);
        }
    }
    ((state.next / 65536) % 32768) as i32
}

/// Sets the seed.
pub fn srand(state: &mut Rng, seed: u32)
    ensures
        final(state).next == seed,
{
    state.next = seed;
}

} // verus!
