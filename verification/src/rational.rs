//! Time bases and timestamp rescaling.
//!
//! A `Rational` is a `(num, den)` pair standing for the duration of one
//! timestamp tick in seconds. Rescaling a timestamp from one time base
//! to another multiplies by the source base and divides by the target
//! base, rounding toward zero.

use vstd::prelude::*;

verus! {

/// A positive rational time base: one tick lasts `num / den` seconds.
#[derive(Clone, Copy, Debug, PartialEq, Eq, Structural)]
pub struct Rational {
    pub num: i32,
    pub den: i32,
}

impl Rational {
    /// Both parts are positive, so every rescale divides by a positive
    /// quantity.
    pub open spec fn wf(self) -> bool {
        self.num > 0 && self.den > 0
    }

    pub fn new(num: i32, den: i32) -> (r: Rational)
        requires
            num > 0,
            den > 0,
        ensures
            r.num == num,
            r.den == den,
            r.wf(),
    {
        Rational { num, den }
    }

    /// The milliseconds time base: one tick is a millisecond.
    pub fn millis() -> (r: Rational)
        ensures
            r.num == 1,
            r.den == 1000,
            r.wf(),
    {
        Rational { num: 1, den: 1000 }
    }

    /// The codec backend's internal reference time base of one
    /// microsecond per tick; seek targets are rescaled into it.
    pub fn backend_ref() -> (r: Rational)
        ensures
            r.num == 1,
            r.den == 1000000,
            r.wf(),
    {
        Rational { num: 1, den: 1000000 }
    }
}

/// Integer division truncating toward zero, for a positive divisor.
pub open spec fn div_trunc(a: int, b: int) -> int
    recommends
        b > 0,
{
    if a >= 0 {
        a / b
    } else {
        -((-a) / b)
    }
}

/// The value of timestamp `a` of time base `src` in time base `dst`,
/// rounded toward zero: `a * src.num * dst.den / (src.den * dst.num)`.
pub open spec fn spec_rescale(a: int, src: Rational, dst: Rational) -> int
    recommends
        src.wf(),
        dst.wf(),
{
    div_trunc(a * src.num * dst.den, src.den * dst.num)
}

proof fn lemma_prod_bounds(a: int, n: int, d: int) by (nonlinear_arith)
    requires
        -0x8000000000000000 <= a <= 0x7fffffffffffffff,
        0 < n <= 0x7fffffff,
        0 < d <= 0x7fffffff,
    ensures
        -0x40000000000000000000000000 <= a * n <= 0x40000000000000000000000000,
        -0x20000000000000000000000000000000 <= (a * n) * d
            <= 0x20000000000000000000000000000000,
{
}

proof fn lemma_divisor_bounds(sd: int, dn: int) by (nonlinear_arith)
    requires
        0 < sd <= 0x7fffffff,
        0 < dn <= 0x7fffffff,
    ensures
        0 < sd * dn <= 0x4000000000000000,
{
}

proof fn lemma_div_le(m: int, d: int) by (nonlinear_arith)
    requires
        0 <= m,
        1 <= d,
    ensures
        0 <= m / d <= m,
{
}

/// Rescales timestamp `a` from time base `src` to time base `dst`,
/// rounding toward zero. `None` when the result does not fit an `i64`.
pub fn rescale(a: i64, src: Rational, dst: Rational) -> (r: Option<i64>)
    requires
        src.wf(),
        dst.wf(),
    ensures
        match r {
            Some(v) => v == spec_rescale(a as int, src, dst),
            None => !(i64::MIN <= spec_rescale(a as int, src, dst) <= i64::MAX),
        },
{
    proof {
        lemma_prod_bounds(a as int, src.num as int, dst.den as int);
        lemma_divisor_bounds(src.den as int, dst.num as int);
    }
    let prod: i128 = (a as i128) * (src.num as i128) * (dst.den as i128);
    let divl: i128 = (src.den as i128) * (dst.num as i128);
    let neg: bool = prod < 0;
    let mag: u128 = if neg {
        (-prod) as u128
    } else {
        prod as u128
    };
    let divu: u128 = divl as u128;
    let q: u128 = mag / divu;
    proof {
        lemma_div_le(mag as int, divu as int);
        assert(q == div_trunc(mag as int, divu as int));
        assert(div_trunc(prod as int, divl as int) == if neg {
            -(q as int)
        } else {
            q as int
        });
    }
    if neg {
        if q <= 0x7fffffffffffffffu128 {
            Some(-(q as i64))
        } else if q == 0x8000000000000000u128 {
            Some(i64::MIN)
        } else {
            None
        }
    } else {
        if q <= 0x7fffffffffffffffu128 {
            Some(q as i64)
        } else {
            None
        }
    }
}

} // verus!
