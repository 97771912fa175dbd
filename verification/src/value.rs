//! Fixed-point measurements.
//!
//! A measurement is held as a whole number of millionths of its unit, so
//! that every comparison and every conversion is exact integer arithmetic.
//! A measurement that was never received, went stale or left its range is
//! unknown, and every comparison with an unknown measurement is false.

use vstd::prelude::*;

verus! {

/// Number of fixed-point steps in one unit.
pub const MICRO: i64 = 1_000_000;

/// A scalar measurement: a count of millionths of its unit, or unknown.
#[derive(Clone, Copy, Debug, PartialEq, Eq, Structural)]
pub enum Value {
    Unknown,
    Known(i64),
}

pub open spec fn fits_i64(x: int) -> bool {
    i64::MIN <= x <= i64::MAX
}

/// The measurement that a raw count stands for when one count is worth
/// `scale` millionths: unknown where that leaves the representable range.
pub open spec fn scaled(raw: int, scale: int) -> Value {
    if fits_i64(raw * scale) {
        Value::Known((raw * scale) as i64)
    } else {
        Value::Unknown
    }
}

/// `a / b` cut toward zero, for a non-zero divisor.
pub open spec fn quotient(a: int, b: int) -> int {
    if b > 0 {
        if a >= 0 {
            a / b
        } else {
            -((-a) / b)
        }
    } else {
        if a >= 0 {
            -(a / (-b))
        } else {
            (-a) / (-b)
        }
    }
}

/// `x` limited to the range from `lo` to `hi`.
pub open spec fn clamped(x: int, lo: int, hi: int) -> int {
    if x < lo {
        lo
    } else if x > hi {
        hi
    } else {
        x
    }
}

/// The point at `x` on the straight line through (`in_min`, `out_min`) and
/// (`in_max`, `out_max`), cut toward zero before `out_min` is added; not
/// limited to the segment between the two. Where the two inputs coincide
/// the result is `out_min`.
pub open spec fn interpolated(x: int, in_min: int, in_max: int, out_min: int, out_max: int) -> int {
    if in_min == in_max {
        out_min
    } else {
        quotient((x - in_min) * (out_max - out_min), in_max - in_min) + out_min
    }
}

/// A measurement multiplied by `numer / denom` and cut toward zero to a whole
/// number of units; zero for an unknown measurement.
pub open spec fn truncated(v: Value, numer: int, denom: int) -> int {
    match v {
        Value::Unknown => 0,
        Value::Known(m) => quotient(m * numer, denom * MICRO),
    }
}

/// `a / b` cut toward zero.
pub fn quotient_of(a: i128, b: i128) -> (q: i128)
    requires
        b != 0,
        a > i128::MIN,
        b > i128::MIN,
    ensures
        q == quotient(a as int, b as int),
{
    if b > 0 {
        a / b
    } else {
        -(a / (-b))
    }
}

/// The point at `x` on the line through (`in_min`, `out_min`) and (`in_max`,
/// `out_max`), limited to the range from `lo` to `hi`.
pub fn interpolate_clamped(
    x: i64,
    in_min: i32,
    in_max: i32,
    out_min: i32,
    out_max: i32,
    lo: i32,
    hi: i32,
) -> (r: i64)
    requires
        lo <= hi,
    ensures
        r == clamped(
            interpolated(x as int, in_min as int, in_max as int, out_min as int, out_max as int),
            lo as int,
            hi as int,
        ),
{
    let raw: i128 = if in_min == in_max {
        out_min as i128
    } else {
        let dx: i128 = x as i128 - in_min as i128;
        let dy: i128 = out_max as i128 - out_min as i128;
        let span: i128 = in_max as i128 - in_min as i128;
        assert(-0x1_0000_0000_0000_0000_0000_0000 < dx * dy < 0x1_0000_0000_0000_0000_0000_0000)
            by (nonlinear_arith)
            requires
                -0x1_0000_0000_0000_0000 < dx < 0x1_0000_0000_0000_0000,
                -0x1_0000_0000 < dy < 0x1_0000_0000,
        ;
        let q: i128 = quotient_of(dx * dy, span);
        assert(-0x1_0000_0000_0000_0000_0000_0000 < q < 0x1_0000_0000_0000_0000_0000_0000)
            by (nonlinear_arith)
            requires
                q == quotient(dx * dy, span as int),
                span != 0,
                -0x1_0000_0000_0000_0000_0000_0000 < dx * dy < 0x1_0000_0000_0000_0000_0000_0000,
        ;
        q + out_min as i128
    };
    if raw < lo as i128 {
        lo as i64
    } else if raw > hi as i128 {
        hi as i64
    } else {
        raw as i64
    }
}

impl Value {
    /// One unit for true, zero for false.
    pub open spec fn flag(on: bool) -> Value {
        if on {
            Value::Known(MICRO)
        } else {
            Value::Known(0)
        }
    }

    /// One unit for true, zero for false.
    pub fn from_flag(on: bool) -> (v: Value)
        ensures
            v == Value::flag(on),
    {
        if on {
            Value::Known(MICRO)
        } else {
            Value::Known(0)
        }
    }

    /// The measurement is known.
    #[verifier::inline]
    pub open spec fn known(self) -> bool {
        self is Known
    }

    /// Known and greater than `limit`.
    pub open spec fn above(self, limit: i64) -> bool {
        self matches Value::Known(m) && m > limit
    }

    /// Known and less than `limit`.
    pub open spec fn below(self, limit: i64) -> bool {
        self matches Value::Known(m) && m < limit
    }

    /// Known and not less than `limit`.
    pub open spec fn at_least(self, limit: i64) -> bool {
        self matches Value::Known(m) && m >= limit
    }

    /// Known and not greater than `limit`.
    pub open spec fn at_most(self, limit: i64) -> bool {
        self matches Value::Known(m) && m <= limit
    }

    pub fn is_known(&self) -> (r: bool)
        ensures
            r == self.known(),
    {
        match self {
            Value::Known(_) => true,
            Value::Unknown => false,
        }
    }

    pub fn is_above(&self, limit: i64) -> (r: bool)
        ensures
            r == self.above(limit),
    {
        match self {
            Value::Known(m) => *m > limit,
            Value::Unknown => false,
        }
    }

    pub fn is_below(&self, limit: i64) -> (r: bool)
        ensures
            r == self.below(limit),
    {
        match self {
            Value::Known(m) => *m < limit,
            Value::Unknown => false,
        }
    }

    pub fn is_at_least(&self, limit: i64) -> (r: bool)
        ensures
            r == self.at_least(limit),
    {
        match self {
            Value::Known(m) => *m >= limit,
            Value::Unknown => false,
        }
    }

    pub fn is_at_most(&self, limit: i64) -> (r: bool)
        ensures
            r == self.at_most(limit),
    {
        match self {
            Value::Known(m) => *m <= limit,
            Value::Unknown => false,
        }
    }

    /// The measurement for a raw count worth `scale` millionths each.
    pub fn from_raw(raw: i128, scale: i64) -> (v: Value)
        requires
            -0x8000_0000_0000_0000 <= raw <= 0xffff_ffff_ffff_ffff,
        ensures
            v == scaled(raw as int, scale as int),
    {
        let wide_scale: i128 = scale as i128;
        assert(-0x8000_0000_0000_0000_0000_0000_0000_0000 < raw * wide_scale
            < 0x8000_0000_0000_0000_0000_0000_0000_0000) by (nonlinear_arith)
            requires
                -0x8000_0000_0000_0000 <= raw <= 0xffff_ffff_ffff_ffff,
                -0x8000_0000_0000_0000 <= wide_scale <= 0x7fff_ffff_ffff_ffff,
        ;
        let product: i128 = raw * wide_scale;
        if product < -0x8000_0000_0000_0000 || product > 0x7fff_ffff_ffff_ffff {
            Value::Unknown
        } else {
            Value::Known(product as i64)
        }
    }

    /// The measurement multiplied by `numer / denom`, cut toward zero to a
    /// whole number and limited to the range from `lo` to `hi`; an unknown
    /// measurement counts as zero.
    pub fn quantize(&self, numer: u32, denom: u32, lo: i32, hi: i32) -> (r: i32)
        requires
            denom > 0,
            lo <= hi,
        ensures
            r == clamped(truncated(*self, numer as int, denom as int), lo as int, hi as int),
    {
        let whole: i128 = match self {
            Value::Unknown => 0,
            Value::Known(m) => {
                let wide: i128 = *m as i128;
                let factor: i128 = numer as i128;
                let divisor: i128 = denom as i128 * 1_000_000;
                assert(-0x1_0000_0000_0000_0000_0000_0000 < wide * factor
                    < 0x1_0000_0000_0000_0000_0000_0000) by (nonlinear_arith)
                    requires
                        -0x1_0000_0000_0000_0000 < wide < 0x1_0000_0000_0000_0000,
                        0 <= factor < 0x1_0000_0000,
                ;
                quotient_of(wide * factor, divisor)
            },
        };
        if whole < lo as i128 {
            lo
        } else if whole > hi as i128 {
            hi
        } else {
            whole as i32
        }
    }
}

} // verus!
