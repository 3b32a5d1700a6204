use vstd::prelude::*;
use crate::math::fixed::{clamp, floor_div, lemma_product_fits, lemma_quotient_is_nearer_zero, ratio, saturate, scale, UNIT};

verus! {

/// A point or a displacement in the plane, in fixed-point coordinates.
#[derive(Clone, Copy, Debug, PartialEq, Eq, Structural)]
pub struct Vec2 {
    pub x: i64,
    pub y: i64,
}

/// `r` is the square root of `n`, rounded down.
pub open spec fn is_root(r: int, n: int) -> bool {
    0 <= r && r * r <= n < (r + 1) * (r + 1)
}

/// The number has at most one rounded-down square root.
pub proof fn lemma_root_is_unique(a: int, b: int, n: int)
    requires
        is_root(a, n),
        is_root(b, n),
    ensures
        a == b,
{
    if a < b {
        assert((a + 1) * (a + 1) <= b * b) by (nonlinear_arith)
            requires
                0 <= a + 1 <= b,
        ;
    } else if b < a {
        assert((b + 1) * (b + 1) <= a * a) by (nonlinear_arith)
            requires
                0 <= b + 1 <= a,
        ;
    }
}

/// Computes the square root of `n`, rounded down.
pub fn root(n: u128) -> (r: u64)
    ensures
        is_root(r as int, n as int),
{
    let mut low: u128 = 0;
    let mut high: u128 = 0x1_0000_0000_0000_0000;
    assert(0x1_0000_0000_0000_0000 * 0x1_0000_0000_0000_0000 > u128::MAX) by (nonlinear_arith);
    while high - low > 1
        invariant
            low < high <= 0x1_0000_0000_0000_0000,
            low * low <= n < high * high,
        decreases high - low,
    {
        let middle: u128 = low + (high - low) / 2;
        assert(middle * middle <= 0xffff_ffff_ffff_ffff * 0xffff_ffff_ffff_ffff) by (nonlinear_arith)
            requires
                0 <= middle <= 0xffff_ffff_ffff_ffff,
        ;
        if middle * middle <= n {
            low = middle;
        } else {
            high = middle;
        }
    }
    low as u64
}

impl Vec2 {
    pub fn vec2(x: i64, y: i64) -> (v: Self)
        ensures
            v == (Vec2 { x, y }),
    {
        Vec2 { x, y }
    }

    /// The square of the length, counted in squares of millionths.
    pub open spec fn square(self) -> int {
        self.x * self.x + self.y * self.y
    }

    /// The length of the vector, rounded down to a fixed-point number.
    pub fn abs(&self) -> (length: u64)
        ensures
            is_root(length as int, self.square()),
    {
        let x: u128 = if self.x < 0 {
            (-(self.x as i128)) as u128
        } else {
            self.x as u128
        };
        let y: u128 = if self.y < 0 {
            (-(self.y as i128)) as u128
        } else {
            self.y as u128
        };
        proof {
            lemma_product_fits(x as int, x as int);
            lemma_product_fits(y as int, y as int);
            assert(x * x == self.x * self.x) by (nonlinear_arith)
                requires
                    x == self.x || x == -self.x,
            ;
            assert(y * y == self.y * self.y) by (nonlinear_arith)
                requires
                    y == self.y || y == -self.y,
            ;
        }
        root(x * x + y * y)
    }

    /// The vector with both coordinates multiplied by `multiplation`; what
    /// an `i64` cannot hold is pinned to the nearer end of its range.
    pub open spec fn scaled(self, multiplation: i64) -> Vec2 {
        Vec2 {
            x: clamp(ratio(self.x as int, multiplation as int, UNIT as int)) as i64,
            y: clamp(ratio(self.y as int, multiplation as int, UNIT as int)) as i64,
        }
    }

    pub fn mul(&self, multiplation: i64) -> (v: Self)
        ensures
            v == self.scaled(multiplation),
    {
        Vec2 {
            x: saturate(scale(self.x, multiplation, 1_000_000)),
            y: saturate(scale(self.y, multiplation, 1_000_000)),
        }
    }

    /// The sum, coordinate by coordinate, pinned to what an `i64` can hold.
    pub open spec fn plus(self, rhs: Vec2) -> Vec2 {
        Vec2 { x: clamp(self.x + rhs.x) as i64, y: clamp(self.y + rhs.y) as i64 }
    }

    /// The difference, coordinate by coordinate, pinned to what an `i64` can hold.
    pub open spec fn minus(self, rhs: Vec2) -> Vec2 {
        Vec2 { x: clamp(self.x - rhs.x) as i64, y: clamp(self.y - rhs.y) as i64 }
    }

    /// The product, coordinate by coordinate, rounded down and pinned to
    /// what an `i64` can hold.
    pub open spec fn times(self, rhs: Vec2) -> Vec2 {
        Vec2 {
            x: clamp(ratio(self.x as int, rhs.x as int, UNIT as int)) as i64,
            y: clamp(ratio(self.y as int, rhs.y as int, UNIT as int)) as i64,
        }
    }

    /// The quotient, coordinate by coordinate, rounded down and pinned to
    /// what an `i64` can hold. A divisor below zero divides the negated
    /// dividend by its magnitude.
    pub open spec fn over(self, rhs: Vec2) -> Vec2 {
        Vec2 { x: quotient(self.x, rhs.x) as i64, y: quotient(self.y, rhs.y) as i64 }
    }
}

/// The fixed-point quotient of `a` by `b`, rounded down and pinned to what
/// an `i64` can hold.
pub open spec fn quotient(a: i64, b: i64) -> int {
    if b > 0 {
        clamp(ratio(a as int, UNIT as int, b as int))
    } else {
        clamp(ratio(-a, UNIT as int, -b))
    }
}

/// Computes the fixed-point quotient of `a` by a `b` other than zero.
pub fn divide(a: i64, b: i64) -> (q: i64)
    requires
        b != 0,
    ensures
        q == quotient(a, b),
{
    let (n, d): (i128, i128) = if b > 0 {
        (a as i128, b as i128)
    } else {
        (-(a as i128), -(b as i128))
    };
    proof {
        lemma_product_fits(n as int, UNIT as int);
        lemma_quotient_is_nearer_zero(n * UNIT, d as int);
    }
    saturate(floor_div(n * 1_000_000, d))
}

impl core::ops::Add for Vec2 {
    type Output = Vec2;

    fn add(self, rhs: Vec2) -> (v: Vec2) {
        Vec2 {
            x: saturate(self.x as i128 + rhs.x as i128),
            y: saturate(self.y as i128 + rhs.y as i128),
        }
    }
}

impl vstd::std_specs::ops::AddSpecImpl for Vec2 {
    open spec fn obeys_add_spec() -> bool {
        true
    }

    open spec fn add_req(self, rhs: Vec2) -> bool {
        true
    }

    open spec fn add_spec(self, rhs: Vec2) -> Vec2 {
        self.plus(rhs)
    }
}

impl core::ops::Sub for Vec2 {
    type Output = Vec2;

    fn sub(self, rhs: Vec2) -> (v: Vec2) {
        Vec2 {
            x: saturate(self.x as i128 - rhs.x as i128),
            y: saturate(self.y as i128 - rhs.y as i128),
        }
    }
}

impl vstd::std_specs::ops::SubSpecImpl for Vec2 {
    open spec fn obeys_sub_spec() -> bool {
        true
    }

    open spec fn sub_req(self, rhs: Vec2) -> bool {
        true
    }

    open spec fn sub_spec(self, rhs: Vec2) -> Vec2 {
        self.minus(rhs)
    }
}

impl core::ops::Mul for Vec2 {
    type Output = Vec2;

    fn mul(self, rhs: Vec2) -> (v: Vec2) {
        Vec2 {
            x: saturate(scale(self.x, rhs.x, 1_000_000)),
            y: saturate(scale(self.y, rhs.y, 1_000_000)),
        }
    }
}

impl vstd::std_specs::ops::MulSpecImpl for Vec2 {
    open spec fn obeys_mul_spec() -> bool {
        true
    }

    open spec fn mul_req(self, rhs: Vec2) -> bool {
        true
    }

    open spec fn mul_spec(self, rhs: Vec2) -> Vec2 {
        self.times(rhs)
    }
}

impl core::ops::Div for Vec2 {
    type Output = Vec2;

    fn div(self, rhs: Vec2) -> (v: Vec2) {
        Vec2 { x: divide(self.x, rhs.x), y: divide(self.y, rhs.y) }
    }
}

impl vstd::std_specs::ops::DivSpecImpl for Vec2 {
    open spec fn obeys_div_spec() -> bool {
        true
    }

    open spec fn div_req(self, rhs: Vec2) -> bool {
        rhs.x != 0 && rhs.y != 0
    }

    open spec fn div_spec(self, rhs: Vec2) -> Vec2 {
        self.over(rhs)
    }
}

} // verus!
