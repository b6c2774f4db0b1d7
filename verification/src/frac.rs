//! Exact rational scalars and the points and rectangles built from them.
//!
//! Image-space positions of tiles are fractions of the form
//! `k * tile_size * max_width / level_width`, so a rectangle corner is a
//! rational number. Values are kept unreduced: the denominator is always the
//! width of the level that produced the value, which makes equality of two
//! corners plain structural equality.

use vstd::prelude::*;

verus! {

/// Largest numerator magnitude a well-formed fraction may carry.
pub const NUM_LIM: i64 = 0x100_0000_0000;

/// Largest denominator a well-formed fraction may carry.
pub const DEN_LIM: i64 = 0x20_0000;

/// An exact rational number `num / den` with `den > 0`.
///
/// Equality is structural: two fractions are equal when numerator and
/// denominator both match. The library only ever compares fractions that were
/// produced over the same denominator, so structural equality coincides with
/// equality of the rational values wherever `==` is used.
#[derive(Clone, Copy, Debug, PartialEq, Eq, Structural)]
pub struct Frac {
    pub num: i64,
    pub den: i64,
}

impl Frac {
    /// The bounds under which every arithmetic step of the library fits `i64`.
    pub open spec fn wf(self) -> bool {
        &&& 0 < self.den <= DEN_LIM
        &&& -NUM_LIM <= self.num <= NUM_LIM
    }

    /// `self <= other` as rational numbers.
    pub open spec fn spec_le(self, other: Frac) -> bool {
        self.num * other.den <= other.num * self.den
    }

    /// `self < other` as rational numbers.
    pub open spec fn spec_lt(self, other: Frac) -> bool {
        self.num * other.den < other.num * self.den
    }

    pub fn new(num: i64, den: i64) -> (r: Frac)
        requires
            0 < den <= DEN_LIM,
            -NUM_LIM <= num <= NUM_LIM,
        ensures
            r == (Frac { num, den }),
            r.wf(),
    {
        Frac { num, den }
    }

    /// The integer `n` as a fraction over denominator 1.
    pub fn from_int(n: i64) -> (r: Frac)
        requires
            -NUM_LIM <= n <= NUM_LIM,
        ensures
            r == (Frac { num: n, den: 1 }),
            r.wf(),
    {
        Frac { num: n, den: 1 }
    }

    pub fn le(self, other: Frac) -> (r: bool)
        requires
            self.wf(),
            other.wf(),
        ensures
            r == self.spec_le(other),
    {
        proof {
            lemma_cross_product_bounded(self, other);
        }
        self.num * other.den <= other.num * self.den
    }

    pub fn lt(self, other: Frac) -> (r: bool)
        requires
            self.wf(),
            other.wf(),
        ensures
            r == self.spec_lt(other),
    {
        proof {
            lemma_cross_product_bounded(self, other);
        }
        self.num * other.den < other.num * self.den
    }

    /// The smaller of the two rational values; `self` on a tie.
    pub fn min(self, other: Frac) -> (r: Frac)
        requires
            self.wf(),
            other.wf(),
        ensures
            r == if self.spec_le(other) {
                self
            } else {
                other
            },
    {
        if self.le(other) {
            self
        } else {
            other
        }
    }

    /// The larger of the two rational values; `self` on a tie.
    pub fn max(self, other: Frac) -> (r: Frac)
        requires
            self.wf(),
            other.wf(),
        ensures
            r == if other.spec_le(self) {
                self
            } else {
                other
            },
    {
        if other.le(self) {
            self
        } else {
            other
        }
    }

    /// The rational with the opposite sign.
    pub fn neg(self) -> (r: Frac)
        requires
            self.wf(),
        ensures
            r.num == -self.num,
            r.den == self.den,
            r.wf(),
    {
        Frac { num: -self.num, den: self.den }
    }

    /// A non-negative value rounded to the nearest integer, halves up.
    pub open spec fn spec_round(self) -> int {
        (2 * self.num + self.den) / (2 * self.den as int)
    }

    /// Round a non-negative value to the nearest integer, halves away from
    /// zero, as a `u32`.
    pub fn round_to_u32(self) -> (r: u32)
        requires
            self.wf(),
            self.num >= 0,
            self.spec_round() <= u32::MAX,
        ensures
            r == self.spec_round(),
    {
        let n = (2 * self.num + self.den) as u64;
        let d = (2 * self.den) as u64;
        (n / d) as u32
    }
}

/// The rounded value of `f` lies within any bound its value satisfies:
/// `f <= b` (as rationals) gives `round(f) <= b + 1`.
pub proof fn lemma_round_le(f: Frac, b: int)
    requires
        f.wf(),
        0 <= f.num,
        0 <= b,
        f.num <= b * f.den,
    ensures
        0 <= f.spec_round() <= b + 1,
{
    vstd::arithmetic::div_mod::lemma_div_pos_is_pos(2 * f.num + f.den, 2 * f.den as int);
    assert(2 * f.num + f.den <= (b + 1) * (2 * f.den)) by (nonlinear_arith)
        requires
            f.num <= b * f.den,
            0 < f.den,
            0 <= b,
    ;
    vstd::arithmetic::div_mod::lemma_div_is_ordered(
        2 * f.num + f.den,
        (b + 1) * (2 * f.den),
        2 * f.den as int,
    );
    vstd::arithmetic::div_mod::lemma_div_multiples_vanish(b + 1, 2 * f.den as int);
    assert((b + 1) * (2 * f.den) == (2 * f.den) * (b + 1)) by (nonlinear_arith);
}

proof fn lemma_cross_product_bounded(a: Frac, b: Frac)
    requires
        a.wf(),
        b.wf(),
    ensures
        -0x2000_0000_0000_0000 <= a.num * b.den <= 0x2000_0000_0000_0000,
        -0x2000_0000_0000_0000 <= b.num * a.den <= 0x2000_0000_0000_0000,
{
    assert(-0x2000_0000_0000_0000 <= a.num * b.den <= 0x2000_0000_0000_0000)
        by (nonlinear_arith)
        requires
            -NUM_LIM <= a.num <= NUM_LIM,
            0 < b.den <= DEN_LIM,
    ;
    assert(-0x2000_0000_0000_0000 <= b.num * a.den <= 0x2000_0000_0000_0000)
        by (nonlinear_arith)
        requires
            -NUM_LIM <= b.num <= NUM_LIM,
            0 < a.den <= DEN_LIM,
    ;
}

/// A point whose coordinates are exact rationals.
#[derive(Clone, Copy, Debug, PartialEq, Eq, Structural)]
pub struct FracPoint {
    pub x: Frac,
    pub y: Frac,
}

impl FracPoint {
    pub open spec fn wf(self) -> bool {
        self.x.wf() && self.y.wf()
    }

    pub fn new(x: Frac, y: Frac) -> (r: FracPoint)
        ensures
            r == (FracPoint { x, y }),
    {
        FracPoint { x, y }
    }
}

/// An axis-aligned rectangle with rational corners, `min` component-wise at
/// most `max`.
#[derive(Clone, Copy, Debug, PartialEq, Eq, Structural)]
pub struct FracRect {
    pub min: FracPoint,
    pub max: FracPoint,
}

impl FracRect {
    pub open spec fn wf(self) -> bool {
        self.min.wf() && self.max.wf()
    }

    /// Build a rectangle from two arbitrary corner points, ordering each axis.
    pub fn from_corners(p0: FracPoint, p1: FracPoint) -> (r: FracRect)
        requires
            p0.wf(),
            p1.wf(),
        ensures
            r.min.x == p0.x.min_spec(p1.x),
            r.min.y == p0.y.min_spec(p1.y),
            r.max.x == p0.x.max_spec(p1.x),
            r.max.y == p0.y.max_spec(p1.y),
            r.wf(),
    {
        FracRect {
            min: FracPoint { x: p0.x.min(p1.x), y: p0.y.min(p1.y) },
            max: FracPoint { x: p0.x.max(p1.x), y: p0.y.max(p1.y) },
        }
    }
}

impl Frac {
    /// The value `min(self, other)` as `Frac::min` computes it.
    pub open spec fn min_spec(self, other: Frac) -> Frac {
        if self.spec_le(other) {
            self
        } else {
            other
        }
    }

    /// The value `max(self, other)` as `Frac::max` computes it.
    pub open spec fn max_spec(self, other: Frac) -> Frac {
        if other.spec_le(self) {
            self
        } else {
            other
        }
    }
}

} // verus!
