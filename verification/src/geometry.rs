//! Points in world space, in thousandths of a world unit.

use vstd::arithmetic::div_mod::{lemma_fundamental_div_mod, lemma_mod_bound};
use vstd::prelude::*;

verus! {

/// Thousandths per world unit.
pub const UNIT: u64 = 1000;

/// A point or displacement in world space.
#[derive(Clone, Copy, Debug, PartialEq, Eq, Structural)]
pub struct Vec3 {
    pub x: i64,
    pub y: i64,
    pub z: i64,
}

/// `v` brought into the range of `i64`.
pub open spec fn clamp_i64(v: int) -> i64 {
    if v < i64::MIN {
        i64::MIN
    } else if v > i64::MAX {
        i64::MAX
    } else {
        v as i64
    }
}

/// Sum of two coordinates, held at the ends of the `i64` range.
pub fn saturating_sum(a: i64, b: i64) -> (sum: i64)
    ensures
        sum == clamp_i64(a + b),
{
    match a.checked_add(b) {
        Some(sum) => sum,
        None => if a < 0 {
            i64::MIN
        } else {
            i64::MAX
        },
    }
}

/// The distance between two coordinates.
pub fn gap(a: i64, b: i64) -> (d: u64)
    ensures
        d == if a >= b {
            a - b
        } else {
            b - a
        },
{
    if a >= b {
        (a as i128 - b as i128) as u64
    } else {
        (b as i128 - a as i128) as u64
    }
}

/// The square of a distance between two coordinates.
fn gap_squared(a: i64, b: i64) -> (sq: u128)
    ensures
        sq == (a - b) * (a - b),
{
    let d: u128 = gap(a, b) as u128;
    assert(d * d <= 0xffff_ffff_ffff_ffff * 0xffff_ffff_ffff_ffff) by (nonlinear_arith)
        requires
            0 <= d <= 0xffff_ffff_ffff_ffff,
    ;
    assert(d * d == (a - b) * (a - b)) by (nonlinear_arith)
        requires
            d == a - b || d == b - a,
    ;
    d * d
}

/// A coordinate turned the other way, held within `i64`.
pub fn saturating_negation(a: i64) -> (negated: i64)
    ensures
        negated == clamp_i64(-a),
{
    if a == i64::MIN {
        i64::MAX
    } else {
        -a
    }
}

/// `c` times `numerator / denominator`, rounded towards zero and held within
/// `i64`.
pub open spec fn scaled_coordinate(c: i64, numerator: u128, denominator: u64) -> i64 {
    if c >= 0 {
        clamp_i64(c * numerator / (denominator as int))
    } else {
        clamp_i64(-((-c) * numerator / (denominator as int)))
    }
}

/// A quotient whose dividend is beyond `u128` is beyond `u64`.
proof fn lemma_huge_quotient(dividend: int, denominator: int)
    requires
        dividend > u128::MAX,
        0 < denominator <= u64::MAX,
    ensures
        dividend / denominator > u64::MAX,
{
    lemma_fundamental_div_mod(dividend, denominator);
    lemma_mod_bound(dividend, denominator);
    let q = dividend / denominator;
    if q <= u64::MAX {
        assert(denominator * q <= 0xffff_ffff_ffff_ffff * 0xffff_ffff_ffff_ffff)
            by (nonlinear_arith)
            requires
                0 < denominator <= 0xffff_ffff_ffff_ffff,
                q <= 0xffff_ffff_ffff_ffff,
        ;
    }
}

/// `c` times `numerator / denominator`, rounded towards zero. A result
/// beyond `i64` stops at the end of the range.
pub fn scale_coordinate(c: i64, numerator: u128, denominator: u64) -> (scaled: i64)
    requires
        denominator > 0,
    ensures
        scaled == scaled_coordinate(c, numerator, denominator),
{
    let size: u128 = gap(c, 0) as u128;
    let ghost exact: int = size * numerator / (denominator as int);
    let quotient: u128 = match size.checked_mul(numerator) {
        Some(product) => product / (denominator as u128),
        None => {
            proof {
                lemma_huge_quotient(size * numerator, denominator as int);
            }
            u128::MAX
        },
    };
    assert((quotient > i64::MAX) == (exact > i64::MAX));
    assert(quotient <= i64::MAX ==> quotient == exact);
    if c >= 0 {
        if quotient > i64::MAX as u128 {
            i64::MAX
        } else {
            quotient as i64
        }
    } else {
        if quotient > i64::MAX as u128 {
            i64::MIN
        } else {
            -(quotient as i64)
        }
    }
}

impl Vec3 {
    /// The squared distance between two points.
    pub open spec fn distance_squared(self, other: Vec3) -> int {
        (self.x - other.x) * (self.x - other.x) + (self.y - other.y) * (self.y - other.y) + (self.z
            - other.z) * (self.z - other.z)
    }

    /// This point moved by `by`, each coordinate held within `i64`.
    pub open spec fn displaced(self, by: Vec3) -> Vec3 {
        Vec3 {
            x: clamp_i64(self.x + by.x),
            y: clamp_i64(self.y + by.y),
            z: clamp_i64(self.z + by.z),
        }
    }

    /// Whether the squared distance to `other` is below `limit`.
    pub fn closer_than(self, other: Vec3, limit: u64) -> (near: bool)
        ensures
            near == (self.distance_squared(other) < limit),
    {
        let dx: u128 = gap_squared(self.x, other.x);
        let dy: u128 = gap_squared(self.y, other.y);
        let dz: u128 = gap_squared(self.z, other.z);
        let limit: u128 = limit as u128;
        if dx >= limit || dy >= limit || dz >= limit {
            false
        } else {
            dx + dy + dz < limit
        }
    }

    /// This displacement turned the other way, each coordinate held within
    /// `i64`.
    pub open spec fn reversed(self) -> Vec3 {
        Vec3 { x: clamp_i64(-self.x), y: clamp_i64(-self.y), z: clamp_i64(-self.z) }
    }

    /// Turns the displacement the other way.
    pub fn reverse(self) -> (turned: Vec3)
        ensures
            turned == self.reversed(),
    {
        Vec3 {
            x: saturating_negation(self.x),
            y: saturating_negation(self.y),
            z: saturating_negation(self.z),
        }
    }

    /// This displacement times `numerator / denominator`, each coordinate
    /// rounded towards zero and held within `i64`.
    pub open spec fn scaled(self, numerator: u128, denominator: u64) -> Vec3 {
        Vec3 {
            x: scaled_coordinate(self.x, numerator, denominator),
            y: scaled_coordinate(self.y, numerator, denominator),
            z: scaled_coordinate(self.z, numerator, denominator),
        }
    }

    /// Stretches the displacement by `numerator / denominator`.
    pub fn scale(self, numerator: u128, denominator: u64) -> (stretched: Vec3)
        requires
            denominator > 0,
        ensures
            stretched == self.scaled(numerator, denominator),
    {
        Vec3 {
            x: scale_coordinate(self.x, numerator, denominator),
            y: scale_coordinate(self.y, numerator, denominator),
            z: scale_coordinate(self.z, numerator, denominator),
        }
    }

    pub fn new(x: i64, y: i64, z: i64) -> (v: Vec3)
        ensures
            v == (Vec3 { x, y, z }),
    {
        Vec3 { x, y, z }
    }

    /// Moves the point by `by`. A coordinate that would leave the range of
    /// `i64` stops at its end.
    pub fn offset(self, by: Vec3) -> (moved: Vec3)
        ensures
            moved == self.displaced(by),
    {
        Vec3 {
            x: saturating_sum(self.x, by.x),
            y: saturating_sum(self.y, by.y),
            z: saturating_sum(self.z, by.z),
        }
    }
}

} // verus!
