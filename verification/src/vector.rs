//! Fixed-point vectors.
//!
//! Every length, angle and scale factor in this crate is an `i64` count of
//! thousandths: `1000` stands for one world unit, one degree, or a scale
//! factor of one. Sums saturate at the ends of the `i64` range.
use vstd::prelude::*;

verus! {

/// The number of fixed-point steps in one whole unit.
pub const UNIT: i64 = 1000;

/// The value closest to `v` that an `i64` can hold.
pub open spec fn clamp(v: int) -> i64 {
    if v > i64::MAX {
        i64::MAX
    } else if v < i64::MIN {
        i64::MIN
    } else {
        v as i64
    }
}

/// Adds two fixed-point values, saturating at the ends of the `i64` range.
pub fn saturating_sum(a: i64, b: i64) -> (r: i64)
    ensures
        r == clamp(a + b),
{
    match a.checked_add(b) {
        Some(sum) => sum,
        None => if b > 0 {
            i64::MAX
        } else {
            i64::MIN
        },
    }
}

/// A triple of fixed-point values: a position, a displacement, three angles
/// (pitch, yaw, roll) or three scale factors, depending on where it is used.
#[derive(Clone, Copy, Debug, PartialEq, Eq, Structural)]
pub struct Vec3 {
    pub x: i64,
    pub y: i64,
    pub z: i64,
}

impl Vec3 {
    /// The component-wise saturating sum of `self` and `other`.
    pub open spec fn plus(self, other: Vec3) -> Vec3 {
        Vec3 {
            x: clamp(self.x + other.x),
            y: clamp(self.y + other.y),
            z: clamp(self.z + other.z),
        }
    }

    /// True when adding `other` to `self` reaches neither end of the range.
    pub open spec fn fits_with(self, other: Vec3) -> bool {
        &&& i64::MIN <= self.x + other.x <= i64::MAX
        &&& i64::MIN <= self.y + other.y <= i64::MAX
        &&& i64::MIN <= self.z + other.z <= i64::MAX
    }

    /// True when `other` is `self` with every component negated.
    pub open spec fn is_opposite_of(self, other: Vec3) -> bool {
        &&& self.x == -other.x
        &&& self.y == -other.y
        &&& self.z == -other.z
    }

    /// True when no component is zero.
    pub open spec fn all_nonzero(self) -> bool {
        self.x != 0 && self.y != 0 && self.z != 0
    }

    pub fn new(x: i64, y: i64, z: i64) -> (r: Vec3)
        ensures
            r == (Vec3 { x, y, z }),
    {
        Vec3 { x, y, z }
    }

    /// The vector whose components are all zero.
    pub fn zero() -> (r: Vec3)
        ensures
            r == (Vec3 { x: 0, y: 0, z: 0 }),
    {
        Vec3 { x: 0, y: 0, z: 0 }
    }

    /// The vector whose three components all equal `value`.
    pub fn splat(value: i64) -> (r: Vec3)
        ensures
            r == (Vec3 { x: value, y: value, z: value }),
    {
        Vec3 { x: value, y: value, z: value }
    }

    /// Adds `other` component by component, saturating each sum.
    pub fn saturating_add(self, other: Vec3) -> (r: Vec3)
        ensures
            r == self.plus(other),
    {
        Vec3 {
            x: saturating_sum(self.x, other.x),
            y: saturating_sum(self.y, other.y),
            z: saturating_sum(self.z, other.z),
        }
    }

    /// Tells whether every component differs from zero.
    pub fn is_all_nonzero(&self) -> (r: bool)
        ensures
            r == self.all_nonzero(),
    {
        self.x != 0 && self.y != 0 && self.z != 0
    }
}

/// Adding a vector and then its opposite gives back the start, as long as
/// the first sum stays inside the `i64` range.
pub proof fn lemma_plus_opposite(start: Vec3, delta: Vec3, back: Vec3)
    requires
        back.is_opposite_of(delta),
        start.fits_with(delta),
    ensures
        start.plus(delta).plus(back) == start,
{
}

} // verus!
