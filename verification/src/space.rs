//! The exact meaning of the elementary transforms.
//!
//! A transform is a map on points of homogeneous space with real
//! coordinates. Nothing here is executable: these definitions say what the
//! factor lists produced elsewhere in the crate stand for, and the lemmas
//! are the facts about them that the rest of the crate builds on.
use vstd::prelude::*;
use crate::vector::Vec3;

verus! {

/// A point of homogeneous space: `(x, y, z)` with weight `w`.
pub struct Point4 {
    pub x: real,
    pub y: real,
    pub z: real,
    pub w: real,
}

impl Point4 {
    /// The `i`-th basis point; any `i` outside `0..3` gives the last one.
    pub open spec fn basis(i: int) -> Point4 {
        Point4 {
            x: if i == 0 { 1real } else { 0real },
            y: if i == 1 { 1real } else { 0real },
            z: if i == 2 { 1real } else { 0real },
            w: if i == 0 || i == 1 || i == 2 { 0real } else { 1real },
        }
    }

    /// The point all of whose coordinates are zero.
    pub open spec fn origin() -> Point4 {
        Point4 { x: 0real, y: 0real, z: 0real, w: 0real }
    }

    /// `a * self + b * other`, coordinate by coordinate.
    pub open spec fn combine(self, a: real, other: Point4, b: real) -> Point4 {
        Point4 {
            x: a * self.x + b * other.x,
            y: a * self.y + b * other.y,
            z: a * self.z + b * other.z,
            w: a * self.w + b * other.w,
        }
    }
}

/// A 4x4 matrix, held as its four columns.
pub struct Mat4 {
    pub c0: Point4,
    pub c1: Point4,
    pub c2: Point4,
    pub c3: Point4,
}

impl Mat4 {
    pub open spec fn identity() -> Mat4 {
        Mat4 {
            c0: Point4::basis(0),
            c1: Point4::basis(1),
            c2: Point4::basis(2),
            c3: Point4::basis(3),
        }
    }

    /// The product of this matrix with the column `p`: the columns of the
    /// matrix, weighted by the coordinates of `p` and summed.
    pub open spec fn times(self, p: Point4) -> Point4 {
        Point4 {
            x: p.x * self.c0.x + p.y * self.c1.x + p.z * self.c2.x + p.w * self.c3.x,
            y: p.x * self.c0.y + p.y * self.c1.y + p.z * self.c2.y + p.w * self.c3.y,
            z: p.x * self.c0.z + p.y * self.c1.z + p.z * self.c2.z + p.w * self.c3.z,
            w: p.x * self.c0.w + p.y * self.c1.w + p.z * self.c2.w + p.w * self.c3.w,
        }
    }

    /// The product of this matrix with `other`: column by column.
    pub open spec fn product(self, other: Mat4) -> Mat4 {
        Mat4 {
            c0: self.times(other.c0),
            c1: self.times(other.c1),
            c2: self.times(other.c2),
            c3: self.times(other.c3),
        }
    }
}

/// An assignment of a cosine and a sine to every angle, in degrees.
///
/// The lemmas of this crate hold for every assignment that is `wf`; the
/// true cosine and sine are one.
pub struct Trig {
    pub cos: spec_fn(real) -> real,
    pub sin: spec_fn(real) -> real,
}

impl Trig {
    /// Every angle is sent to a point of the unit circle, and the angle
    /// zero to `(1, 0)`.
    pub open spec fn wf(self) -> bool {
        &&& forall|a: real| #[trigger]
            (self.cos)(a) * (self.cos)(a) + (self.sin)(a) * (self.sin)(a) == 1real
        &&& (self.cos)(0real) == 1real
        &&& (self.sin)(0real) == 0real
    }
}

/// The real number that the fixed-point value `v` stands for.
pub open spec fn scalar(v: i64) -> real {
    v as real / 1000real
}

/// Translation by `d`.
pub open spec fn translate(d: Vec3, p: Point4) -> Point4 {
    Point4 {
        x: p.x + scalar(d.x) * p.w,
        y: p.y + scalar(d.y) * p.w,
        z: p.z + scalar(d.z) * p.w,
        w: p.w,
    }
}

/// Translation by the opposite of `d`.
pub open spec fn untranslate(d: Vec3, p: Point4) -> Point4 {
    Point4 {
        x: p.x - scalar(d.x) * p.w,
        y: p.y - scalar(d.y) * p.w,
        z: p.z - scalar(d.z) * p.w,
        w: p.w,
    }
}

/// Rotation about the x axis by `angle`: `y` turns towards `z`.
pub open spec fn rotate_x(t: Trig, angle: i64, p: Point4) -> Point4 {
    let c = (t.cos)(scalar(angle));
    let s = (t.sin)(scalar(angle));
    Point4 { x: p.x, y: c * p.y - s * p.z, z: s * p.y + c * p.z, w: p.w }
}

/// The rotation about the x axis that takes `rotate_x` back.
pub open spec fn unrotate_x(t: Trig, angle: i64, p: Point4) -> Point4 {
    let c = (t.cos)(scalar(angle));
    let s = (t.sin)(scalar(angle));
    Point4 { x: p.x, y: c * p.y + s * p.z, z: c * p.z - s * p.y, w: p.w }
}

/// Rotation about the y axis by `angle`: `z` turns towards `x`.
pub open spec fn rotate_y(t: Trig, angle: i64, p: Point4) -> Point4 {
    let c = (t.cos)(scalar(angle));
    let s = (t.sin)(scalar(angle));
    Point4 { x: c * p.x + s * p.z, y: p.y, z: c * p.z - s * p.x, w: p.w }
}

/// The rotation about the y axis that takes `rotate_y` back.
pub open spec fn unrotate_y(t: Trig, angle: i64, p: Point4) -> Point4 {
    let c = (t.cos)(scalar(angle));
    let s = (t.sin)(scalar(angle));
    Point4 { x: c * p.x - s * p.z, y: p.y, z: s * p.x + c * p.z, w: p.w }
}

/// Rotation about the z axis by `angle`: `x` turns towards `y`.
pub open spec fn rotate_z(t: Trig, angle: i64, p: Point4) -> Point4 {
    let c = (t.cos)(scalar(angle));
    let s = (t.sin)(scalar(angle));
    Point4 { x: c * p.x - s * p.y, y: s * p.x + c * p.y, z: p.z, w: p.w }
}

/// The rotation about the z axis that takes `rotate_z` back.
pub open spec fn unrotate_z(t: Trig, angle: i64, p: Point4) -> Point4 {
    let c = (t.cos)(scalar(angle));
    let s = (t.sin)(scalar(angle));
    Point4 { x: c * p.x + s * p.y, y: c * p.y - s * p.x, z: p.z, w: p.w }
}

/// Scaling of each axis by the matching component of `s`.
pub open spec fn scale(s: Vec3, p: Point4) -> Point4 {
    Point4 { x: scalar(s.x) * p.x, y: scalar(s.y) * p.y, z: scalar(s.z) * p.z, w: p.w }
}

/// Scaling of each axis by the reciprocal of the matching component of
/// `s`. It undoes `scale` where no component of `s` is zero.
pub open spec fn unscale(s: Vec3, p: Point4) -> Point4 {
    Point4 {
        x: (1real / scalar(s.x)) * p.x,
        y: (1real / scalar(s.y)) * p.y,
        z: (1real / scalar(s.z)) * p.z,
        w: p.w,
    }
}

/// The fixed-point value `v` stands for zero exactly when it is zero.
pub proof fn lemma_scalar_zero(v: i64)
    ensures
        scalar(v) == 0real <==> v == 0,
        scalar(0) == 0real,
        scalar(1000) == 1real,
{
}

/// Two rotations of the plane by opposite angles cancel.
pub proof fn lemma_plane_rotation(c: real, s: real, u: real, v: real)
    requires
        c * c + s * s == 1real,
    ensures
        c * (c * u - s * v) + s * (s * u + c * v) == u,
        c * (s * u + c * v) - s * (c * u - s * v) == v,
        c * (c * u + s * v) - s * (c * v - s * u) == u,
        c * (c * v - s * u) + s * (c * u + s * v) == v,
{
    assert(c * (c * u - s * v) + s * (s * u + c * v) == (c * c + s * s) * u) by (nonlinear_arith);
    assert(c * (s * u + c * v) - s * (c * u - s * v) == (c * c + s * s) * v) by (nonlinear_arith);
    assert(c * (c * u + s * v) - s * (c * v - s * u) == (c * c + s * s) * u) by (nonlinear_arith);
    assert(c * (c * v - s * u) + s * (c * u + s * v) == (c * c + s * s) * v) by (nonlinear_arith);
    assert((c * c + s * s) * u == u) by (nonlinear_arith)
        requires
            c * c + s * s == 1real,
    ;
    assert((c * c + s * s) * v == v) by (nonlinear_arith)
        requires
            c * c + s * s == 1real,
    ;
}

/// Each `un-` map undoes its partner, and the other way round.
pub proof fn lemma_translate_inverse(d: Vec3, p: Point4)
    ensures
        untranslate(d, translate(d, p)) == p,
        translate(d, untranslate(d, p)) == p,
{
}

pub proof fn lemma_rotate_x_inverse(t: Trig, angle: i64, p: Point4)
    requires
        t.wf(),
    ensures
        unrotate_x(t, angle, rotate_x(t, angle, p)) == p,
        rotate_x(t, angle, unrotate_x(t, angle, p)) == p,
{
    let c = (t.cos)(scalar(angle));
    let s = (t.sin)(scalar(angle));
    lemma_plane_rotation(c, s, p.y, p.z);
}

pub proof fn lemma_rotate_y_inverse(t: Trig, angle: i64, p: Point4)
    requires
        t.wf(),
    ensures
        unrotate_y(t, angle, rotate_y(t, angle, p)) == p,
        rotate_y(t, angle, unrotate_y(t, angle, p)) == p,
{
    let c = (t.cos)(scalar(angle));
    let s = (t.sin)(scalar(angle));
    lemma_plane_rotation(c, s, p.z, p.x);
}

pub proof fn lemma_rotate_z_inverse(t: Trig, angle: i64, p: Point4)
    requires
        t.wf(),
    ensures
        unrotate_z(t, angle, rotate_z(t, angle, p)) == p,
        rotate_z(t, angle, unrotate_z(t, angle, p)) == p,
{
    let c = (t.cos)(scalar(angle));
    let s = (t.sin)(scalar(angle));
    lemma_plane_rotation(c, s, p.x, p.y);
}

pub proof fn lemma_scale_inverse(s: Vec3, p: Point4)
    requires
        s.all_nonzero(),
    ensures
        unscale(s, scale(s, p)) == p,
        scale(s, unscale(s, p)) == p,
{
    lemma_scalar_zero(s.x);
    lemma_scalar_zero(s.y);
    lemma_scalar_zero(s.z);
    lemma_mul_div(scalar(s.x), p.x);
    lemma_mul_div(scalar(s.y), p.y);
    lemma_mul_div(scalar(s.z), p.z);
}

/// A non-zero number times its reciprocal is one.
pub proof fn lemma_reciprocal(k: real)
    requires
        k != 0real,
    ensures
        (1real / k) * k == 1real,
{
    assert((1real / k) * k == 1real) by (nonlinear_arith)
        requires
            k != 0real,
    ;
}

/// Multiplying by a non-zero number and by its reciprocal cancel.
pub proof fn lemma_mul_div(k: real, v: real)
    requires
        k != 0real,
    ensures
        (1real / k) * (k * v) == v,
        k * ((1real / k) * v) == v,
{
    let r = 1real / k;
    lemma_reciprocal(k);
    assert(r * (k * v) == (r * k) * v) by (nonlinear_arith);
    assert(k * (r * v) == (r * k) * v) by (nonlinear_arith);
    assert((r * k) * v == v) by (nonlinear_arith)
        requires
            r * k == 1real,
    ;
}

/// Multiplication spreads over a sum and over a difference.
pub proof fn lemma_distribute(k: real, x: real, y: real)
    ensures
        k * (x + y) == k * x + k * y,
        k * (x - y) == k * x - k * y,
{
    assert(k * (x + y) == k * x + k * y) by (nonlinear_arith);
    assert(k * (x - y) == k * x - k * y) by (nonlinear_arith);
}

/// The two outer factors of a product of three can change places.
pub proof fn lemma_exchange(k: real, a: real, u: real)
    ensures
        k * (a * u) == a * (k * u),
{
    assert(k * (a * u) == a * (k * u)) by (nonlinear_arith);
}

/// A sum of two products is linear in the pairs it is taken over.
pub proof fn lemma_linear_form(
    k1: real,
    k2: real,
    a: real,
    b: real,
    u1: real,
    u2: real,
    v1: real,
    v2: real,
)
    ensures
        k1 * (a * u1 + b * v1) + k2 * (a * u2 + b * v2) == a * (k1 * u1 + k2 * u2) + b * (k1 * v1
            + k2 * v2),
        k1 * (a * u1 + b * v1) - k2 * (a * u2 + b * v2) == a * (k1 * u1 - k2 * u2) + b * (k1 * v1
            - k2 * v2),
        (a * u1 + b * v1) + k2 * (a * u2 + b * v2) == a * (u1 + k2 * u2) + b * (v1 + k2 * v2),
        (a * u1 + b * v1) - k2 * (a * u2 + b * v2) == a * (u1 - k2 * u2) + b * (v1 - k2 * v2),
        k1 * (a * u1 + b * v1) == a * (k1 * u1) + b * (k1 * v1),
{
    lemma_distribute(k1, a * u1, b * v1);
    lemma_exchange(k1, a, u1);
    lemma_exchange(k1, b, v1);
    lemma_distribute(k2, a * u2, b * v2);
    lemma_exchange(k2, a, u2);
    lemma_exchange(k2, b, v2);
    lemma_distribute(a, k1 * u1, k2 * u2);
    lemma_distribute(b, k1 * v1, k2 * v2);
    lemma_distribute(a, u1, k2 * u2);
    lemma_distribute(b, v1, k2 * v2);
}

/// Every elementary transform, and every one that undoes it, is linear.
pub proof fn lemma_translate_linear(d: Vec3, p: Point4, a: real, q: Point4, b: real)
    ensures
        translate(d, p.combine(a, q, b)) == translate(d, p).combine(a, translate(d, q), b),
        untranslate(d, p.combine(a, q, b)) == untranslate(d, p).combine(a, untranslate(d, q), b),
{
    lemma_linear_form(1real, scalar(d.x), a, b, p.x, p.w, q.x, q.w);
    lemma_linear_form(1real, scalar(d.y), a, b, p.y, p.w, q.y, q.w);
    lemma_linear_form(1real, scalar(d.z), a, b, p.z, p.w, q.z, q.w);
}

pub proof fn lemma_rotate_linear(t: Trig, angle: i64, p: Point4, a: real, q: Point4, b: real)
    ensures
        rotate_x(t, angle, p.combine(a, q, b)) == rotate_x(t, angle, p).combine(
            a,
            rotate_x(t, angle, q),
            b,
        ),
        unrotate_x(t, angle, p.combine(a, q, b)) == unrotate_x(t, angle, p).combine(
            a,
            unrotate_x(t, angle, q),
            b,
        ),
        rotate_y(t, angle, p.combine(a, q, b)) == rotate_y(t, angle, p).combine(
            a,
            rotate_y(t, angle, q),
            b,
        ),
        unrotate_y(t, angle, p.combine(a, q, b)) == unrotate_y(t, angle, p).combine(
            a,
            unrotate_y(t, angle, q),
            b,
        ),
        rotate_z(t, angle, p.combine(a, q, b)) == rotate_z(t, angle, p).combine(
            a,
            rotate_z(t, angle, q),
            b,
        ),
        unrotate_z(t, angle, p.combine(a, q, b)) == unrotate_z(t, angle, p).combine(
            a,
            unrotate_z(t, angle, q),
            b,
        ),
{
    let c = (t.cos)(scalar(angle));
    let s = (t.sin)(scalar(angle));
    lemma_linear_form(c, s, a, b, p.y, p.z, q.y, q.z);
    lemma_linear_form(s, c, a, b, p.y, p.z, q.y, q.z);
    lemma_linear_form(c, s, a, b, p.z, p.y, q.z, q.y);
    lemma_linear_form(c, s, a, b, p.x, p.z, q.x, q.z);
    lemma_linear_form(c, s, a, b, p.z, p.x, q.z, q.x);
    lemma_linear_form(s, c, a, b, p.x, p.z, q.x, q.z);
    lemma_linear_form(c, s, a, b, p.x, p.y, q.x, q.y);
    lemma_linear_form(s, c, a, b, p.x, p.y, q.x, q.y);
    lemma_linear_form(c, s, a, b, p.y, p.x, q.y, q.x);
}

pub proof fn lemma_scale_linear(s: Vec3, p: Point4, a: real, q: Point4, b: real)
    ensures
        scale(s, p.combine(a, q, b)) == scale(s, p).combine(a, scale(s, q), b),
        unscale(s, p.combine(a, q, b)) == unscale(s, p).combine(a, unscale(s, q), b),
{
    lemma_linear_form(scalar(s.x), 0real, a, b, p.x, p.x, q.x, q.x);
    lemma_linear_form(scalar(s.y), 0real, a, b, p.y, p.y, q.y, q.y);
    lemma_linear_form(scalar(s.z), 0real, a, b, p.z, p.z, q.z, q.z);
    lemma_linear_form(1real / scalar(s.x), 0real, a, b, p.x, p.x, q.x, q.x);
    lemma_linear_form(1real / scalar(s.y), 0real, a, b, p.y, p.y, q.y, q.y);
    lemma_linear_form(1real / scalar(s.z), 0real, a, b, p.z, p.z, q.z, q.z);
}

/// The product of zero and anything is zero, and of one and anything is
/// that thing.
pub proof fn lemma_mul_zero_one(k: real, v: real)
    ensures
        k == 0real ==> k * v == 0real,
        v == 0real ==> k * v == 0real,
        k == 1real ==> k * v == v,
{
    if k == 0real {
        assert(k * v == 0real) by (nonlinear_arith)
            requires
                k == 0real,
        ;
    }
    if v == 0real {
        assert(k * v == 0real) by (nonlinear_arith)
            requires
                v == 0real,
        ;
    }
    if k == 1real {
        assert(k * v == v) by (nonlinear_arith)
            requires
                k == 1real,
        ;
    }
}

/// A product of two numbers that are not zero is not zero.
pub proof fn lemma_product_nonzero(u: real, v: real)
    requires
        u != 0real,
        v != 0real,
    ensures
        u * v != 0real,
{
    assert(u * v != 0real) by (nonlinear_arith)
        requires
            u != 0real,
            v != 0real,
    ;
}

/// A product changes sign with its second number.
pub proof fn lemma_negate(u: real, v: real)
    ensures
        u * (-v) == -(u * v),
{
    assert(u * (-v) == -(u * v)) by (nonlinear_arith);
}

/// Translation by nothing, rotation by no angle and scaling by one leave
/// every point where it is.
pub proof fn lemma_neutral_transforms(t: Trig, p: Point4)
    requires
        t.wf(),
    ensures
        translate(Vec3 { x: 0, y: 0, z: 0 }, p) == p,
        rotate_x(t, 0, p) == p,
        rotate_y(t, 0, p) == p,
        rotate_z(t, 0, p) == p,
        scale(Vec3 { x: 1000, y: 1000, z: 1000 }, p) == p,
{
    lemma_scalar_zero(0);
    let c = (t.cos)(scalar(0));
    let s = (t.sin)(scalar(0));
    assert(c == 1real && s == 0real);
    lemma_mul_zero_one(scalar(0), p.w);
    lemma_mul_zero_one(c, p.x);
    lemma_mul_zero_one(c, p.y);
    lemma_mul_zero_one(c, p.z);
    lemma_mul_zero_one(s, p.x);
    lemma_mul_zero_one(s, p.y);
    lemma_mul_zero_one(s, p.z);
    lemma_mul_zero_one(scalar(1000), p.x);
    lemma_mul_zero_one(scalar(1000), p.y);
    lemma_mul_zero_one(scalar(1000), p.z);
}

/// Translation and the three rotations keep the point of all zeros where
/// it is.
pub proof fn lemma_origin_stays(t: Trig, d: Vec3, angle: i64)
    ensures
        translate(d, Point4::origin()) == Point4::origin(),
        rotate_x(t, angle, Point4::origin()) == Point4::origin(),
        rotate_y(t, angle, Point4::origin()) == Point4::origin(),
        rotate_z(t, angle, Point4::origin()) == Point4::origin(),
{
    let c = (t.cos)(scalar(angle));
    let s = (t.sin)(scalar(angle));
    lemma_mul_zero_one(c, 0real);
    lemma_mul_zero_one(s, 0real);
    lemma_mul_zero_one(scalar(d.x), 0real);
    lemma_mul_zero_one(scalar(d.y), 0real);
    lemma_mul_zero_one(scalar(d.z), 0real);
}

/// The order of the two numbers of a product does not matter.
pub proof fn lemma_commute(u: real, v: real)
    ensures
        u * v == v * u,
{
    assert(u * v == v * u) by (nonlinear_arith);
}

/// Translating by a sum is translating by one part after the other.
pub proof fn lemma_translate_sum(first: Vec3, second: Vec3, p: Point4)
    requires
        first.fits_with(second),
    ensures
        translate(first.plus(second), p) == translate(second, translate(first, p)),
{
    lemma_scalar_sum(first.x, second.x, p.w);
    lemma_scalar_sum(first.y, second.y, p.w);
    lemma_scalar_sum(first.z, second.z, p.w);
}

/// The fixed-point sum of two values stands for the sum of what they
/// stand for.
pub proof fn lemma_scalar_sum(a: i64, b: i64, w: real)
    requires
        i64::MIN <= a + b <= i64::MAX,
    ensures
        scalar((a + b) as i64) * w == scalar(a) * w + scalar(b) * w,
{
    let sum = scalar((a + b) as i64);
    assert(sum == scalar(a) + scalar(b));
    lemma_commute(sum, w);
    lemma_commute(scalar(a), w);
    lemma_commute(scalar(b), w);
    lemma_distribute(w, scalar(a), scalar(b));
}

} // verus!
