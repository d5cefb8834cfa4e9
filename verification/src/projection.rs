//! The perspective projection and the clip-space correction.
use vstd::prelude::*;
use crate::space::{lemma_linear_form, scalar, Point4, Trig};

verus! {

/// The largest field of view, exclusive: half a turn.
pub const HALF_TURN: i64 = 180_000;

/// The parameters of a perspective projection.
///
/// `fovy` is the vertical field of view in thousandths of a degree, `near`
/// and `far` are the distances of the two clipping planes in thousandths
/// of a world unit. The aspect ratio is kept as the pair it was computed
/// from, so that a window size goes in without rounding.
#[derive(Clone, Copy, Debug, PartialEq, Eq, Structural)]
pub struct Projection {
    pub fovy: i64,
    pub aspect_width: u32,
    pub aspect_height: u32,
    pub near: i64,
    pub far: i64,
}

impl Projection {
    /// The aspect ratio: width over height.
    pub open spec fn aspect(self) -> real {
        self.aspect_width as real / self.aspect_height as real
    }

    /// The parameters describe a frustum: an opening angle strictly
    /// between zero and half a turn, a positive aspect ratio, and two
    /// distinct planes in front of the eye.
    pub open spec fn describes_frustum(self) -> bool {
        &&& 0 < self.fovy < HALF_TURN
        &&& self.aspect_width > 0
        &&& self.aspect_height > 0
        &&& self.near > 0
        &&& self.far > 0
        &&& self.near != self.far
    }

    pub fn new(fovy: i64, aspect_width: u32, aspect_height: u32, near: i64, far: i64) -> (r:
        Projection)
        ensures
            r == (Projection { fovy, aspect_width, aspect_height, near, far }),
    {
        Projection { fovy, aspect_width, aspect_height, near, far }
    }

    /// Tells whether the parameters describe a frustum.
    pub fn is_frustum(&self) -> (r: bool)
        ensures
            r == self.describes_frustum(),
    {
        0 < self.fovy && self.fovy < HALF_TURN && self.aspect_width > 0 && self.aspect_height > 0
            && self.near > 0 && self.far > 0 && self.near != self.far
    }

    /// The same projection with the aspect ratio `width : height`.
    pub fn with_aspect(self, width: u32, height: u32) -> (r: Projection)
        ensures
            r == (Projection { aspect_width: width, aspect_height: height, ..self }),
    {
        Projection {
            fovy: self.fovy,
            aspect_width: width,
            aspect_height: height,
            near: self.near,
            far: self.far,
        }
    }
}

/// The perspective map of `proj`: the eye looks down the negative z axis,
/// the near plane goes to depth -1 and the far plane to depth +1.
pub open spec fn perspective(t: Trig, proj: Projection, p: Point4) -> Point4 {
    let half = scalar(proj.fovy) / 2real;
    let f = (t.cos)(half) / (t.sin)(half);
    let near = scalar(proj.near);
    let far = scalar(proj.far);
    Point4 {
        x: f / proj.aspect() * p.x,
        y: f * p.y,
        z: (far + near) / (near - far) * p.z + 2real * far * near / (near - far) * p.w,
        w: -p.z,
    }
}

/// The correction from a depth range of -1..1 to one of 0..1: depth is
/// halved and moved up by half the weight, the rest is kept.
pub open spec fn clip_space(p: Point4) -> Point4 {
    Point4 { x: p.x, y: p.y, z: p.z / 2real + p.w / 2real, w: p.w }
}

/// The correction sends depth -1 to 0 and depth +1 to 1.
pub proof fn lemma_clip_space_range(x: real, y: real)
    ensures
        clip_space(Point4 { x, y, z: -1real, w: 1real }).z == 0real,
        clip_space(Point4 { x, y, z: 1real, w: 1real }).z == 1real,
{
}

/// A point on the near plane gets depth -1 and one on the far plane depth
/// +1, once divided by its weight.
pub proof fn lemma_perspective_planes(t: Trig, proj: Projection, x: real, y: real)
    requires
        proj.describes_frustum(),
    ensures
        ({
            let q = perspective(t, proj, Point4 { x, y, z: -scalar(proj.near), w: 1real });
            q.z == -q.w && q.w == scalar(proj.near)
        }),
        ({
            let q = perspective(t, proj, Point4 { x, y, z: -scalar(proj.far), w: 1real });
            q.z == q.w && q.w == scalar(proj.far)
        }),
{
    let near = scalar(proj.near);
    let far = scalar(proj.far);
    let d = near - far;
    assert(d != 0real);
    assert((far + near) / d * (-near) + 2real * far * near / d * 1real == -near) by (nonlinear_arith)
        requires
            d == near - far,
            d != 0real,
    ;
    assert((far + near) / d * (-far) + 2real * far * near / d * 1real == far) by (nonlinear_arith)
        requires
            d == near - far,
            d != 0real,
    ;
}

/// The perspective map is linear.
pub proof fn lemma_perspective_linear(
    t: Trig,
    proj: Projection,
    p: Point4,
    a: real,
    q: Point4,
    b: real,
)
    ensures
        perspective(t, proj, p.combine(a, q, b)) == perspective(t, proj, p).combine(
            a,
            perspective(t, proj, q),
            b,
        ),
{
    let half = scalar(proj.fovy) / 2real;
    let f = (t.cos)(half) / (t.sin)(half);
    let near = scalar(proj.near);
    let far = scalar(proj.far);
    lemma_linear_form(f / proj.aspect(), 0real, a, b, p.x, p.x, q.x, q.x);
    lemma_linear_form(f, 0real, a, b, p.y, p.y, q.y, q.y);
    lemma_linear_form(
        (far + near) / (near - far),
        2real * far * near / (near - far),
        a,
        b,
        p.z,
        p.w,
        q.z,
        q.w,
    );
    assert(-(a * p.z + b * q.z) == a * (-p.z) + b * (-q.z)) by (nonlinear_arith);
}

/// The clip-space correction is linear.
pub proof fn lemma_clip_space_linear(p: Point4, a: real, q: Point4, b: real)
    ensures
        clip_space(p.combine(a, q, b)) == clip_space(p).combine(a, clip_space(q), b),
{
    assert((a * p.z + b * q.z) / 2real + (a * p.w + b * q.w) / 2real == a * (p.z / 2real + p.w
        / 2real) + b * (q.z / 2real + q.w / 2real)) by (nonlinear_arith);
}

} // verus!
