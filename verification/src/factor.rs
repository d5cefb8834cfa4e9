//! Transforms as products of elementary factors.
//!
//! A product is a list of factors in multiplication order: the first
//! factor is the leftmost matrix, so the last factor is the first to meet
//! a point.
use vstd::prelude::*;
use crate::projection::{
    clip_space, lemma_clip_space_linear, lemma_perspective_linear, perspective, Projection,
};
use crate::space::{
    lemma_mul_zero_one, lemma_negate, lemma_product_nonzero, lemma_rotate_linear,
    lemma_rotate_x_inverse, lemma_rotate_y_inverse, lemma_rotate_z_inverse, lemma_scale_inverse,
    lemma_scale_linear, lemma_translate_inverse, lemma_translate_linear, rotate_x, rotate_y,
    rotate_z, scalar, scale, translate, unrotate_x, unrotate_y, unrotate_z, unscale, untranslate,
    Mat4, Point4, Trig,
};
use crate::vector::Vec3;

verus! {

/// A transform that has an exact inverse (a scaling only where no factor
/// is zero).
#[derive(Clone, Copy, Debug, PartialEq, Eq, Structural)]
pub enum Elementary {
    /// Translation by a displacement.
    Translate(Vec3),
    /// Rotation about the x axis (pitch).
    RotateX(i64),
    /// Rotation about the y axis (yaw).
    RotateY(i64),
    /// Rotation about the z axis (roll).
    RotateZ(i64),
    /// Scaling of the three axes.
    Scale(Vec3),
}

impl Elementary {
    /// The transform itself.
    pub open spec fn apply(self, t: Trig, p: Point4) -> Point4 {
        match self {
            Elementary::Translate(d) => translate(d, p),
            Elementary::RotateX(a) => rotate_x(t, a, p),
            Elementary::RotateY(a) => rotate_y(t, a, p),
            Elementary::RotateZ(a) => rotate_z(t, a, p),
            Elementary::Scale(s) => scale(s, p),
        }
    }

    /// The transform that takes `apply` back.
    pub open spec fn undo(self, t: Trig, p: Point4) -> Point4 {
        match self {
            Elementary::Translate(d) => untranslate(d, p),
            Elementary::RotateX(a) => unrotate_x(t, a, p),
            Elementary::RotateY(a) => unrotate_y(t, a, p),
            Elementary::RotateZ(a) => unrotate_z(t, a, p),
            Elementary::Scale(s) => unscale(s, p),
        }
    }

    /// True unless this is a scaling with a zero factor.
    pub open spec fn reversible(self) -> bool {
        self matches Elementary::Scale(s) ==> s.all_nonzero()
    }

    /// Tells whether the transform has an inverse.
    pub fn is_reversible(&self) -> (r: bool)
        ensures
            r == self.reversible(),
    {
        match self {
            Elementary::Scale(s) => s.is_all_nonzero(),
            _ => true,
        }
    }
}

/// One factor of a product.
#[derive(Clone, Copy, Debug, PartialEq, Eq, Structural)]
pub enum Factor {
    /// The clip-space correction.
    ClipSpace,
    /// A perspective projection.
    Perspective(Projection),
    /// An elementary transform.
    Apply(Elementary),
    /// The inverse of an elementary transform.
    Undo(Elementary),
}

impl Factor {
    /// What the factor does to a point.
    pub open spec fn act(self, t: Trig, p: Point4) -> Point4 {
        match self {
            Factor::ClipSpace => clip_space(p),
            Factor::Perspective(proj) => perspective(t, proj, p),
            Factor::Apply(e) => e.apply(t, p),
            Factor::Undo(e) => e.undo(t, p),
        }
    }

    /// True for an elementary transform that has an inverse, applied or
    /// undone.
    pub open spec fn reversible(self) -> bool {
        match self {
            Factor::Apply(e) => e.reversible(),
            Factor::Undo(e) => e.reversible(),
            _ => false,
        }
    }

    /// The factor that cancels this one, where it is `reversible`.
    pub open spec fn flipped(self) -> Factor {
        match self {
            Factor::Apply(e) => Factor::Undo(e),
            Factor::Undo(e) => Factor::Apply(e),
            other => other,
        }
    }

    /// The factor that cancels this one; `None` where there is none: for
    /// the projection, the clip-space correction and a scaling with a zero
    /// factor.
    pub fn invert(&self) -> (r: Option<Factor>)
        ensures
            r is Some <==> self.reversible(),
            self.reversible() ==> r == Some(self.flipped()),
    {
        match self {
            Factor::Apply(e) => if e.is_reversible() {
                Some(Factor::Undo(*e))
            } else {
                None
            },
            Factor::Undo(e) => if e.is_reversible() {
                Some(Factor::Apply(*e))
            } else {
                None
            },
            _ => None,
        }
    }
}

/// What the product of `factors` does to a point: the last factor acts
/// first.
pub open spec fn act_all(factors: Seq<Factor>, t: Trig, p: Point4) -> Point4
    decreases factors.len(),
{
    if factors.len() == 0 {
        p
    } else {
        factors[0].act(t, act_all(factors.subrange(1, factors.len() as int), t, p))
    }
}

/// The matrix of the product: its columns are the images of the four
/// basis points.
pub open spec fn matrix_of(factors: Seq<Factor>, t: Trig) -> Mat4 {
    Mat4 {
        c0: act_all(factors, t, Point4::basis(0)),
        c1: act_all(factors, t, Point4::basis(1)),
        c2: act_all(factors, t, Point4::basis(2)),
        c3: act_all(factors, t, Point4::basis(3)),
    }
}

/// True when every factor is `reversible`.
pub open spec fn all_reversible(factors: Seq<Factor>) -> bool {
    forall|i: int| 0 <= i < factors.len() ==> (#[trigger] factors[i]).reversible()
}

/// The product that cancels `factors`: each factor flipped, in reverse
/// order.
pub open spec fn inverse_of(factors: Seq<Factor>) -> Seq<Factor> {
    Seq::new(factors.len(), |i: int| factors[factors.len() - 1 - i].flipped())
}

/// The inverse of a product of reversible factors; `None` when a factor
/// has no inverse.
pub fn invert_product(factors: &Vec<Factor>) -> (r: Option<Vec<Factor>>)
    ensures
        r is Some <==> all_reversible(factors@),
        r matches Some(inverse) ==> inverse@ == inverse_of(factors@),
{
    let mut inverse: Vec<Factor> = Vec::new();
    let mut left: usize = factors.len();
    while left > 0
        invariant
            left <= factors.len(),
            inverse.len() == factors.len() - left,
            forall|i: int| left <= i < factors.len() ==> (#[trigger] factors@[i]).reversible(),
            forall|i: int|
                0 <= i < inverse.len() ==> #[trigger] inverse@[i] == factors@[
                    factors.len() - 1 - i].flipped(),
        decreases left,
    {
        left = left - 1;
        match factors[left].invert() {
            Some(flipped) => {
                inverse.push(flipped);
            },
            None => {
                return None;
            },
        }
    }
    assert(inverse@ =~= inverse_of(factors@));
    Some(inverse)
}

/// Appends the factors of `tail` to `product`.
pub fn extend_product(product: &mut Vec<Factor>, tail: &Vec<Factor>)
    ensures
        final(product)@ == old(product)@ + tail@,
{
    let mut i: usize = 0;
    while i < tail.len()
        invariant
            i <= tail.len(),
            product@ == old(product)@ + tail@.subrange(0, i as int),
        decreases tail.len() - i,
    {
        product.push(tail[i]);
        i = i + 1;
        assert(product@ =~= old(product)@ + tail@.subrange(0, i as int));
    }
    assert(tail@.subrange(0, i as int) =~= tail@);
}

/// The product of two lists joined end to end acts as the first after the
/// second.
pub proof fn lemma_act_all_concat(first: Seq<Factor>, second: Seq<Factor>, t: Trig, p: Point4)
    ensures
        act_all(first + second, t, p) == act_all(first, t, act_all(second, t, p)),
    decreases first.len(),
{
    if first.len() == 0 {
        assert(first + second =~= second);
    } else {
        let rest = first.subrange(1, first.len() as int);
        assert((first + second).subrange(1, (first + second).len() as int) =~= rest + second);
        lemma_act_all_concat(rest, second, t, p);
    }
}

/// A product of one factor acts as that factor.
pub proof fn lemma_act_all_single(factor: Factor, t: Trig, p: Point4)
    ensures
        act_all(seq![factor], t, p) == factor.act(t, p),
{
    let one = seq![factor];
    assert(one.subrange(1, one.len() as int) =~= Seq::<Factor>::empty());
    assert(act_all(Seq::<Factor>::empty(), t, p) == p);
}

/// A reversible factor and its flipped partner cancel, in either order.
pub proof fn lemma_flipped_cancels(factor: Factor, t: Trig, p: Point4)
    requires
        t.wf(),
        factor.reversible(),
    ensures
        factor.flipped().act(t, factor.act(t, p)) == p,
        factor.act(t, factor.flipped().act(t, p)) == p,
{
    match factor {
        Factor::Apply(e) => lemma_undo_cancels(e, t, p),
        Factor::Undo(e) => lemma_undo_cancels(e, t, p),
        _ => {},
    }
}

/// An elementary transform that is reversible and what undoes it cancel,
/// in either order.
pub proof fn lemma_undo_cancels(e: Elementary, t: Trig, p: Point4)
    requires
        t.wf(),
        e.reversible(),
    ensures
        e.undo(t, e.apply(t, p)) == p,
        e.apply(t, e.undo(t, p)) == p,
{
    match e {
        Elementary::Translate(d) => lemma_translate_inverse(d, p),
        Elementary::RotateX(a) => lemma_rotate_x_inverse(t, a, p),
        Elementary::RotateY(a) => lemma_rotate_y_inverse(t, a, p),
        Elementary::RotateZ(a) => lemma_rotate_z_inverse(t, a, p),
        Elementary::Scale(s) => lemma_scale_inverse(s, p),
    }
}

/// The inverse of a product of reversible factors cancels the product, on
/// either side.
pub proof fn lemma_inverse_cancels(factors: Seq<Factor>, t: Trig, p: Point4)
    requires
        t.wf(),
        all_reversible(factors),
    ensures
        act_all(inverse_of(factors) + factors, t, p) == p,
        act_all(factors + inverse_of(factors), t, p) == p,
    decreases factors.len(),
{
    let inverse = inverse_of(factors);
    if factors.len() == 0 {
        assert(inverse + factors =~= Seq::<Factor>::empty());
        assert(factors + inverse =~= Seq::<Factor>::empty());
    } else {
        let head = factors[0];
        let rest = factors.subrange(1, factors.len() as int);
        assert(head.reversible());
        assert(all_reversible(rest)) by {
            assert forall|i: int| 0 <= i < rest.len() implies (#[trigger] rest[i]).reversible() by {
                assert(rest[i] == factors[i + 1]);
            }
        }
        assert(inverse =~= inverse_of(rest) + seq![head.flipped()]);
        assert(factors =~= seq![head] + rest);

        // inverse * factors
        lemma_act_all_concat(inverse, factors, t, p);
        lemma_act_all_concat(seq![head], rest, t, p);
        lemma_act_all_single(head, t, act_all(rest, t, p));
        let through = act_all(factors, t, p);
        assert(through == head.act(t, act_all(rest, t, p)));
        lemma_act_all_concat(inverse_of(rest), seq![head.flipped()], t, through);
        lemma_act_all_single(head.flipped(), t, through);
        lemma_flipped_cancels(head, t, act_all(rest, t, p));
        lemma_act_all_concat(inverse_of(rest), rest, t, p);
        lemma_inverse_cancels(rest, t, p);

        // factors * inverse
        lemma_act_all_concat(factors, inverse, t, p);
        lemma_act_all_concat(inverse_of(rest), seq![head.flipped()], t, p);
        lemma_act_all_single(head.flipped(), t, p);
        let back = head.flipped().act(t, p);
        lemma_inverse_cancels(rest, t, back);
        lemma_act_all_concat(rest, inverse_of(rest), t, back);
        lemma_act_all_concat(seq![head], rest, t, act_all(inverse, t, p));
        lemma_act_all_single(head, t, act_all(rest, t, act_all(inverse, t, p)));
        lemma_flipped_cancels(head, t, p);
    }
}

/// Every factor is linear.
pub proof fn lemma_factor_linear(f: Factor, t: Trig, p: Point4, a: real, q: Point4, b: real)
    ensures
        f.act(t, p.combine(a, q, b)) == f.act(t, p).combine(a, f.act(t, q), b),
{
    match f {
        Factor::ClipSpace => lemma_clip_space_linear(p, a, q, b),
        Factor::Perspective(proj) => lemma_perspective_linear(t, proj, p, a, q, b),
        Factor::Apply(e) => lemma_elementary_linear(e, t, p, a, q, b),
        Factor::Undo(e) => lemma_elementary_linear(e, t, p, a, q, b),
    }
}

/// Every elementary transform is linear, and so is what undoes it.
pub proof fn lemma_elementary_linear(
    e: Elementary,
    t: Trig,
    p: Point4,
    a: real,
    q: Point4,
    b: real,
)
    ensures
        e.apply(t, p.combine(a, q, b)) == e.apply(t, p).combine(a, e.apply(t, q), b),
        e.undo(t, p.combine(a, q, b)) == e.undo(t, p).combine(a, e.undo(t, q), b),
{
    match e {
        Elementary::Translate(d) => lemma_translate_linear(d, p, a, q, b),
        Elementary::RotateX(angle) => lemma_rotate_linear(t, angle, p, a, q, b),
        Elementary::RotateY(angle) => lemma_rotate_linear(t, angle, p, a, q, b),
        Elementary::RotateZ(angle) => lemma_rotate_linear(t, angle, p, a, q, b),
        Elementary::Scale(s) => lemma_scale_linear(s, p, a, q, b),
    }
}

/// Every product of factors is linear.
pub proof fn lemma_act_all_linear(
    factors: Seq<Factor>,
    t: Trig,
    p: Point4,
    a: real,
    q: Point4,
    b: real,
)
    ensures
        act_all(factors, t, p.combine(a, q, b)) == act_all(factors, t, p).combine(
            a,
            act_all(factors, t, q),
            b,
        ),
    decreases factors.len(),
{
    if factors.len() > 0 {
        let rest = factors.subrange(1, factors.len() as int);
        lemma_act_all_linear(rest, t, p, a, q, b);
        lemma_factor_linear(factors[0], t, act_all(rest, t, p), a, act_all(rest, t, q), b);
    }
}

/// The matrix of a product stands for the product: what the product does
/// to a point is the matrix times the point.
pub proof fn lemma_matrix_represents(factors: Seq<Factor>, t: Trig, p: Point4)
    ensures
        act_all(factors, t, p) == matrix_of(factors, t).times(p),
{
    let left = Point4::basis(0).combine(p.x, Point4::basis(1), p.y);
    let right = Point4::basis(2).combine(p.z, Point4::basis(3), p.w);
    assert(p == left.combine(1real, right, 1real));
    lemma_act_all_linear(factors, t, left, 1real, right, 1real);
    lemma_act_all_linear(factors, t, Point4::basis(0), p.x, Point4::basis(1), p.y);
    lemma_act_all_linear(factors, t, Point4::basis(2), p.z, Point4::basis(3), p.w);
}

/// Joining two products end to end multiplies their matrices.
pub proof fn lemma_matrix_of_concat(first: Seq<Factor>, second: Seq<Factor>, t: Trig)
    ensures
        matrix_of(first + second, t) == matrix_of(first, t).product(matrix_of(second, t)),
{
    let m = matrix_of(second, t);
    lemma_act_all_concat(first, second, t, Point4::basis(0));
    lemma_act_all_concat(first, second, t, Point4::basis(1));
    lemma_act_all_concat(first, second, t, Point4::basis(2));
    lemma_act_all_concat(first, second, t, Point4::basis(3));
    lemma_matrix_represents(first, t, m.c0);
    lemma_matrix_represents(first, t, m.c1);
    lemma_matrix_represents(first, t, m.c2);
    lemma_matrix_represents(first, t, m.c3);
}

/// The order of two rotations matters: turning about x by `pitch` and
/// about y by `yaw` gives one matrix or another, depending on which comes
/// first, whenever neither angle has a sine of zero.
pub proof fn lemma_rotation_order_matters(t: Trig, pitch: i64, yaw: i64)
    requires
        (t.sin)(scalar(pitch)) != 0real,
        (t.sin)(scalar(yaw)) != 0real,
    ensures
        matrix_of(
            seq![Factor::Apply(Elementary::RotateX(pitch)), Factor::Apply(Elementary::RotateY(yaw))],
            t,
        ) != matrix_of(
            seq![Factor::Apply(Elementary::RotateY(yaw)), Factor::Apply(Elementary::RotateX(pitch))],
            t,
        ),
{
    let about_x = Factor::Apply(Elementary::RotateX(pitch));
    let about_y = Factor::Apply(Elementary::RotateY(yaw));
    let e = Point4::basis(0);
    let sin_pitch = (t.sin)(scalar(pitch));
    let cos_pitch = (t.cos)(scalar(pitch));
    let sin_yaw = (t.sin)(scalar(yaw));

    assert(seq![about_x, about_y] =~= seq![about_x] + seq![about_y]);
    lemma_act_all_concat(seq![about_x], seq![about_y], t, e);
    lemma_act_all_single(about_y, t, e);
    let turned = rotate_y(t, yaw, e);
    lemma_act_all_single(about_x, t, turned);
    assert(turned.y == 0real);
    assert(turned.z == -sin_yaw);
    lemma_mul_zero_one(cos_pitch, turned.y);
    lemma_negate(sin_pitch, sin_yaw);
    lemma_product_nonzero(sin_pitch, sin_yaw);
    assert(rotate_x(t, pitch, turned).y == sin_pitch * sin_yaw);

    assert(seq![about_y, about_x] =~= seq![about_y] + seq![about_x]);
    lemma_act_all_concat(seq![about_y], seq![about_x], t, e);
    lemma_act_all_single(about_x, t, e);
    let kept = rotate_x(t, pitch, e);
    lemma_act_all_single(about_y, t, kept);
    assert(rotate_y(t, yaw, kept).y == 0real);
}

} // verus!
