//! Poses: where an object stands, how it is turned and how large it is.
use vstd::prelude::*;
use crate::error::RenderError;
use crate::factor::{
    act_all, all_reversible, inverse_of, invert_product, lemma_act_all_concat,
    lemma_act_all_single, lemma_inverse_cancels, lemma_matrix_of_concat, matrix_of, Elementary,
    Factor,
};
use crate::space::{
    lemma_mul_zero_one, lemma_neutral_transforms, lemma_origin_stays, lemma_scalar_zero,
    lemma_translate_sum, rotate_x, rotate_y, rotate_z, scalar, scale, translate, Mat4, Point4,
    Trig,
};
use crate::vector::{lemma_plus_opposite, Vec3, UNIT};

verus! {

/// A pose, and through `compute_transformation_matrix` the transform that
/// places an object of that pose in the world.
///
/// `orientation` holds the angles about the x, y and z axes (pitch, yaw
/// and roll) in thousandths of a degree; `position` and `scale` are in
/// thousandths too.
#[derive(Clone, Copy, Debug, PartialEq, Eq, Structural)]
pub struct TransformationMatrix {
    pub position: Vec3,
    pub orientation: Vec3,
    pub scale: Vec3,
}

impl TransformationMatrix {
    /// The pose at the origin, not turned, of scale one.
    pub open spec fn identity_pose() -> TransformationMatrix {
        TransformationMatrix {
            position: Vec3 { x: 0, y: 0, z: 0 },
            orientation: Vec3 { x: 0, y: 0, z: 0 },
            scale: Vec3 { x: UNIT, y: UNIT, z: UNIT },
        }
    }

    /// The transform of the pose as a product: scale first, then turn
    /// about z, y and x, then translate. As matrices, `T * Rx * Ry * Rz * S`.
    pub open spec fn factors(self) -> Seq<Factor> {
        seq![
            Factor::Apply(Elementary::Translate(self.position)),
            Factor::Apply(Elementary::RotateX(self.orientation.x)),
            Factor::Apply(Elementary::RotateY(self.orientation.y)),
            Factor::Apply(Elementary::RotateZ(self.orientation.z)),
            Factor::Apply(Elementary::Scale(self.scale)),
        ]
    }

    /// What the transform of the pose does to a point.
    pub open spec fn act(self, t: Trig, p: Point4) -> Point4 {
        translate(
            self.position,
            rotate_x(
                t,
                self.orientation.x,
                rotate_y(t, self.orientation.y, rotate_z(t, self.orientation.z, scale(self.scale, p))),
            ),
        )
    }

    /// The transform can be inverted: no scale factor is zero.
    pub open spec fn invertible(self) -> bool {
        self.scale.all_nonzero()
    }

    /// The pose moved by `delta`.
    pub open spec fn translated(self, delta: Vec3) -> TransformationMatrix {
        TransformationMatrix { position: self.position.plus(delta), ..self }
    }

    /// The pose turned by `delta`: each angle grows by its component.
    pub open spec fn rotated(self, delta: Vec3) -> TransformationMatrix {
        TransformationMatrix { orientation: self.orientation.plus(delta), ..self }
    }

    /// The pose with `delta` added to its scale factors.
    pub open spec fn rescaled(self, delta: Vec3) -> TransformationMatrix {
        TransformationMatrix { scale: self.scale.plus(delta), ..self }
    }

    /// A pose of scale one.
    pub fn new(position: Vec3, pitch: i64, yaw: i64, roll: i64) -> (r: TransformationMatrix)
        ensures
            r == (TransformationMatrix {
                position,
                orientation: Vec3 { x: pitch, y: yaw, z: roll },
                scale: Vec3 { x: UNIT, y: UNIT, z: UNIT },
            }),
    {
        TransformationMatrix {
            position,
            orientation: Vec3::new(pitch, yaw, roll),
            scale: Vec3::splat(UNIT),
        }
    }

    /// A pose with the scale factors given.
    pub fn with_scale(position: Vec3, orientation: Vec3, scale: Vec3) -> (r: TransformationMatrix)
        ensures
            r == (TransformationMatrix { position, orientation, scale }),
    {
        TransformationMatrix { position, orientation, scale }
    }

    /// The pose at the origin, not turned, of scale one.
    pub fn identity() -> (r: TransformationMatrix)
        ensures
            r == TransformationMatrix::identity_pose(),
    {
        TransformationMatrix::new(Vec3::zero(), 0, 0, 0)
    }

    /// Tells whether the transform of the pose can be inverted.
    pub fn is_invertible(&self) -> (r: bool)
        ensures
            r == self.invertible(),
    {
        self.scale.is_all_nonzero()
    }

    /// The transform of the pose, as the product `T * Rx * Ry * Rz * S`.
    pub fn compute_transformation_matrix(&self) -> (r: Vec<Factor>)
        ensures
            r@ == self.factors(),
    {
        let mut product: Vec<Factor> = Vec::new();
        product.push(Factor::Apply(Elementary::Translate(self.position)));
        product.push(Factor::Apply(Elementary::RotateX(self.orientation.x)));
        product.push(Factor::Apply(Elementary::RotateY(self.orientation.y)));
        product.push(Factor::Apply(Elementary::RotateZ(self.orientation.z)));
        product.push(Factor::Apply(Elementary::Scale(self.scale)));
        assert(product@ =~= self.factors());
        product
    }

    /// The inverse of the transform of the pose, or `NonInvertiblePose`
    /// when a scale factor is zero.
    pub fn compute_inverse_matrix(&self) -> (r: Result<Vec<Factor>, RenderError>)
        ensures
            r is Ok <==> self.invertible(),
            r matches Ok(inverse) ==> inverse@ == inverse_of(self.factors()),
            r matches Err(e) ==> e == RenderError::NonInvertiblePose,
    {
        let product = self.compute_transformation_matrix();
        proof {
            lemma_reversible_factors(*self);
        }
        match invert_product(&product) {
            Some(inverse) => Ok(inverse),
            None => Err(RenderError::NonInvertiblePose),
        }
    }

    /// Moves the pose by `delta`, along the axes of the world.
    pub fn translate(&mut self, delta: Vec3)
        ensures
            *final(self) == old(self).translated(delta),
    {
        self.position = self.position.saturating_add(delta);
    }

    /// Turns the pose: adds `delta` to the three angles.
    pub fn rotate(&mut self, delta: Vec3)
        ensures
            *final(self) == old(self).rotated(delta),
    {
        self.orientation = self.orientation.saturating_add(delta);
    }

    /// Adds `delta` to the three scale factors.
    pub fn rescale(&mut self, delta: Vec3)
        ensures
            *final(self) == old(self).rescaled(delta),
    {
        self.scale = self.scale.saturating_add(delta);
    }

    /// The pose moved by `movement` and turned by the three angles given.
    pub fn transform(&self, movement: Vec3, rotate_pitch: i64, rotate_yaw: i64, rotate_roll: i64)
        -> (r: TransformationMatrix)
        ensures
            r == self.translated(movement).rotated(
                Vec3 { x: rotate_pitch, y: rotate_yaw, z: rotate_roll },
            ),
    {
        let mut moved = *self;
        moved.translate(movement);
        moved.rotate(Vec3::new(rotate_pitch, rotate_yaw, rotate_roll));
        moved
    }
}

/// The factors of a pose are all reversible exactly when the pose is
/// invertible.
pub proof fn lemma_reversible_factors(pose: TransformationMatrix)
    ensures
        all_reversible(pose.factors()) <==> pose.invertible(),
{
    let factors = pose.factors();
    if all_reversible(factors) {
        assert(factors[4].reversible());
    }
}

/// The product of a pose acts as translation after the three rotations
/// after scaling.
pub proof fn lemma_pose_acts(pose: TransformationMatrix, t: Trig, p: Point4)
    ensures
        act_all(pose.factors(), t, p) == pose.act(t, p),
{
    let f = pose.factors();
    let tail1 = seq![f[1], f[2], f[3], f[4]];
    let tail2 = seq![f[2], f[3], f[4]];
    let tail3 = seq![f[3], f[4]];
    let tail4 = seq![f[4]];
    assert(f =~= seq![f[0]] + tail1);
    assert(tail1 =~= seq![f[1]] + tail2);
    assert(tail2 =~= seq![f[2]] + tail3);
    assert(tail3 =~= seq![f[3]] + tail4);
    lemma_act_all_single(f[4], t, p);
    let scaled = act_all(tail4, t, p);
    lemma_act_all_concat(seq![f[3]], tail4, t, p);
    lemma_act_all_single(f[3], t, scaled);
    let rolled = act_all(tail3, t, p);
    lemma_act_all_concat(seq![f[2]], tail3, t, p);
    lemma_act_all_single(f[2], t, rolled);
    let yawed = act_all(tail2, t, p);
    lemma_act_all_concat(seq![f[1]], tail2, t, p);
    lemma_act_all_single(f[1], t, yawed);
    let pitched = act_all(tail1, t, p);
    lemma_act_all_concat(seq![f[0]], tail1, t, p);
    lemma_act_all_single(f[0], t, pitched);
}

/// The identity pose stands for the identity matrix: its transform leaves
/// every point where it is.
pub proof fn lemma_identity_pose(t: Trig)
    requires
        t.wf(),
    ensures
        matrix_of(TransformationMatrix::identity_pose().factors(), t) == Mat4::identity(),
        forall|p: Point4| #[trigger]
            act_all(TransformationMatrix::identity_pose().factors(), t, p) == p,
{
    let pose = TransformationMatrix::identity_pose();
    assert forall|p: Point4| #[trigger] act_all(pose.factors(), t, p) == p by {
        lemma_pose_acts(pose, t, p);
        let scaled = scale(pose.scale, p);
        lemma_neutral_transforms(t, p);
        lemma_neutral_transforms(t, scaled);
    }
}

/// The transform of an invertible pose has an inverse: the product handed
/// out by `compute_inverse_matrix` cancels it on either side, which makes
/// their product the identity matrix.
pub proof fn lemma_pose_inverse(pose: TransformationMatrix, t: Trig)
    requires
        t.wf(),
        pose.invertible(),
    ensures
        forall|p: Point4| #[trigger]
            act_all(inverse_of(pose.factors()) + pose.factors(), t, p) == p,
        forall|p: Point4| #[trigger]
            act_all(pose.factors() + inverse_of(pose.factors()), t, p) == p,
        matrix_of(inverse_of(pose.factors()), t).product(matrix_of(pose.factors(), t))
            == Mat4::identity(),
        matrix_of(pose.factors(), t).product(matrix_of(inverse_of(pose.factors()), t))
            == Mat4::identity(),
{
    lemma_reversible_factors(pose);
    lemma_matrix_of_concat(inverse_of(pose.factors()), pose.factors(), t);
    lemma_matrix_of_concat(pose.factors(), inverse_of(pose.factors()), t);
    assert forall|p: Point4| #[trigger]
        act_all(inverse_of(pose.factors()) + pose.factors(), t, p) == p by {
        lemma_inverse_cancels(pose.factors(), t, p);
    }
    assert forall|p: Point4| #[trigger]
        act_all(pose.factors() + inverse_of(pose.factors()), t, p) == p by {
        lemma_inverse_cancels(pose.factors(), t, p);
    }
}

/// Where the scale factor of an axis is zero, the transform of the pose
/// sends the basis point of that axis to the point of all zeros.
pub proof fn lemma_zero_column(pose: TransformationMatrix, t: Trig, axis: int)
    requires
        axis == 0 && pose.scale.x == 0 || axis == 1 && pose.scale.y == 0 || axis == 2
            && pose.scale.z == 0,
    ensures
        act_all(pose.factors(), t, Point4::basis(axis)) == Point4::origin(),
{
    let e = Point4::basis(axis);
    lemma_scalar_zero(0);
    lemma_pose_acts(pose, t, e);
    lemma_mul_zero_one(scalar(pose.scale.x), e.x);
    lemma_mul_zero_one(scalar(pose.scale.y), e.y);
    lemma_mul_zero_one(scalar(pose.scale.z), e.z);
    assert(scale(pose.scale, e) == Point4::origin());
    lemma_origin_stays(t, pose.position, pose.orientation.z);
    lemma_origin_stays(t, pose.position, pose.orientation.y);
    lemma_origin_stays(t, pose.position, pose.orientation.x);
}

/// The transform of a pose with a zero scale factor is singular: the
/// matrix has a column of zeros.
pub proof fn lemma_zero_scale_is_singular(pose: TransformationMatrix, t: Trig)
    requires
        !pose.invertible(),
    ensures
        ({
            let m = matrix_of(pose.factors(), t);
            m.c0 == Point4::origin() || m.c1 == Point4::origin() || m.c2 == Point4::origin()
        }),
{
    if pose.scale.x == 0 {
        lemma_zero_column(pose, t, 0);
    } else if pose.scale.y == 0 {
        lemma_zero_column(pose, t, 1);
    } else {
        lemma_zero_column(pose, t, 2);
    }
}

/// Moving a pose by a displacement and then by its opposite gives back
/// the pose, and with it the transform, as long as the first move stays
/// inside the range of positions.
pub proof fn lemma_translate_round_trip(pose: TransformationMatrix, delta: Vec3, back: Vec3)
    requires
        back.is_opposite_of(delta),
        pose.position.fits_with(delta),
    ensures
        pose.translated(delta).translated(back) == pose,
        pose.translated(delta).translated(back).factors() == pose.factors(),
{
    lemma_plus_opposite(pose.position, delta, back);
}

/// Moving a pose moves what it places, along the axes of the world: the
/// transform of the moved pose is the transform of the pose followed by
/// the translation, as long as the new position stays inside the range.
pub proof fn lemma_translate_is_in_world_space(
    pose: TransformationMatrix,
    delta: Vec3,
    t: Trig,
    p: Point4,
)
    requires
        pose.position.fits_with(delta),
    ensures
        act_all(pose.translated(delta).factors(), t, p) == translate(
            delta,
            act_all(pose.factors(), t, p),
        ),
{
    lemma_pose_acts(pose, t, p);
    lemma_pose_acts(pose.translated(delta), t, p);
    let turned = rotate_x(
        t,
        pose.orientation.x,
        rotate_y(t, pose.orientation.y, rotate_z(t, pose.orientation.z, scale(pose.scale, p))),
    );
    lemma_translate_sum(pose.position, delta, turned);
}

} // verus!
