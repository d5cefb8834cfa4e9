//! The camera: a model pose, a view pose and a projection, composed into
//! the model-view-projection product.
use vstd::prelude::*;
use crate::error::RenderError;
use crate::factor::{
    act_all, extend_product, inverse_of, lemma_act_all_concat, lemma_matrix_of_concat, matrix_of,
    Factor,
};
use crate::projection::Projection;
use crate::space::{Point4, Trig};
use crate::transformation_matrix::{lemma_pose_inverse, TransformationMatrix};

verus! {

/// What is drawn, from where, and through which projection.
///
/// `camera_transform` is the pose of the camera in the world. The view
/// transform is its inverse: it expresses the world as seen from the
/// camera.
#[derive(Clone, Copy, Debug, PartialEq, Eq, Structural)]
pub struct Camera {
    pub model_transform: TransformationMatrix,
    pub camera_transform: TransformationMatrix,
    pub projection: Projection,
}

impl Camera {
    /// The clip-space correction times the projection.
    pub open spec fn projection_factors(self) -> Seq<Factor> {
        seq![Factor::ClipSpace, Factor::Perspective(self.projection)]
    }

    /// The model-view-projection product: clip-space correction, times
    /// projection, times the inverse of the camera pose, times the model
    /// pose.
    pub open spec fn model_view_projection(self) -> Seq<Factor> {
        self.projection_factors() + inverse_of(self.camera_transform.factors())
            + self.model_transform.factors()
    }

    pub fn new(
        model_transform: TransformationMatrix,
        camera_transform: TransformationMatrix,
        projection: Projection,
    ) -> (r: Camera)
        ensures
            r == (Camera { model_transform, camera_transform, projection }),
    {
        Camera { model_transform, camera_transform, projection }
    }

    /// The model-view-projection product, or `NonInvertiblePose` when the
    /// camera pose has a zero scale factor.
    pub fn build_model_view_projection_matrix(&self) -> (r: Result<Vec<Factor>, RenderError>)
        ensures
            r is Ok <==> self.camera_transform.invertible(),
            r matches Ok(product) ==> product@ == self.model_view_projection(),
            r matches Err(e) ==> e == RenderError::NonInvertiblePose,
    {
        let view = match self.camera_transform.compute_inverse_matrix() {
            Ok(view) => view,
            Err(e) => {
                return Err(e);
            },
        };
        let model = self.model_transform.compute_transformation_matrix();
        let mut product: Vec<Factor> = Vec::new();
        product.push(Factor::ClipSpace);
        product.push(Factor::Perspective(self.projection));
        assert(product@ =~= self.projection_factors());
        extend_product(&mut product, &view);
        extend_product(&mut product, &model);
        Ok(product)
    }

    /// Replaces the projection.
    pub fn set_projection(
        &mut self,
        fovy: i64,
        aspect_width: u32,
        aspect_height: u32,
        near: i64,
        far: i64,
    )
        ensures
            *final(self) == (Camera {
                projection: Projection { fovy, aspect_width, aspect_height, near, far },
                ..*old(self)
            }),
    {
        self.projection = Projection::new(fovy, aspect_width, aspect_height, near, far);
    }
}

/// When the camera stands exactly where the model stands, the model
/// transform cancels the view transform: the model-view-projection matrix
/// is the clip-space correction times the projection.
pub proof fn lemma_view_cancels_model(camera: Camera, t: Trig)
    requires
        t.wf(),
        camera.camera_transform == camera.model_transform,
        camera.camera_transform.invertible(),
    ensures
        forall|p: Point4| #[trigger]
            act_all(camera.model_view_projection(), t, p) == act_all(
                camera.projection_factors(),
                t,
                p,
            ),
        matrix_of(camera.model_view_projection(), t) == matrix_of(camera.projection_factors(), t),
        matrix_of(camera.projection_factors(), t) == matrix_of(seq![Factor::ClipSpace], t).product(
            matrix_of(seq![Factor::Perspective(camera.projection)], t),
        ),
{
    assert(camera.projection_factors() =~= seq![Factor::ClipSpace] + seq![
        Factor::Perspective(camera.projection),
    ]);
    lemma_matrix_of_concat(
        seq![Factor::ClipSpace],
        seq![Factor::Perspective(camera.projection)],
        t,
    );
    let pose = camera.model_transform;
    let view_model = inverse_of(pose.factors()) + pose.factors();
    assert(camera.model_view_projection() =~= camera.projection_factors() + view_model);
    lemma_pose_inverse(pose, t);
    assert forall|p: Point4| #[trigger]
        act_all(camera.model_view_projection(), t, p) == act_all(
            camera.projection_factors(),
            t,
            p,
        ) by {
        lemma_act_all_concat(camera.projection_factors(), view_model, t, p);
        assert(act_all(view_model, t, p) == p);
    }
}

/// The model-view-projection product acts as the projection after the
/// view after the model.
pub proof fn lemma_model_view_projection_acts(camera: Camera, t: Trig, p: Point4)
    ensures
        act_all(camera.model_view_projection(), t, p) == act_all(
            camera.projection_factors(),
            t,
            act_all(
                inverse_of(camera.camera_transform.factors()),
                t,
                act_all(camera.model_transform.factors(), t, p),
            ),
        ),
{
    let view = inverse_of(camera.camera_transform.factors());
    let model = camera.model_transform.factors();
    lemma_act_all_concat(camera.projection_factors() + view, model, t, p);
    lemma_act_all_concat(camera.projection_factors(), view, t, act_all(model, t, p));
}

} // verus!
