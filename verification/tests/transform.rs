use cgmath::{Deg, Matrix, Matrix4, SquareMatrix, Vector3};
use render_core::{
    extend_product, invert_product, saturating_sum, Camera, Elementary, Factor, Projection,
    RenderError, TransformationMatrix, Vec3, UNIT,
};

const TOLERANCE: f32 = 1e-5;

fn number(value: i64) -> f32 {
    value as f32 / UNIT as f32
}

fn clip_space_correction() -> Matrix4<f32> {
    Matrix4::new(
        1.0, 0.0, 0.0, 0.0, 0.0, 1.0, 0.0, 0.0, 0.0, 0.0, 0.5, 0.0, 0.0, 0.0, 0.5, 1.0,
    )
}

fn elementary(e: &Elementary) -> Matrix4<f32> {
    match e {
        Elementary::Translate(d) => {
            Matrix4::from_translation(Vector3::new(number(d.x), number(d.y), number(d.z)))
        }
        Elementary::RotateX(a) => Matrix4::from_angle_x(Deg(number(*a))),
        Elementary::RotateY(a) => Matrix4::from_angle_y(Deg(number(*a))),
        Elementary::RotateZ(a) => Matrix4::from_angle_z(Deg(number(*a))),
        Elementary::Scale(s) => {
            Matrix4::from_nonuniform_scale(number(s.x), number(s.y), number(s.z))
        }
    }
}

fn undone(e: &Elementary) -> Matrix4<f32> {
    match e {
        Elementary::Translate(d) => {
            Matrix4::from_translation(Vector3::new(-number(d.x), -number(d.y), -number(d.z)))
        }
        Elementary::RotateX(_) | Elementary::RotateY(_) | Elementary::RotateZ(_) => {
            elementary(e).transpose()
        }
        Elementary::Scale(s) => Matrix4::from_nonuniform_scale(
            1.0 / number(s.x),
            1.0 / number(s.y),
            1.0 / number(s.z),
        ),
    }
}

fn factor(f: &Factor) -> Matrix4<f32> {
    match f {
        Factor::ClipSpace => clip_space_correction(),
        Factor::Perspective(p) => cgmath::perspective(
            Deg(number(p.fovy)),
            p.aspect_width as f32 / p.aspect_height as f32,
            number(p.near),
            number(p.far),
        ),
        Factor::Apply(e) => elementary(e),
        Factor::Undo(e) => undone(e),
    }
}

fn evaluate(factors: &[Factor]) -> Matrix4<f32> {
    let mut product = Matrix4::identity();
    for f in factors {
        product = product * factor(f);
    }
    product
}

fn entries(m: &Matrix4<f32>) -> [[f32; 4]; 4] {
    [
        [m.x.x, m.x.y, m.x.z, m.x.w],
        [m.y.x, m.y.y, m.y.z, m.y.w],
        [m.z.x, m.z.y, m.z.z, m.z.w],
        [m.w.x, m.w.y, m.w.z, m.w.w],
    ]
}

fn largest_difference(a: &Matrix4<f32>, b: &Matrix4<f32>) -> f32 {
    let a = entries(a);
    let b = entries(b);
    let mut largest = 0.0f32;
    for column in 0..4 {
        for row in 0..4 {
            let difference = (a[column][row] - b[column][row]).abs();
            if difference > largest {
                largest = difference;
            }
        }
    }
    largest
}

fn sample_projection() -> Projection {
    Projection::new(90 * UNIT, 16, 9, 100, 10 * UNIT)
}

#[test]
fn saturating_sum_adds_inside_the_range() {
    assert_eq!(saturating_sum(2, 3), 5);
    assert_eq!(saturating_sum(-2_000, 500), -1_500);
    assert_eq!(saturating_sum(i64::MAX, 0), i64::MAX);
    assert_eq!(saturating_sum(i64::MIN, i64::MAX), -1);
}

#[test]
fn saturating_sum_stops_at_the_ends() {
    assert_eq!(saturating_sum(i64::MAX, 1), i64::MAX);
    assert_eq!(saturating_sum(i64::MAX - 5, 10), i64::MAX);
    assert_eq!(saturating_sum(i64::MIN, -1), i64::MIN);
    assert_eq!(saturating_sum(i64::MIN + 5, -10), i64::MIN);
}

#[test]
fn vector_constructors() {
    assert_eq!(Vec3::new(1, -2, 3), Vec3 { x: 1, y: -2, z: 3 });
    assert_eq!(Vec3::zero(), Vec3 { x: 0, y: 0, z: 0 });
    assert_eq!(Vec3::splat(7), Vec3 { x: 7, y: 7, z: 7 });
    assert!(Vec3::new(1, -1, 5).is_all_nonzero());
    assert!(!Vec3::new(1, 0, 5).is_all_nonzero());
}

#[test]
fn vector_sum_saturates_each_component() {
    let sum = Vec3::new(i64::MAX, -5, i64::MIN).saturating_add(Vec3::new(1, 8, -1));
    assert_eq!(sum, Vec3 { x: i64::MAX, y: 3, z: i64::MIN });
}

#[test]
fn new_pose_has_scale_one() {
    let pose = TransformationMatrix::new(Vec3::new(1, 2, 3), 10, 20, 30);
    assert_eq!(pose.position, Vec3::new(1, 2, 3));
    assert_eq!(pose.orientation, Vec3::new(10, 20, 30));
    assert_eq!(pose.scale, Vec3::splat(UNIT));
    assert!(pose.is_invertible());
}

#[test]
fn pose_with_scale_keeps_what_it_is_given() {
    let pose = TransformationMatrix::with_scale(
        Vec3::new(1, 2, 3),
        Vec3::new(4, 5, 6),
        Vec3::new(7, 8, 9),
    );
    assert_eq!(pose.position, Vec3::new(1, 2, 3));
    assert_eq!(pose.orientation, Vec3::new(4, 5, 6));
    assert_eq!(pose.scale, Vec3::new(7, 8, 9));
}

#[test]
fn transformation_matrix_is_translate_rotate_scale() {
    let pose = TransformationMatrix::with_scale(
        Vec3::new(1, 2, 3),
        Vec3::new(4, 5, 6),
        Vec3::new(7, 8, 9),
    );
    assert_eq!(
        pose.compute_transformation_matrix(),
        vec![
            Factor::Apply(Elementary::Translate(Vec3::new(1, 2, 3))),
            Factor::Apply(Elementary::RotateX(4)),
            Factor::Apply(Elementary::RotateY(5)),
            Factor::Apply(Elementary::RotateZ(6)),
            Factor::Apply(Elementary::Scale(Vec3::new(7, 8, 9))),
        ]
    );
}

#[test]
fn inverse_matrix_is_reversed_and_undone() {
    let pose = TransformationMatrix::with_scale(
        Vec3::new(1, 2, 3),
        Vec3::new(4, 5, 6),
        Vec3::new(7, 8, 9),
    );
    assert_eq!(
        pose.compute_inverse_matrix(),
        Ok(vec![
            Factor::Undo(Elementary::Scale(Vec3::new(7, 8, 9))),
            Factor::Undo(Elementary::RotateZ(6)),
            Factor::Undo(Elementary::RotateY(5)),
            Factor::Undo(Elementary::RotateX(4)),
            Factor::Undo(Elementary::Translate(Vec3::new(1, 2, 3))),
        ])
    );
}

#[test]
fn zero_scale_has_no_inverse() {
    for scale in [Vec3::new(0, 5, 5), Vec3::new(5, 0, 5), Vec3::new(5, 5, 0), Vec3::zero()] {
        let pose = TransformationMatrix::with_scale(Vec3::zero(), Vec3::zero(), scale);
        assert!(!pose.is_invertible());
        assert_eq!(pose.compute_inverse_matrix(), Err(RenderError::NonInvertiblePose));
        assert!(evaluate(&pose.compute_transformation_matrix()).invert().is_none());
    }
}

#[test]
fn invert_product_flips_each_factor() {
    let product = vec![
        Factor::Apply(Elementary::RotateY(30 * UNIT)),
        Factor::Undo(Elementary::Translate(Vec3::new(1, 2, 3))),
    ];
    assert_eq!(
        invert_product(&product),
        Some(vec![
            Factor::Apply(Elementary::Translate(Vec3::new(1, 2, 3))),
            Factor::Undo(Elementary::RotateY(30 * UNIT)),
        ])
    );
    assert_eq!(invert_product(&Vec::new()), Some(Vec::new()));
}

#[test]
fn invert_product_refuses_what_has_no_inverse() {
    assert_eq!(invert_product(&vec![Factor::ClipSpace]), None);
    assert_eq!(invert_product(&vec![Factor::Perspective(sample_projection())]), None);
    let zero = Elementary::Scale(Vec3::new(UNIT, 0, UNIT));
    assert_eq!(invert_product(&vec![Factor::Apply(zero)]), None);
    assert_eq!(invert_product(&vec![Factor::Undo(zero)]), None);
    assert_eq!(
        invert_product(&vec![Factor::Apply(Elementary::RotateX(5)), Factor::ClipSpace]),
        None
    );
    assert_eq!(Factor::ClipSpace.invert(), None);
    assert_eq!(
        Factor::Apply(Elementary::RotateZ(9)).invert(),
        Some(Factor::Undo(Elementary::RotateZ(9)))
    );
    assert!(!zero.is_reversible());
    assert!(Elementary::Translate(Vec3::zero()).is_reversible());
}

#[test]
fn inverse_times_matrix_is_identity_for_nonzero_uniform_scale() {
    for scale in [UNIT, 2 * UNIT, UNIT / 4, -3 * UNIT] {
        let pose = TransformationMatrix::with_scale(
            Vec3::new(1_500, -2_000, 250),
            Vec3::new(30 * UNIT, 45 * UNIT, 60 * UNIT),
            Vec3::splat(scale),
        );
        let matrix = evaluate(&pose.compute_transformation_matrix());
        let inverse = evaluate(&pose.compute_inverse_matrix().unwrap());
        assert!(largest_difference(&(inverse * matrix), &Matrix4::identity()) < TOLERANCE);
        assert!(largest_difference(&(matrix * inverse), &Matrix4::identity()) < TOLERANCE);
        let by_determinant = matrix.invert().unwrap();
        assert!(largest_difference(&by_determinant, &inverse) < 1e-4);
    }
}

#[test]
fn rotation_order_is_fixed() {
    let quarter = 90 * UNIT;
    let x_then_y = [
        Factor::Apply(Elementary::RotateX(quarter)),
        Factor::Apply(Elementary::RotateY(quarter)),
    ];
    let y_then_x = [
        Factor::Apply(Elementary::RotateY(quarter)),
        Factor::Apply(Elementary::RotateX(quarter)),
    ];
    assert!(largest_difference(&evaluate(&x_then_y), &evaluate(&y_then_x)) > 0.5);

    let mut pose = TransformationMatrix::identity();
    pose.rotate(Vec3::new(quarter, 0, 0));
    pose.rotate(Vec3::new(0, quarter, 0));
    assert_eq!(pose.orientation, Vec3::new(quarter, quarter, 0));
    let product = pose.compute_transformation_matrix();
    assert_eq!(product[1], Factor::Apply(Elementary::RotateX(quarter)));
    assert_eq!(product[2], Factor::Apply(Elementary::RotateY(quarter)));
    assert_eq!(product[3], Factor::Apply(Elementary::RotateZ(0)));
    let matrix = evaluate(&product);
    assert!(largest_difference(&matrix, &evaluate(&x_then_y)) < TOLERANCE);
    assert!(largest_difference(&matrix, &evaluate(&y_then_x)) > 0.5);
}

#[test]
fn rotation_about_x_turns_y_towards_z() {
    let matrix = evaluate(&[Factor::Apply(Elementary::RotateX(90 * UNIT))]);
    let expected = Matrix4::new(
        1.0, 0.0, 0.0, 0.0, 0.0, 0.0, 1.0, 0.0, 0.0, -1.0, 0.0, 0.0, 0.0, 0.0, 0.0, 1.0,
    );
    assert!(largest_difference(&matrix, &expected) < TOLERANCE);
}

#[test]
fn identity_pose_gives_the_identity_matrix_exactly() {
    let pose = TransformationMatrix::identity();
    assert_eq!(pose, TransformationMatrix::new(Vec3::zero(), 0, 0, 0));
    assert_eq!(pose.position, Vec3::zero());
    assert_eq!(pose.orientation, Vec3::zero());
    assert_eq!(pose.scale, Vec3::splat(UNIT));
    let matrix = evaluate(&pose.compute_transformation_matrix());
    assert_eq!(entries(&matrix), entries(&Matrix4::identity()));
    let inverse = evaluate(&pose.compute_inverse_matrix().unwrap());
    assert_eq!(entries(&inverse), entries(&Matrix4::identity()));
}

#[test]
fn scale_first_then_rotate_then_translate() {
    let pose = TransformationMatrix::with_scale(
        Vec3::new(5 * UNIT, 0, 0),
        Vec3::new(0, 0, 90 * UNIT),
        Vec3::new(2 * UNIT, UNIT, UNIT),
    );
    let matrix = evaluate(&pose.compute_transformation_matrix());
    let image = matrix * cgmath::Vector4::new(1.0, 0.0, 0.0, 1.0);
    assert!((image.x - 5.0).abs() < TOLERANCE);
    assert!((image.y - 2.0).abs() < TOLERANCE);
    assert!(image.z.abs() < TOLERANCE);
    assert!((image.w - 1.0).abs() < TOLERANCE);
}

#[test]
fn translate_then_back_returns_the_matrix() {
    let start = TransformationMatrix::with_scale(
        Vec3::new(1_500, -2_000, 250),
        Vec3::new(30 * UNIT, 45 * UNIT, 60 * UNIT),
        Vec3::splat(2 * UNIT),
    );
    let v = Vec3::new(7_250, -31, i64::MAX / 2);
    let mut pose = start;
    pose.translate(v);
    assert_eq!(pose.position, Vec3::new(8_750, -2_031, i64::MAX / 2 + 250));
    assert_ne!(pose.compute_transformation_matrix(), start.compute_transformation_matrix());
    pose.translate(Vec3::new(-v.x, -v.y, -v.z));
    assert_eq!(pose, start);
    assert_eq!(pose.compute_transformation_matrix(), start.compute_transformation_matrix());
    assert_eq!(
        entries(&evaluate(&pose.compute_transformation_matrix())),
        entries(&evaluate(&start.compute_transformation_matrix()))
    );
}

#[test]
fn translate_saturates_at_the_end_of_the_range() {
    let mut pose = TransformationMatrix::new(Vec3::new(i64::MAX - 1, 0, 0), 0, 0, 0);
    pose.translate(Vec3::new(10, 0, 0));
    assert_eq!(pose.position, Vec3::new(i64::MAX, 0, 0));
    pose.translate(Vec3::new(-10, 0, 0));
    assert_eq!(pose.position, Vec3::new(i64::MAX - 10, 0, 0));
}

#[test]
fn rotate_and_rescale_add_component_wise() {
    let mut pose = TransformationMatrix::new(Vec3::new(1, 2, 3), 10, 20, 30);
    pose.rotate(Vec3::new(1, -2, 3));
    assert_eq!(pose.orientation, Vec3::new(11, 18, 33));
    pose.rescale(Vec3::new(500, -1_000, 0));
    assert_eq!(pose.scale, Vec3::new(1_500, 0, 1_000));
    assert_eq!(pose.position, Vec3::new(1, 2, 3));
    assert!(!pose.is_invertible());
}

#[test]
fn transform_moves_and_turns_a_copy() {
    let pose = TransformationMatrix::new(Vec3::new(1, 2, 3), 10, 20, 30);
    let moved = pose.transform(Vec3::new(UNIT, 0, -3), 1, 2, 3);
    assert_eq!(moved.position, Vec3::new(UNIT + 1, 2, 0));
    assert_eq!(moved.orientation, Vec3::new(11, 22, 33));
    assert_eq!(moved.scale, Vec3::splat(UNIT));
    assert_eq!(pose, TransformationMatrix::new(Vec3::new(1, 2, 3), 10, 20, 30));
}

#[test]
fn projection_tells_a_frustum() {
    assert!(sample_projection().is_frustum());
    assert!(!Projection::new(0, 16, 9, 100, 10_000).is_frustum());
    assert!(!Projection::new(180 * UNIT, 16, 9, 100, 10_000).is_frustum());
    assert!(Projection::new(180 * UNIT - 1, 16, 9, 100, 10_000).is_frustum());
    assert!(!Projection::new(90 * UNIT, 0, 9, 100, 10_000).is_frustum());
    assert!(!Projection::new(90 * UNIT, 16, 0, 100, 10_000).is_frustum());
    assert!(!Projection::new(90 * UNIT, 16, 9, 0, 10_000).is_frustum());
    assert!(!Projection::new(90 * UNIT, 16, 9, 100, -5).is_frustum());
    assert!(!Projection::new(90 * UNIT, 16, 9, 100, 100).is_frustum());
    assert_eq!(
        sample_projection().with_aspect(4, 3),
        Projection { fovy: 90 * UNIT, aspect_width: 4, aspect_height: 3, near: 100, far: 10_000 }
    );
}

#[test]
fn model_view_projection_is_clip_projection_view_model() {
    let model = TransformationMatrix::new(Vec3::new(1, 2, 3), 4, 5, 6);
    let view = TransformationMatrix::with_scale(
        Vec3::new(7, 8, 9),
        Vec3::new(10, 11, 12),
        Vec3::new(13, 14, 15),
    );
    let camera = Camera::new(model, view, sample_projection());
    assert_eq!(
        camera.build_model_view_projection_matrix(),
        Ok(vec![
            Factor::ClipSpace,
            Factor::Perspective(sample_projection()),
            Factor::Undo(Elementary::Scale(Vec3::new(13, 14, 15))),
            Factor::Undo(Elementary::RotateZ(12)),
            Factor::Undo(Elementary::RotateY(11)),
            Factor::Undo(Elementary::RotateX(10)),
            Factor::Undo(Elementary::Translate(Vec3::new(7, 8, 9))),
            Factor::Apply(Elementary::Translate(Vec3::new(1, 2, 3))),
            Factor::Apply(Elementary::RotateX(4)),
            Factor::Apply(Elementary::RotateY(5)),
            Factor::Apply(Elementary::RotateZ(6)),
            Factor::Apply(Elementary::Scale(Vec3::splat(UNIT))),
        ])
    );
}

#[test]
fn singular_view_pose_is_reported() {
    let model = TransformationMatrix::identity();
    let view = TransformationMatrix::with_scale(
        Vec3::new(0, 0, 2 * UNIT),
        Vec3::zero(),
        Vec3::new(UNIT, UNIT, 0),
    );
    let camera = Camera::new(model, view, sample_projection());
    assert_eq!(
        camera.build_model_view_projection_matrix(),
        Err(RenderError::NonInvertiblePose)
    );
    let singular_model = Camera::new(view, model, sample_projection());
    assert!(singular_model.build_model_view_projection_matrix().is_ok());
}

#[test]
fn view_equal_to_model_leaves_clip_times_projection() {
    let pose = TransformationMatrix::with_scale(
        Vec3::new(1_500, -2_000, 250),
        Vec3::new(30 * UNIT, 45 * UNIT, 60 * UNIT),
        Vec3::new(2 * UNIT, 3 * UNIT, UNIT / 2),
    );
    let camera = Camera::new(pose, pose, sample_projection());
    let product = camera.build_model_view_projection_matrix().unwrap();
    let expected =
        evaluate(&[Factor::ClipSpace, Factor::Perspective(sample_projection())]);
    assert!(largest_difference(&evaluate(&product), &expected) < TOLERANCE);
}

#[test]
fn set_projection_replaces_the_projection_only() {
    let model = TransformationMatrix::new(Vec3::new(1, 2, 3), 4, 5, 6);
    let view = TransformationMatrix::new(Vec3::new(0, 0, 2 * UNIT), 0, 0, 0);
    let mut camera = Camera::new(model, view, sample_projection());
    camera.set_projection(60 * UNIT, 1024, 768, 500, 20 * UNIT);
    assert_eq!(
        camera.projection,
        Projection {
            fovy: 60 * UNIT,
            aspect_width: 1024,
            aspect_height: 768,
            near: 500,
            far: 20 * UNIT
        }
    );
    assert_eq!(camera.model_transform, model);
    assert_eq!(camera.camera_transform, view);
}

#[test]
fn camera_two_units_back_looking_at_the_origin() {
    let model = TransformationMatrix::identity();
    let view = TransformationMatrix::new(Vec3::new(0, 0, 2 * UNIT), 0, 0, 0);
    let camera = Camera::new(model, view, Projection::new(90 * UNIT, 16, 9, 100, 10 * UNIT));
    let product = camera.build_model_view_projection_matrix().unwrap();
    let matrix = evaluate(&product);
    let expected = Matrix4::new(
        0.5625, 0.0, 0.0, 0.0,
        0.0, 1.0, 0.0, 0.0,
        0.0, 0.0, -1.010_101, -1.0,
        0.0, 0.0, 1.919_191_9, 2.0,
    );
    assert!(largest_difference(&matrix, &expected) < TOLERANCE);

    let origin = matrix * cgmath::Vector4::new(0.0, 0.0, 0.0, 1.0);
    assert!((origin.w - 2.0).abs() < TOLERANCE);
    assert!((origin.z / origin.w - 0.959_596).abs() < TOLERANCE);
}

#[test]
fn translation_moves_along_the_axes_of_the_world() {
    let mut pose = TransformationMatrix::with_scale(
        Vec3::new(0, 3 * UNIT, 0),
        Vec3::new(0, 0, 90 * UNIT),
        Vec3::splat(2 * UNIT),
    );
    let point = cgmath::Vector4::new(1.0, 0.0, 0.0, 1.0);
    let before = evaluate(&pose.compute_transformation_matrix()) * point;
    pose.translate(Vec3::new(UNIT, 0, -4 * UNIT));
    let after = evaluate(&pose.compute_transformation_matrix()) * point;
    assert!((before.x - 0.0).abs() < TOLERANCE);
    assert!((before.y - 5.0).abs() < TOLERANCE);
    assert!((after.x - (before.x + 1.0)).abs() < TOLERANCE);
    assert!((after.y - before.y).abs() < TOLERANCE);
    assert!((after.z - (before.z - 4.0)).abs() < TOLERANCE);
}

#[test]
fn extend_product_appends_in_order() {
    let mut product = vec![Factor::ClipSpace];
    extend_product(
        &mut product,
        &vec![Factor::Apply(Elementary::RotateX(1)), Factor::Undo(Elementary::RotateY(2))],
    );
    extend_product(&mut product, &Vec::new());
    assert_eq!(
        product,
        vec![
            Factor::ClipSpace,
            Factor::Apply(Elementary::RotateX(1)),
            Factor::Undo(Elementary::RotateY(2)),
        ]
    );
}

#[test]
fn clip_space_correction_halves_depth_and_adds_half_the_weight() {
    let corrected = evaluate(&[Factor::ClipSpace]) * cgmath::Vector4::new(3.0, 5.0, -1.0, 1.0);
    assert_eq!([corrected.x, corrected.y, corrected.z, corrected.w], [3.0, 5.0, 0.0, 1.0]);
    let far = evaluate(&[Factor::ClipSpace]) * cgmath::Vector4::new(0.0, 0.0, 4.0, 4.0);
    assert_eq!([far.x, far.y, far.z, far.w], [0.0, 0.0, 4.0, 4.0]);
}
