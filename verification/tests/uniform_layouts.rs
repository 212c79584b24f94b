use embed_wgpu_lib::geometry::Rot2;
use embed_wgpu_lib::uniforms::{
    create_ortho_project_matrix, create_rotation_matrix, ActionMatrix, Color4, FeathersUniform,
    FourGradient,
};

#[test]
fn rotation_record_places_angle_matrix_and_padding() {
    let angle: f32 = 0.4;
    let (s, c) = angle.sin_cos();
    let record: ActionMatrix =
        create_rotation_matrix(angle.to_bits(), Rot2 { cos: c.to_bits(), sin: s.to_bits() });
    let words = record.to_words();
    assert_eq!(words.len(), 16);
    assert_eq!(words[0], angle.to_bits());
    let expected_mat: [f32; 9] = [c, 0.0, -s, 0.0, 1.0, 0.0, s, 0.0, c];
    for i in 0..9 {
        assert_eq!(words[1 + i], expected_mat[i].to_bits(), "matrix word {} differs", i);
    }
    for i in 10..16 {
        assert_eq!(words[i], 0);
    }
}

#[test]
fn rotation_record_matches_reference_rotation() {
    // The record holds the column-major matrix of a rotation about the y
    // axis, as the reference linear-algebra crate computes it.
    let angle: f32 = 0.4;
    let (s, c) = angle.sin_cos();
    let record = create_rotation_matrix(angle.to_bits(), Rot2 { cos: c.to_bits(), sin: s.to_bits() });
    let words = record.to_words();

    let y_axis = nalgebra::Vector3::y_axis();
    let reference = nalgebra::Rotation3::from_axis_angle(&y_axis, angle);
    let mat = nalgebra::Matrix3::from(reference);
    let slice = mat.as_slice();
    for i in 0..9 {
        let ours = f32::from_bits(words[1 + i]);
        assert!((ours - slice[i]).abs() < 1e-6, "entry {}: {} vs {}", i, ours, slice[i]);
    }
}

#[test]
fn feather_initial_words() {
    let feather = FeathersUniform::initial();
    let words = feather.to_words();
    assert_eq!(words.len(), 8);
    assert_eq!(words[0], 0.0f32.to_bits());
    assert_eq!(words[1], 0.0f32.to_bits());
    assert_eq!(words[2], 0.5f32.to_bits());
    assert_eq!(words[3], 0.1f32.to_bits());
    assert_eq!(words[4], 0.0f32.to_bits());
    assert_eq!(words[5], 1.0f32.to_bits());
    assert_eq!(words[6], 0.0f32.to_bits());
    assert_eq!(words[7], 1.0f32.to_bits());
}

#[test]
fn ortho_matrix_scales_x_by_inverse_aspect() {
    let width: f32 = 800.0;
    let height: f32 = 600.0;
    let inv_aspect = (height / width).to_bits();
    let words = create_ortho_project_matrix(inv_aspect);
    assert_eq!(words.len(), 16);
    assert_eq!(words[0], 0.75f32.to_bits());
    assert_eq!(words[5], 1.0f32.to_bits());
    assert_eq!(words[10], (-0.5f32).to_bits());
    assert_eq!(words[14], 0.5f32.to_bits());
    assert_eq!(words[15], 1.0f32.to_bits());

    // Cross-check the x scale against the reference orthographic matrix of
    // the symmetric view volume for that aspect ratio.
    let aspect = width / height;
    let reference = glam::Mat4::orthographic_rh(-aspect, aspect, -1.0, 1.0, -1.0, 1.0);
    let ours = f32::from_bits(words[0]);
    assert!((ours - reference.x_axis.x).abs() < 1e-6);
}

#[test]
fn four_gradient_flattens_points_with_padding() {
    let g = FourGradient::random_four_points();
    let u = g.to_uniform();
    let expected_points: [f32; 16] = [
        -0.8, 0.8, 0.0, 0.0, 0.4, 0.9, 0.0, 0.0, 0.8, -0.4, 0.0, 0.0, -0.7, -0.7, 0.0, 0.0,
    ];
    for i in 0..16 {
        assert_eq!(u.points[i], expected_points[i].to_bits(), "point word {} differs", i);
    }
    let expected_colors: [f32; 16] = [
        1.0, 0.0, 0.0, 1.0, 0.0, 1.0, 0.0, 1.0, 0.0, 0.0, 1.0, 1.0, 1.0, 1.0, 1.0, 1.0,
    ];
    for i in 0..16 {
        assert_eq!(u.point_colors[i], expected_colors[i].to_bits(), "color word {} differs", i);
    }
}

#[test]
fn four_gradient_to_uniform_keeps_channel_order() {
    let g = FourGradient {
        points: [
            embed_wgpu_lib::geometry::Point3 { x: 1, y: 2, z: 3 },
            embed_wgpu_lib::geometry::Point3 { x: 4, y: 5, z: 6 },
            embed_wgpu_lib::geometry::Point3 { x: 7, y: 8, z: 9 },
            embed_wgpu_lib::geometry::Point3 { x: 10, y: 11, z: 12 },
        ],
        point_colors: [
            Color4 { r: 20, g: 21, b: 22, a: 23 },
            Color4 { r: 24, g: 25, b: 26, a: 27 },
            Color4 { r: 28, g: 29, b: 30, a: 31 },
            Color4 { r: 32, g: 33, b: 34, a: 35 },
        ],
    };
    let u = g.to_uniform();
    assert_eq!(u.points, [1, 2, 3, 0, 4, 5, 6, 0, 7, 8, 9, 0, 10, 11, 12, 0]);
    assert_eq!(u.point_colors, [20, 21, 22, 23, 24, 25, 26, 27, 28, 29, 30, 31, 32, 33, 34, 35]);
}
