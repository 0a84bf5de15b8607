use planet_shading::color::Color;
use planet_shading::linalg::{Mat4, Vec2, Vec3};
use planet_shading::noise::ConstantNoise;
use planet_shading::transform::vertex_shader;
use planet_shading::types::{CelestialBody, Uniforms, Vertex};

fn uniforms_with(model: Mat4, view: Mat4, projection: Mat4, viewport: Mat4) -> Uniforms<ConstantNoise> {
    Uniforms {
        model_matrix: model,
        view_matrix: view,
        projection_matrix: projection,
        viewport_matrix: viewport,
        time: 0,
        noise: ConstantNoise::new(0),
        current_body: CelestialBody::Sun,
    }
}

fn sample_vertex(position: Vec3, normal: Vec3) -> Vertex {
    Vertex::new(position, normal, Vec2::new(250, 750), Color::new(10, 20, 30))
}

#[test]
fn identity_matrices_keep_the_position() {
    let u = uniforms_with(Mat4::identity(), Mat4::identity(), Mat4::identity(), Mat4::identity());
    let v = sample_vertex(Vec3::new(1234, -500, 250000), Vec3::new(0, 1000, 0));
    let t = vertex_shader(&v, &u);
    assert_eq!(t.transformed_position, v.position);
}

#[test]
fn transform_returns_a_fresh_vertex_with_original_fields() {
    let u = uniforms_with(Mat4::identity(), Mat4::identity(), Mat4::identity(), Mat4::identity());
    let v = sample_vertex(Vec3::new(1, 2, 3), Vec3::new(577, 577, 577));
    let t = vertex_shader(&v, &u);
    assert_eq!(t.position, v.position);
    assert_eq!(t.normal, v.normal);
    assert_eq!(t.tex_coords, v.tex_coords);
    assert_eq!(t.color, v.color);
}

#[test]
fn perspective_divide_by_w_two_halves_the_point() {
    // A projection whose bottom row makes w = 2 for any w = 1 input point.
    let mut projection = Mat4::identity();
    projection.m33 = 2000;
    let u = uniforms_with(Mat4::identity(), Mat4::identity(), projection, Mat4::identity());
    let v = sample_vertex(Vec3::new(2000, 4000, 6000), Vec3::new(0, 0, 1000));
    let t = vertex_shader(&v, &u);
    assert_eq!(t.transformed_position, Vec3::new(1000, 2000, 3000));
}

#[test]
fn singular_model_block_passes_the_normal_through() {
    let mut model = Mat4::identity();
    model.m00 = 0;
    model.m11 = 0;
    model.m22 = 0;
    let u = uniforms_with(model, Mat4::identity(), Mat4::identity(), Mat4::identity());
    let normal = Vec3::new(123, 456, 789);
    let v = sample_vertex(Vec3::new(1000, 2000, 3000), normal);
    let t = vertex_shader(&v, &u);
    assert_eq!(t.transformed_normal, normal);
}

#[test]
fn invertible_model_reorients_the_normal() {
    // A uniform scale by 2: the inverse-transpose scales normals by 0.5.
    let mut model = Mat4::identity();
    model.m00 = 2000;
    model.m11 = 2000;
    model.m22 = 2000;
    let u = uniforms_with(model, Mat4::identity(), Mat4::identity(), Mat4::identity());
    let v = sample_vertex(Vec3::new(0, 0, 0), Vec3::new(1000, -500, 250));
    let t = vertex_shader(&v, &u);
    assert_eq!(t.transformed_normal, Vec3::new(500, -250, 125));
}

#[test]
fn zero_w_skips_the_divide() {
    // A projection with a zero bottom row produces w = 0; the divide is
    // skipped and the clip components pass through to the viewport stage.
    let mut projection = Mat4::identity();
    projection.m33 = 0;
    let u = uniforms_with(Mat4::identity(), Mat4::identity(), projection, Mat4::identity());
    let v = sample_vertex(Vec3::new(7000, -8000, 9000), Vec3::new(0, 0, 1000));
    let t = vertex_shader(&v, &u);
    assert_eq!(t.transformed_position, Vec3::new(7000, -8000, 9000));
}
