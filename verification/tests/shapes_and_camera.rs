use particle_render::aspect_of;
use particle_render::fp_mul;
use particle_render::hash_file;
use particle_render::Camera;
use particle_render::CameraUniform;
use particle_render::Pentagon;
use particle_render::Quad;
use particle_render::Shader;
use particle_render::Vec3Fp;
use particle_render::FP_ONE;

#[test]
fn quad_template_is_the_unit_square() {
    let v = Quad::vertices();
    assert_eq!(v.len(), 4);
    assert_eq!(v[0].position, Vec3Fp { x: -500_000, y: -500_000, z: 0 });
    assert_eq!(v[2].position, Vec3Fp { x: 500_000, y: 500_000, z: 0 });
    let ix = Quad::indices();
    assert_eq!(ix, vec![0, 1, 3, 1, 2, 3]);
    assert_eq!(Quad::draw_index_count(), 6);
}

#[test]
fn pentagon_draw_count_excludes_the_padding_index() {
    let ix = Pentagon::indices();
    assert_eq!(ix.len(), 10);
    assert_eq!(*ix.last().unwrap(), 0, "padding entry duplicates index 0");
    assert_eq!(Pentagon::draw_index_count(), 9);
    assert_eq!(Pentagon::vertices().len(), 5);
}

#[test]
fn scaling_by_two_doubles_every_quad_coordinate() {
    let template = Quad::vertices();
    let scaled = Quad::scale(2 * FP_ONE, FP_ONE);
    assert_eq!(scaled.len(), template.len());
    for (s, o) in scaled.iter().zip(template.iter()) {
        assert_eq!(s.position.x, 2 * o.position.x);
        assert_eq!(s.position.y, 2 * o.position.y);
        assert_eq!(s.position.z, 2 * o.position.z);
        assert_eq!(s.tex_coords, o.tex_coords);
    }
}

#[test]
fn scaling_never_mutates_the_template() {
    let before = Quad::vertices();
    let first = Quad::scale(2 * FP_ONE, FP_ONE);
    let second = Quad::scale(2 * FP_ONE, FP_ONE);
    assert_eq!(Quad::vertices(), before, "template constants changed");
    assert_eq!(first, second, "repeated scaling diverged");
    let p_first = Pentagon::scale(3 * FP_ONE, FP_ONE / 2);
    let p_second = Pentagon::scale(3 * FP_ONE, FP_ONE / 2);
    assert_eq!(p_first, p_second);
}

#[test]
fn scale_applies_aspect_to_x_only() {
    let scaled = Quad::scale(FP_ONE, 2 * FP_ONE);
    assert_eq!(scaled[0].position, Vec3Fp { x: -FP_ONE, y: -500_000, z: 0 });
    assert_eq!(scaled[2].position, Vec3Fp { x: FP_ONE, y: 500_000, z: 0 });
}

#[test]
fn fixed_point_product_rounds_toward_zero() {
    assert_eq!(fp_mul(FP_ONE, FP_ONE), FP_ONE);
    assert_eq!(fp_mul(1_500_000, 500_000), 750_000);
    assert_eq!(fp_mul(-1_500_000, 500_000), -750_000);
    assert_eq!(fp_mul(1, 1), 0);
    assert_eq!(fp_mul(-1, 1), 0);
}

#[test]
fn view_projection_is_deterministic() {
    let camera = Camera {
        aspect: FP_ONE,
        eye: Vec3Fp { x: 0, y: 0, z: 4 * FP_ONE },
        target: Vec3Fp { x: 0, y: 0, z: 0 },
        up: Vec3Fp { x: 0, y: FP_ONE, z: 0 },
        fovy: 90 * FP_ONE,
        znear: 100_000,
        zfar: 100 * FP_ONE,
    };
    let first = camera.build_view_projection_matrix();
    let second = camera.build_view_projection_matrix();
    assert_eq!(first, second);
    // 90 degrees is pi/2 radians: 1.570796 in millionths, rounded
    // toward zero from 90 * 3.141593 / 180.
    assert_eq!(first.fovy_radians, 1_570_796);
    assert_eq!(first.aspect, FP_ONE);
    assert_eq!(first.eye, camera.eye);
}

#[test]
fn camera_uniform_tracks_the_last_synchronization() {
    let mut uniform = CameraUniform::new();
    assert!(uniform.view_projection.is_none(), "fresh uniform is the identity");
    let camera = Camera::default();
    uniform.update_view_projection(&camera);
    assert_eq!(uniform.view_projection, Some(camera.build_view_projection_matrix()));
    let mut again = CameraUniform::new();
    again.update_view_projection(&camera);
    assert_eq!(uniform, again);
}

#[test]
fn default_camera_matches_the_documented_values() {
    let c = Camera::default();
    assert_eq!(c.aspect, aspect_of(16, 9));
    assert_eq!(c.eye, Vec3Fp { x: 0, y: 0, z: 4 * FP_ONE });
    assert_eq!(c.fovy, 90 * FP_ONE);
    assert_eq!(c.znear, 100_000);
    assert_eq!(c.zfar, 100 * FP_ONE);
}

#[test]
fn aspect_ratio_is_width_over_height() {
    assert_eq!(aspect_of(16, 9), 1_777_777);
    assert_eq!(aspect_of(1, 1), FP_ONE);
    assert_eq!(aspect_of(1920, 1080), 1_777_777);
    assert_eq!(aspect_of(800, 600), 1_333_333);
}

#[test]
fn equal_content_hashes_equal() {
    let a = String::from("fn vs_main() {}");
    let b = String::from("fn vs_main() {}");
    let c = String::from("fn fs_main() {}");
    assert_eq!(hash_file(&a), hash_file(&b));
    assert_ne!(hash_file(&a), hash_file(&c), "distinct sources collided");
}

#[test]
fn shader_recompiles_only_on_content_change() {
    let first_text = String::from("@vertex fn vs_main() {}");
    let changed = String::from("@vertex fn vs_main() { /* edited */ }");
    let mut shader = Shader::new(first_text.clone());
    assert_eq!(shader.source, first_text);
    let hash_before = shader.last_hash;

    // Unchanged content: the cached source and hash stay.
    let src = shader.get_source(first_text.clone()).clone();
    assert_eq!(src, first_text);
    assert_eq!(shader.last_hash, hash_before);

    // Changed content: the source is replaced and the hash follows.
    let src = shader.get_source(changed.clone()).clone();
    assert_eq!(src, changed);
    assert_ne!(shader.last_hash, hash_before);

    // The changed content handed in again: cached, no replacement.
    let src = shader.get_source(changed.clone()).clone();
    assert_eq!(src, changed);
    assert_eq!(shader.source, changed);
}
