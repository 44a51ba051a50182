use particle_render::create_cube;
use particle_render::create_dense_rect;
use particle_render::create_grid;
use particle_render::create_len;
use particle_render::create_square;
use particle_render::Instance;
use particle_render::Vec3Fp;
use particle_render::FP_ONE;
use particle_render::PARTICLE_SIZE;

fn v3(x: i64, y: i64, z: i64) -> Vec3Fp {
    Vec3Fp { x, y, z }
}

#[test]
fn grid_len_is_width_times_height() {
    let r = create_grid((20, 20), (2, 2), v3(0, 0, 0));
    assert_eq!(r.len(), 400);
    let r = create_grid((7, 3), (2, 2), v3(0, 0, 0));
    assert_eq!(r.len(), 21);
    let r = create_grid((0, 5), (2, 2), v3(0, 0, 0));
    assert_eq!(r.len(), 0);
}

#[test]
fn square_len_is_width_times_height() {
    let r = create_square((4, 3), (8, 6), v3(0, 0, 0));
    assert_eq!(r.len(), 12);
    let r = create_square((1, 1), (2, 2), v3(0, 0, 0));
    assert_eq!(r.len(), 1);
    let r = create_square((5, 0), (2, 2), v3(0, 0, 0));
    assert_eq!(r.len(), 0);
}

#[test]
fn cube_len_is_width_times_height_times_depth() {
    let r = create_cube(0, (3, 4, 5), None, v3(0, 0, 0), None);
    assert_eq!(r.len(), 60);
    let r = create_cube(0, (2, 2, 2), None, v3(0, 0, 0), None);
    assert_eq!(r.len(), 8);
    let r = create_cube(0, (2, 0, 2), None, v3(0, 0, 0), None);
    assert_eq!(r.len(), 0);
}

#[test]
fn fixed_len_instances_hold_default_position_and_color() {
    let color = v3(FP_ONE, 0, FP_ONE / 2);
    let r = create_len(5, color);
    assert_eq!(r.len(), 5);
    for inst in &r {
        assert_eq!(inst.position, v3(0, 0, 0));
        assert_eq!(inst.color, color);
    }
    assert_eq!(create_len(0, color).len(), 0);
}

fn mean_x_and_y(r: &[Instance]) -> (f64, f64) {
    let n = r.len() as f64;
    let sx: f64 = r.iter().map(|i| i.position.x as f64).sum();
    let sy: f64 = r.iter().map(|i| i.position.y as f64).sum();
    (sx / n / FP_ONE as f64, sy / n / FP_ONE as f64)
}

#[test]
fn square_is_centered_on_the_offset() {
    let offset = v3(7 * FP_ONE, -5 * FP_ONE, 2 * FP_ONE);
    let r = create_square((4, 3), (8, 6), offset);
    let sx: i64 = r.iter().map(|i| i.position.x).sum();
    let sy: i64 = r.iter().map(|i| i.position.y).sum();
    assert_eq!(sx, r.len() as i64 * offset.x);
    assert_eq!(sy, r.len() as i64 * offset.y);
    let (mx, my) = mean_x_and_y(&r);
    assert!((mx - 7.0).abs() < 1e-9);
    assert!((my - -5.0).abs() < 1e-9);
}

#[test]
fn square_with_odd_step_is_still_centered_exactly() {
    let offset = v3(123_456, 654_321, 0);
    let r = create_square((7, 5), (3, 9), offset);
    let sx: i64 = r.iter().map(|i| i.position.x).sum();
    let sy: i64 = r.iter().map(|i| i.position.y).sum();
    assert_eq!(sx, 35 * offset.x);
    assert_eq!(sy, 35 * offset.y);
}

#[test]
fn cube_without_jitter_is_centered_on_the_offset() {
    let offset = v3(-FP_ONE, -FP_ONE, -2 * FP_ONE);
    let r = create_cube(0, (4, 3, 2), None, offset, None);
    let sx: i64 = r.iter().map(|i| i.position.x).sum();
    let sy: i64 = r.iter().map(|i| i.position.y).sum();
    assert_eq!(sx, r.len() as i64 * offset.x);
    assert_eq!(sy, r.len() as i64 * offset.y);
    let (mx, my) = mean_x_and_y(&r);
    assert!((mx - -1.0).abs() < 1e-9);
    assert!((my - -1.0).abs() < 1e-9);
}

#[test]
fn grid_positions_step_evenly_from_the_offset() {
    // 2x2 cells over a 4x6 screen: steps of 2 and 3 units.
    let r = create_grid((2, 2), (4, 6), v3(FP_ONE, FP_ONE, 5));
    assert_eq!(r.len(), 4);
    assert_eq!(r[0].position, v3(FP_ONE, FP_ONE, 5));
    assert_eq!(r[1].position, v3(3 * FP_ONE, FP_ONE, 5));
    assert_eq!(r[2].position, v3(FP_ONE, 4 * FP_ONE, 5));
    assert_eq!(r[3].position, v3(3 * FP_ONE, 4 * FP_ONE, 5));
    // Colors encode the normalized cell position with 0.8 blue.
    assert_eq!(r[0].color, v3(0, 0, 800_000));
    assert_eq!(r[3].color, v3(FP_ONE / 2, FP_ONE / 2, 800_000));
}

#[test]
fn square_positions_match_the_centered_formula() {
    // 2 columns over a 2-unit screen: step 1, centers at -0.5 and 0.5.
    let r = create_square((2, 1), (2, 1), v3(0, 0, 0));
    assert_eq!(r.len(), 2);
    assert_eq!(r[0].position.x, -500_000);
    assert_eq!(r[1].position.x, 500_000);
    assert_eq!(r[0].position.y, 0);
}

#[test]
fn cube_brightness_dims_colors_with_depth() {
    // depth 2: slab 0 brightness 0.1, slab 1 brightness 0.6.
    let r = create_cube(0, (1, 1, 2), None, v3(0, 0, 0), None);
    assert_eq!(r.len(), 2);
    // x and y color channels are 0 (x == y == 0); blue is 0.8 * b.
    assert_eq!(r[0].color, v3(0, 0, 80_000));
    assert_eq!(r[1].color, v3(0, 0, 480_000));
}

#[test]
fn cube_explicit_spacing_overrides_the_screen_step() {
    let r = create_cube(0, (3, 1, 1), Some(v3(2 * FP_ONE, FP_ONE, FP_ONE)), v3(0, 0, 0), None);
    assert_eq!(r.len(), 3);
    assert_eq!(r[0].position.x, -2 * FP_ONE);
    assert_eq!(r[1].position.x, 0);
    assert_eq!(r[2].position.x, 2 * FP_ONE);
}

#[test]
fn cube_jitter_is_injectable_and_reproducible() {
    let dims = (2u32, 1u32, 1u32);
    let jitter = vec![v3(1_000, -2_000, 3_000), v3(-4_000, 0, 2_500)];
    let plain = create_cube(FP_ONE, dims, None, v3(0, 0, 0), None);
    let wiggled = create_cube(FP_ONE, dims, None, v3(0, 0, 0), Some(jitter.clone()));
    let again = create_cube(FP_ONE, dims, None, v3(0, 0, 0), Some(jitter));
    for i in 0..2 {
        assert_eq!(wiggled[i].position.x, plain[i].position.x + [1_000, -4_000][i]);
        assert_eq!(wiggled[i].position.y, plain[i].position.y + [-2_000, 0][i]);
        assert_eq!(wiggled[i].position.z, plain[i].position.z + [3_000, 2_500][i]);
        assert_eq!(wiggled[i].position, again[i].position);
        assert_eq!(wiggled[i].color, plain[i].color);
    }
}

#[test]
fn cube_jitter_shifts_the_sums_by_exactly_the_jitter_total() {
    let dims = (2u32, 2u32, 1u32);
    let jitter = vec![
        v3(1_000, -2_000, 0),
        v3(-4_000, 500, 0),
        v3(2_500, 2_500, 0),
        v3(0, -1_000, 0),
    ];
    let offset = v3(3 * FP_ONE, -2 * FP_ONE, 0);
    let r = create_cube(FP_ONE, dims, None, offset, Some(jitter.clone()));
    let sx: i64 = r.iter().map(|i| i.position.x).sum();
    let sy: i64 = r.iter().map(|i| i.position.y).sum();
    let jx: i64 = jitter.iter().map(|j| j.x).sum();
    let jy: i64 = jitter.iter().map(|j| j.y).sum();
    assert_eq!(sx, r.len() as i64 * offset.x + jx);
    assert_eq!(sy, r.len() as i64 * offset.y + jy);
}

#[test]
fn dense_rect_emits_only_outline_cells() {
    // 1x1 rectangle at radius 0.5: a 2x2 cell lattice, 3x3 points,
    // every one on the outline but the center.
    let radius = FP_ONE / 2;
    let offset = v3(10 * FP_ONE, 20 * FP_ONE, 3);
    let r = create_dense_rect((1, 1), offset, Some(radius), None);
    assert_eq!(r.len(), 8);
    for inst in &r {
        let x = (inst.position.x - offset.x) / radius;
        let y = (inst.position.y - offset.y) / radius;
        assert!((inst.position.x - offset.x) % radius == 0);
        assert!((inst.position.y - offset.y) % radius == 0);
        assert!((0..=2).contains(&x) && (0..=2).contains(&y));
        assert!(x == 0 || x == 2 || y == 0 || y == 2, "interior point emitted");
        assert!(!(x == 1 && y == 1), "center emitted");
        assert_eq!(inst.position.z, offset.z);
        assert_eq!(inst.color, v3(FP_ONE, FP_ONE, FP_ONE));
    }
    // Row-major order, strictly increasing: no point twice.
    for pair in r.windows(2) {
        let (a, b) = (pair[0].position, pair[1].position);
        assert!(a.y < b.y || (a.y == b.y && a.x < b.x));
    }
}

#[test]
fn dense_rect_perimeter_count_matches_the_lattice() {
    // 2x3 rectangle at the default particle size: ceil(2/0.08) = 25
    // by ceil(3/0.08) = 38 cells, perimeter 2*(25+38).
    let r = create_dense_rect((2, 3), v3(0, 0, 0), None, None);
    assert_eq!(PARTICLE_SIZE, 80_000);
    assert_eq!(r.len(), 2 * (25 + 38));
}

#[test]
fn dense_rect_honors_the_supplied_color() {
    let color = v3(1, 2, 3);
    let r = create_dense_rect((1, 1), v3(0, 0, 0), Some(FP_ONE), Some(color));
    // one cell each way: every lattice point is outline.
    assert_eq!(r.len(), 4);
    for inst in &r {
        assert_eq!(inst.color, color);
    }
}
