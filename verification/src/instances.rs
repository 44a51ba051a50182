//! Instance-set generators.
//!
//! Pure functions from layout parameters to an ordered list of instances.
//! `create_grid` lays columns-by-rows instances from an offset corner;
//! `create_square` and `create_cube` center the layout on the offset by
//! shifting it back half the total extent, which makes the mean of the
//! generated x (and y) coordinates equal the offset exactly;
//! `create_dense_rect` emits only the perimeter of a subdivided
//! rectangle; `create_len` emits a fixed number of default instances.
//!
//! Centered positions are computed in half-steps: the instance at column
//! `x` of `n` sits at `(2*x - (n-1)) * step / 2` from the offset, so the
//! coefficients `2*x - (n-1)` run symmetrically over the row and their
//! rounded contributions cancel pairwise.

use vstd::prelude::*;

verus! {

use crate::fp::FP_ONE;
use crate::fp::tdiv;
use crate::fp::lemma_tdiv_odd;
use crate::fp::lemma_mul_bound;
use crate::fp::lemma_tdiv_bound;
use crate::generics::Instance;
use crate::generics::Vec3Fp;
use crate::PARTICLE_SIZE;

/// Largest grid dimension (columns, rows) a generator accepts.
pub const GRID_LIMIT: u32 = 65_536;

/// Largest cube dimension a generator accepts.
pub const CUBE_LIMIT: u32 = 1_024;

/// Largest offset component magnitude a generator accepts.
pub const OFFSET_LIMIT: i64 = 1_000_000_000_000_000;

/// Largest explicit spacing component magnitude `create_cube` accepts.
pub const SPACING_LIMIT: i64 = 1_000_000_000_000;

/// Position of the cell `(x, y)` in a row-major list of `w`-wide rows.
pub open spec fn flat_index(w: int, x: int, y: int) -> int {
    y * w + x
}

/// Position of the cell `(x, y, z)` in a list of `h`-tall slabs of
/// `w`-wide rows.
pub open spec fn flat_index3(w: int, h: int, x: int, y: int, z: int) -> int {
    (z * h + y) * w + x
}

/// A cell of a row strictly before row `ycap` flattens to an index
/// strictly below `ycap` full rows.
pub proof fn lemma_flat_lt(w: int, x: int, y: int, ycap: int)
    requires
        1 <= w,
        0 <= x < w,
        0 <= y < ycap,
    ensures
        0 <= flat_index(w, x, y) < ycap * w,
{
    assert(0 <= y * w + x < ycap * w) by (nonlinear_arith)
        requires
            1 <= w,
            0 <= x < w,
            0 <= y < ycap,
    ;
}

/// Even spacing: the screen extent divided over the grid cells.
pub open spec fn grid_step(screen: int, cells: int) -> int {
    (screen * FP_ONE) / cells
}

/// A cell lexicographically before `(x, y, z)` flattens to an index
/// strictly below that cell's own flat index.
pub proof fn lemma_flat3_prefix(
    w: int,
    h: int,
    xx: int,
    yy: int,
    zz: int,
    x: int,
    y: int,
    z: int,
)
    requires
        1 <= w,
        1 <= h,
        0 <= xx < w,
        0 <= yy < h,
        0 <= zz,
        0 <= x,
        0 <= y,
        0 <= z,
        zz < z || (zz == z && yy < y) || (zz == z && yy == y && xx < x),
    ensures
        0 <= flat_index3(w, h, xx, yy, zz) < (z * h + y) * w + x,
{
    assert(0 <= (zz * h + yy) * w + xx < (z * h + y) * w + x) by (nonlinear_arith)
        requires
            1 <= w,
            1 <= h,
            0 <= xx < w,
            0 <= yy < h,
            0 <= zz,
            0 <= x,
            0 <= y,
            0 <= z,
            zz < z || (zz == z && yy < y) || (zz == z && yy == y && xx < x),
    ;
}

/// Signed distance, in fixed point, of centered column `x` of `n` from
/// the row's midpoint: half of `(2*x - (n-1))` steps, rounded toward
/// zero.
pub open spec fn centered_term(n: int, step: int, x: int) -> int {
    tdiv((2 * x - (n - 1)) * step, 2)
}

/// Sum of `centered_term` over columns `lo <= x < hi`.
pub open spec fn centered_sum(n: int, step: int, lo: int, hi: int) -> int
    decreases hi - lo,
{
    if lo >= hi {
        0
    } else {
        centered_term(n, step, lo) + centered_sum(n, step, lo + 1, hi)
    }
}

/// Peeling the last column off a centered sum.
pub proof fn lemma_centered_sum_snoc(n: int, step: int, lo: int, hi: int)
    requires
        lo <= hi,
    ensures
        centered_sum(n, step, lo, hi + 1) == centered_sum(n, step, lo, hi) + centered_term(
            n,
            step,
            hi,
        ),
    decreases hi - lo,
{
    if lo < hi {
        lemma_centered_sum_snoc(n, step, lo + 1, hi);
        assert(centered_sum(n, step, lo, hi + 1) == centered_term(n, step, lo) + centered_sum(
            n,
            step,
            lo + 1,
            hi + 1,
        ));
        assert(centered_sum(n, step, lo, hi) == centered_term(n, step, lo) + centered_sum(
            n,
            step,
            lo + 1,
            hi,
        ));
    } else {
        assert(centered_sum(n, step, lo, hi + 1) == centered_term(n, step, lo) + centered_sum(
            n,
            step,
            lo + 1,
            hi + 1,
        ));
    }
}

/// A range of columns that mirrors onto itself sums to zero: the
/// coefficients `2*x - (n-1)` of `x` and of `n-1-x` are opposite, and
/// rounding toward zero is odd.
proof fn lemma_centered_sum_mirror(n: int, step: int, lo: int, hi: int)
    requires
        lo + hi == n,
        lo <= hi,
    ensures
        centered_sum(n, step, lo, hi) == 0,
    decreases hi - lo,
{
    if lo >= hi {
    } else if lo == hi - 1 {
        assert(centered_sum(n, step, lo, hi) == centered_term(n, step, lo) + centered_sum(
            n,
            step,
            lo + 1,
            hi,
        ));
        assert(2 * lo - (n - 1) == 0);
        assert((2 * lo - (n - 1)) * step == 0) by (nonlinear_arith)
            requires
                2 * lo - (n - 1) == 0,
        ;
        assert(centered_term(n, step, lo) == tdiv(0, 2));
        assert(tdiv(0, 2) == 0);
    } else {
        lemma_centered_sum_snoc(n, step, lo + 1, hi - 1);
        lemma_centered_sum_mirror(n, step, lo + 1, hi - 1);
        assert(centered_sum(n, step, lo, hi) == centered_term(n, step, lo) + centered_sum(
            n,
            step,
            lo + 1,
            hi,
        ));
        let c2 = 2 * (hi - 1) - (n - 1);
        assert(2 * lo - (n - 1) == -c2);
        assert((-c2) * step == -(c2 * step)) by (nonlinear_arith);
        lemma_tdiv_odd(c2 * step, 2);
        assert(centered_term(n, step, lo) == -centered_term(n, step, hi - 1));
    }
}

/// The centered terms of a whole row cancel exactly.
pub proof fn lemma_centered_sum_cancels(n: int, step: int)
    requires
        n >= 0,
    ensures
        centered_sum(n, step, 0, n) == 0,
{
    lemma_centered_sum_mirror(n, step, 0, n);
}

/// Sum of the x-coordinates of a list of instances.
pub open spec fn sum_x(s: Seq<Instance>) -> int
    decreases s.len(),
{
    if s.len() == 0 {
        0
    } else {
        sum_x(s.drop_last()) + s.last().position.x
    }
}

/// Sum of the y-coordinates of a list of instances.
pub open spec fn sum_y(s: Seq<Instance>) -> int
    decreases s.len(),
{
    if s.len() == 0 {
        0
    } else {
        sum_y(s.drop_last()) + s.last().position.y
    }
}

/// Appending one instance adds its coordinates to the sums.
pub proof fn lemma_sum_push(s: Seq<Instance>, e: Instance)
    ensures
        sum_x(s.push(e)) == sum_x(s) + e.position.x,
        sum_y(s.push(e)) == sum_y(s) + e.position.y,
{
    assert(s.push(e).drop_last() =~= s);
}

/// Color of the grid cell `(x, y)`: normalized position with a fixed
/// blue channel of 0.8.
pub open spec fn grid_color(grid: (u32, u32), x: int, y: int) -> Vec3Fp {
    Vec3Fp {
        x: ((x * FP_ONE) / (grid.0 as int)) as i64,
        y: ((y * FP_ONE) / (grid.1 as int)) as i64,
        z: 800_000,
    }
}

/// The instance `create_grid` emits for the cell `(x, y)`.
pub open spec fn grid_instance_at(
    grid: (u32, u32),
    screen: (u32, u32),
    offset: Vec3Fp,
    x: int,
    y: int,
) -> Instance {
    let sx = grid_step(screen.0 as int, grid.0 as int);
    let sy = grid_step(screen.1 as int, grid.1 as int);
    Instance {
        position: Vec3Fp {
            x: (x * sx + offset.x) as i64,
            y: (y * sy + offset.y) as i64,
            z: offset.z,
        },
        color: grid_color(grid, x, y),
    }
}

/// The instance `create_square` emits for the cell `(x, y)`: the grid
/// layout shifted back half its extent, so the whole square is centered
/// on the offset.
pub open spec fn square_instance_at(
    grid: (u32, u32),
    screen: (u32, u32),
    offset: Vec3Fp,
    x: int,
    y: int,
) -> Instance {
    let sx = grid_step(screen.0 as int, grid.0 as int);
    let sy = grid_step(screen.1 as int, grid.1 as int);
    Instance {
        position: Vec3Fp {
            x: (centered_term(grid.0 as int, sx, x) + offset.x) as i64,
            y: (centered_term(grid.1 as int, sy, y) + offset.y) as i64,
            z: offset.z,
        },
        color: grid_color(grid, x, y),
    }
}

/// Offsets and dimensions small enough for every intermediate product of
/// the flat generators to stay inside `i64`.
pub open spec fn grid_args_ok(grid: (u32, u32), screen: (u32, u32), offset: Vec3Fp) -> bool {
    &&& grid.0 <= GRID_LIMIT
    &&& grid.1 <= GRID_LIMIT
    &&& screen.0 <= GRID_LIMIT
    &&& screen.1 <= GRID_LIMIT
    &&& -OFFSET_LIMIT <= offset.x <= OFFSET_LIMIT
    &&& -OFFSET_LIMIT <= offset.y <= OFFSET_LIMIT
    &&& -OFFSET_LIMIT <= offset.z <= OFFSET_LIMIT
}

/// Instances on an evenly spaced columns-by-rows grid, row-major from
/// the offset corner, colored by normalized cell position.
pub fn create_grid(
    grid_dimensions: (u32, u32),
    screen_dimensions: (u32, u32),
    offset: Vec3Fp,
) -> (r: Vec<Instance>)
    requires
        grid_args_ok(grid_dimensions, screen_dimensions, offset),
    ensures
        r@.len() == grid_dimensions.0 * grid_dimensions.1,
        forall|x: int, y: int|
            0 <= x < grid_dimensions.0 && 0 <= y < grid_dimensions.1 ==> r@[flat_index(
                grid_dimensions.0 as int,
                x,
                y,
            )] == grid_instance_at(grid_dimensions, screen_dimensions, offset, x, y),
{
    let (w, h) = grid_dimensions;
    let mut out: Vec<Instance> = Vec::new();
    if w == 0 || h == 0 {
        assert(w as int * h as int == 0) by (nonlinear_arith)
            requires
                w == 0 || h == 0,
        ;
        return out;
    }
    let sx: i64 = (screen_dimensions.0 as i64 * FP_ONE) / (w as i64);
    let sy: i64 = (screen_dimensions.1 as i64 * FP_ONE) / (h as i64);
    proof {
        lemma_tdiv_bound(screen_dimensions.0 as int * FP_ONE as int, w as int, 65_536_000_000);
        lemma_tdiv_bound(screen_dimensions.1 as int * FP_ONE as int, h as int, 65_536_000_000);
    }
    let mut y: u32 = 0;
    while y < h
        invariant
            y <= h,
            w >= 1,
            h >= 1,
            grid_args_ok(grid_dimensions, screen_dimensions, offset),
            grid_dimensions.0 == w,
            grid_dimensions.1 == h,
            sx == grid_step(screen_dimensions.0 as int, w as int),
            sy == grid_step(screen_dimensions.1 as int, h as int),
            0 <= sx <= 65_536_000_000,
            0 <= sy <= 65_536_000_000,
            out@.len() == y * w,
            forall|xx: int, yy: int|
                0 <= xx < w && 0 <= yy < y ==> out@[flat_index(w as int, xx, yy)]
                    == grid_instance_at(grid_dimensions, screen_dimensions, offset, xx, yy),
        decreases h - y,
    {
        let mut x: u32 = 0;
        while x < w
            invariant
                x <= w,
                y < h,
                w >= 1,
                h >= 1,
                grid_args_ok(grid_dimensions, screen_dimensions, offset),
                grid_dimensions.0 == w,
                grid_dimensions.1 == h,
                sx == grid_step(screen_dimensions.0 as int, w as int),
                sy == grid_step(screen_dimensions.1 as int, h as int),
                0 <= sx <= 65_536_000_000,
                0 <= sy <= 65_536_000_000,
                out@.len() == y * w + x,
                forall|xx: int, yy: int|
                    0 <= xx < w && 0 <= yy < y ==> out@[flat_index(w as int, xx, yy)]
                        == grid_instance_at(grid_dimensions, screen_dimensions, offset, xx, yy),
                forall|xx: int|
                    0 <= xx < x ==> out@[flat_index(w as int, xx, y as int)] == grid_instance_at(
                        grid_dimensions,
                        screen_dimensions,
                        offset,
                        xx,
                        y as int,
                    ),
            decreases w - x,
        {
            proof {
                lemma_mul_bound(x as int, sx as int, GRID_LIMIT as int, 65_536_000_000);
                lemma_mul_bound(y as int, sy as int, GRID_LIMIT as int, 65_536_000_000);
            }
            let px: i64 = (x as i64) * sx + offset.x;
            let py: i64 = (y as i64) * sy + offset.y;
            let cr: i64 = ((x as i64) * FP_ONE) / (w as i64);
            let cg: i64 = ((y as i64) * FP_ONE) / (h as i64);
            let inst = Instance {
                position: Vec3Fp { x: px, y: py, z: offset.z },
                color: Vec3Fp { x: cr, y: cg, z: 800_000 },
            };
            out.push(inst);
            proof {
                assert forall|xx: int, yy: int| 0 <= xx < w && 0 <= yy < y implies out@[flat_index(
                    w as int,
                    xx,
                    yy,
                )] == grid_instance_at(grid_dimensions, screen_dimensions, offset, xx, yy) by {
                    lemma_flat_lt(w as int, xx, yy, y as int);
                }
            }
            x = x + 1;
        }
        y = y + 1;
        proof {
            assert(out@.len() == (y - 1) * w + w);
            assert((y - 1) * w + w == y * w) by (nonlinear_arith);
        }
    }
    proof {
        assert(out@.len() == h * w);
        assert(h as int * w as int == w as int * h as int) by (nonlinear_arith);
    }
    out
}

/// Instances on an evenly spaced grid centered on the offset: the layout
/// of `create_grid` shifted back half its total extent. The mean of the
/// emitted x (and y) coordinates equals the offset's x (and y) exactly:
/// the coordinate sums are the instance count times the offset.
pub fn create_square(
    grid_dimensions: (u32, u32),
    screen_dimensions: (u32, u32),
    offset: Vec3Fp,
) -> (r: Vec<Instance>)
    requires
        grid_args_ok(grid_dimensions, screen_dimensions, offset),
    ensures
        r@.len() == grid_dimensions.0 * grid_dimensions.1,
        forall|x: int, y: int|
            0 <= x < grid_dimensions.0 && 0 <= y < grid_dimensions.1 ==> r@[flat_index(
                grid_dimensions.0 as int,
                x,
                y,
            )] == square_instance_at(grid_dimensions, screen_dimensions, offset, x, y),
        sum_x(r@) == r@.len() * offset.x,
        sum_y(r@) == r@.len() * offset.y,
{
    let (w, h) = grid_dimensions;
    let mut out: Vec<Instance> = Vec::new();
    if w == 0 || h == 0 {
        proof {
            assert(w as int * h as int == 0) by (nonlinear_arith)
                requires
                    w == 0 || h == 0,
            ;
            assert(sum_x(out@) == 0);
            assert(sum_y(out@) == 0);
            let n = out@.len() as int;
            assert(n * offset.x == 0) by (nonlinear_arith)
                requires
                    n == 0,
            ;
            assert(n * offset.y == 0) by (nonlinear_arith)
                requires
                    n == 0,
            ;
        }
        return out;
    }
    let sx: i64 = (screen_dimensions.0 as i64 * FP_ONE) / (w as i64);
    let sy: i64 = (screen_dimensions.1 as i64 * FP_ONE) / (h as i64);
    proof {
        lemma_tdiv_bound(screen_dimensions.0 as int * FP_ONE as int, w as int, 65_536_000_000);
        lemma_tdiv_bound(screen_dimensions.1 as int * FP_ONE as int, h as int, 65_536_000_000);
    }
    let ghost csw: int = centered_sum(w as int, sx as int, 0, w as int);
    let ghost csh: int = centered_sum(h as int, sy as int, 0, h as int);
    proof {
        let n = out@.len() as int;
        assert(sum_x(out@) == 0);
        assert(sum_y(out@) == 0);
        assert(centered_sum(h as int, sy as int, 0, 0) == 0);
        assert(w as int * centered_sum(h as int, sy as int, 0, 0) == 0) by (nonlinear_arith)
            requires
                centered_sum(h as int, sy as int, 0, 0) == 0,
        ;
        assert(0 * csw == 0) by (nonlinear_arith);
        assert(n * offset.x == 0) by (nonlinear_arith)
            requires
                n == 0,
        ;
        assert(n * offset.y == 0) by (nonlinear_arith)
            requires
                n == 0,
        ;
    }
    let mut y: u32 = 0;
    while y < h
        invariant
            y <= h,
            w >= 1,
            h >= 1,
            grid_args_ok(grid_dimensions, screen_dimensions, offset),
            grid_dimensions.0 == w,
            grid_dimensions.1 == h,
            sx == grid_step(screen_dimensions.0 as int, w as int),
            sy == grid_step(screen_dimensions.1 as int, h as int),
            0 <= sx <= 65_536_000_000,
            0 <= sy <= 65_536_000_000,
            csw == centered_sum(w as int, sx as int, 0, w as int),
            csh == centered_sum(h as int, sy as int, 0, h as int),
            out@.len() == y * w,
            forall|xx: int, yy: int|
                0 <= xx < w && 0 <= yy < y ==> out@[flat_index(w as int, xx, yy)]
                    == square_instance_at(grid_dimensions, screen_dimensions, offset, xx, yy),
            sum_x(out@) == y * csw + out@.len() * offset.x,
            sum_y(out@) == w * centered_sum(h as int, sy as int, 0, y as int) + out@.len()
                * offset.y,
        decreases h - y,
    {
        let mut x: u32 = 0;
        while x < w
            invariant
                x <= w,
                y < h,
                w >= 1,
                h >= 1,
                grid_args_ok(grid_dimensions, screen_dimensions, offset),
                grid_dimensions.0 == w,
                grid_dimensions.1 == h,
                sx == grid_step(screen_dimensions.0 as int, w as int),
                sy == grid_step(screen_dimensions.1 as int, h as int),
                0 <= sx <= 65_536_000_000,
                0 <= sy <= 65_536_000_000,
                csw == centered_sum(w as int, sx as int, 0, w as int),
                csh == centered_sum(h as int, sy as int, 0, h as int),
                out@.len() == y * w + x,
                forall|xx: int, yy: int|
                    0 <= xx < w && 0 <= yy < y ==> out@[flat_index(w as int, xx, yy)]
                        == square_instance_at(grid_dimensions, screen_dimensions, offset, xx, yy),
                forall|xx: int|
                    0 <= xx < x ==> out@[flat_index(w as int, xx, y as int)] == square_instance_at(
                        grid_dimensions,
                        screen_dimensions,
                        offset,
                        xx,
                        y as int,
                    ),
                sum_x(out@) == y * csw + centered_sum(w as int, sx as int, 0, x as int) + out@.len()
                    * offset.x,
                sum_y(out@) == w * centered_sum(h as int, sy as int, 0, y as int) + x
                    * centered_term(h as int, sy as int, y as int) + out@.len() * offset.y,
            decreases w - x,
        {
            let cx: i64 = 2 * (x as i64) - (w as i64 - 1);
            let cy: i64 = 2 * (y as i64) - (h as i64 - 1);
            proof {
                lemma_mul_bound(cx as int, sx as int, 2 * GRID_LIMIT as int, 65_536_000_000);
                lemma_mul_bound(cy as int, sy as int, 2 * GRID_LIMIT as int, 65_536_000_000);
                lemma_tdiv_bound(cx as int * sx as int, 2, 2 * GRID_LIMIT as int * 65_536_000_000);
                lemma_tdiv_bound(cy as int * sy as int, 2, 2 * GRID_LIMIT as int * 65_536_000_000);
            }
            let px: i64 = (cx * sx) / 2 + offset.x;
            let py: i64 = (cy * sy) / 2 + offset.y;
            let cr: i64 = ((x as i64) * FP_ONE) / (w as i64);
            let cg: i64 = ((y as i64) * FP_ONE) / (h as i64);
            let inst = Instance {
                position: Vec3Fp { x: px, y: py, z: offset.z },
                color: Vec3Fp { x: cr, y: cg, z: 800_000 },
            };
            proof {
                lemma_sum_push(out@, inst);
                lemma_centered_sum_snoc(w as int, sx as int, 0, x as int);
                let n0 = out@.len() as int;
                assert((n0 + 1) * offset.x == n0 * offset.x + offset.x) by (nonlinear_arith);
                assert((n0 + 1) * offset.y == n0 * offset.y + offset.y) by (nonlinear_arith);
                let ct = centered_term(h as int, sy as int, y as int);
                assert((x as int + 1) * ct == x as int * ct + ct) by (nonlinear_arith);
            }
            out.push(inst);
            proof {
                assert forall|xx: int, yy: int| 0 <= xx < w && 0 <= yy < y implies out@[flat_index(
                    w as int,
                    xx,
                    yy,
                )] == square_instance_at(grid_dimensions, screen_dimensions, offset, xx, yy) by {
                    lemma_flat_lt(w as int, xx, yy, y as int);
                }
            }
            x = x + 1;
        }
        y = y + 1;
        proof {
            assert(out@.len() == (y - 1) * w + w);
            assert((y - 1) * w + w == y * w) by (nonlinear_arith);
            let yo = y as int - 1;
            assert((yo) * csw + csw == (yo + 1) * csw) by (nonlinear_arith);
            lemma_centered_sum_snoc(h as int, sy as int, 0, yo);
            assert(w as int * (centered_sum(h as int, sy as int, 0, yo) + centered_term(
                h as int,
                sy as int,
                yo,
            )) == w as int * centered_sum(h as int, sy as int, 0, yo) + w as int * centered_term(
                h as int,
                sy as int,
                yo,
            )) by (nonlinear_arith);
        }
    }
    proof {
        assert(out@.len() == h * w);
        assert(h as int * w as int == w as int * h as int) by (nonlinear_arith);
        lemma_centered_sum_cancels(w as int, sx as int);
        lemma_centered_sum_cancels(h as int, sy as int);
    }
    out
}


/// Spacing of the cube's instances on each axis: the explicit particle
/// offset where one is supplied, else the screen-space extent of two
/// units divided over the cells.
pub open spec fn cube_spacing_x(grid: (u32, u32, u32), particle_offset: Option<Vec3Fp>) -> int {
    match particle_offset {
        Option::Some(po) => po.x as int,
        Option::None => (2 * FP_ONE) / (grid.0 as int),
    }
}

/// Spacing on the y-axis; see `cube_spacing_x`.
pub open spec fn cube_spacing_y(grid: (u32, u32, u32), particle_offset: Option<Vec3Fp>) -> int {
    match particle_offset {
        Option::Some(po) => po.y as int,
        Option::None => (2 * FP_ONE) / (grid.1 as int),
    }
}

/// Spacing on the z-axis; see `cube_spacing_x`.
pub open spec fn cube_spacing_z(grid: (u32, u32, u32), particle_offset: Option<Vec3Fp>) -> int {
    match particle_offset {
        Option::Some(po) => po.z as int,
        Option::None => (2 * FP_ONE) / (grid.2 as int),
    }
}

/// Brightness of slab `z` of `d`: the normalized depth plus 0.1.
pub open spec fn cube_brightness(d: int, z: int) -> int {
    (z * FP_ONE) / d + 100_000
}

/// Color of the cube cell `(x, y, z)`: normalized x and y position and a
/// 0.8 blue channel, each dimmed by the slab's brightness.
pub open spec fn cube_color(grid: (u32, u32, u32), x: int, y: int, z: int) -> Vec3Fp {
    let b = cube_brightness(grid.2 as int, z);
    Vec3Fp {
        x: tdiv(((x * FP_ONE) / (grid.0 as int)) * b, FP_ONE as int) as i64,
        y: tdiv(((y * FP_ONE) / (grid.1 as int)) * b, FP_ONE as int) as i64,
        z: tdiv(800_000 * b, FP_ONE as int) as i64,
    }
}

/// The jitter vector an instance receives: the supplied entry for its
/// flat index, or zero where no jitter is supplied.
pub open spec fn jitter_at(jitter: Option<Seq<Vec3Fp>>, i: int) -> Vec3Fp {
    match jitter {
        Option::Some(j) => j[i],
        Option::None => Vec3Fp { x: 0, y: 0, z: 0 },
    }
}

/// Largest jitter component magnitude allowed for a wiggle factor: half
/// a particle size scaled by the factor.
pub open spec fn jitter_limit(wiggle: int) -> int {
    (PARTICLE_SIZE * wiggle) / (2 * FP_ONE)
}

/// The supplied jitter, if any, has one bounded entry per instance.
pub open spec fn jitter_ok(jitter: Option<Seq<Vec3Fp>>, n: int, wiggle: int) -> bool {
    match jitter {
        Option::None => true,
        Option::Some(j) => j.len() == n && forall|i: int|
            0 <= i < n ==> -jitter_limit(wiggle) <= #[trigger] j[i].x <= jitter_limit(wiggle)
                && -jitter_limit(wiggle) <= j[i].y <= jitter_limit(wiggle) && -jitter_limit(wiggle)
                <= j[i].z <= jitter_limit(wiggle),
    }
}

/// The spec-level view of an optional jitter list.
pub open spec fn jitter_view(jitter: Option<Vec<Vec3Fp>>) -> Option<Seq<Vec3Fp>> {
    match jitter {
        Option::Some(j) => Option::Some(j@),
        Option::None => Option::None,
    }
}

/// Sum of the x-components of the first `n` jitter entries; zero
/// where no jitter is supplied.
pub open spec fn jitter_sum_x(jitter: Option<Seq<Vec3Fp>>, n: int) -> int
    decreases n,
{
    if n <= 0 {
        0
    } else {
        jitter_sum_x(jitter, n - 1) + jitter_at(jitter, n - 1).x
    }
}

/// Sum of the y-components of the first `n` jitter entries; zero
/// where no jitter is supplied.
pub open spec fn jitter_sum_y(jitter: Option<Seq<Vec3Fp>>, n: int) -> int
    decreases n,
{
    if n <= 0 {
        0
    } else {
        jitter_sum_y(jitter, n - 1) + jitter_at(jitter, n - 1).y
    }
}

/// Without jitter the jitter sums vanish.
pub proof fn lemma_jitter_sum_none(n: int)
    ensures
        jitter_sum_x(Option::None, n) == 0,
        jitter_sum_y(Option::None, n) == 0,
    decreases (if n >= 0 {
        n
    } else {
        0
    }),
{
    if n > 0 {
        lemma_jitter_sum_none(n - 1);
    }
}

/// The instance `create_cube` emits for the cell `(x, y, z)`: centered
/// on the offset in x and y, stacked from the offset in z, plus the
/// cell's jitter.
pub open spec fn cube_instance_at(
    grid: (u32, u32, u32),
    particle_offset: Option<Vec3Fp>,
    offset: Vec3Fp,
    jitter: Option<Seq<Vec3Fp>>,
    x: int,
    y: int,
    z: int,
) -> Instance {
    let sx = cube_spacing_x(grid, particle_offset);
    let sy = cube_spacing_y(grid, particle_offset);
    let sz = cube_spacing_z(grid, particle_offset);
    let j = jitter_at(jitter, flat_index3(grid.0 as int, grid.1 as int, x, y, z));
    Instance {
        position: Vec3Fp {
            x: (centered_term(grid.0 as int, sx, x) + offset.x + j.x) as i64,
            y: (centered_term(grid.1 as int, sy, y) + offset.y + j.y) as i64,
            z: (z * sz + offset.z + j.z) as i64,
        },
        color: cube_color(grid, x, y, z),
    }
}

/// Dimensions, offsets, spacing and wiggle small enough for every
/// intermediate product of the cube generator to stay inside `i64`.
pub open spec fn cube_args_ok(
    grid: (u32, u32, u32),
    particle_offset: Option<Vec3Fp>,
    offset: Vec3Fp,
    wiggle: int,
) -> bool {
    &&& grid.0 <= CUBE_LIMIT
    &&& grid.1 <= CUBE_LIMIT
    &&& grid.2 <= CUBE_LIMIT
    &&& -OFFSET_LIMIT <= offset.x <= OFFSET_LIMIT
    &&& -OFFSET_LIMIT <= offset.y <= OFFSET_LIMIT
    &&& -OFFSET_LIMIT <= offset.z <= OFFSET_LIMIT
    &&& 0 <= wiggle <= 1_000_000_000
    &&& match particle_offset {
        Option::Some(po) => -SPACING_LIMIT <= po.x <= SPACING_LIMIT && -SPACING_LIMIT <= po.y
            <= SPACING_LIMIT && -SPACING_LIMIT <= po.z <= SPACING_LIMIT,
        Option::None => true,
    }
}

/// Instances filling a width-by-height-by-depth cube, slab by slab and
/// row-major inside each slab, centered on the offset in x and y and
/// stacked from it in z, colors dimmed with depth. A jitter list, one
/// bounded entry per instance, may be supplied to perturb positions;
/// with no jitter the layout is exactly centered: the x (and y)
/// coordinate sums are the instance count times the offset.
pub fn create_cube(
    wiggle_factor: i64,
    grid_dimensions: (u32, u32, u32),
    particle_offset: Option<Vec3Fp>,
    offset: Vec3Fp,
    jitter: Option<Vec<Vec3Fp>>,
) -> (r: Vec<Instance>)
    requires
        cube_args_ok(grid_dimensions, particle_offset, offset, wiggle_factor as int),
        jitter_ok(
            jitter_view(jitter),
            grid_dimensions.0 as int * grid_dimensions.1 as int * grid_dimensions.2 as int,
            wiggle_factor as int,
        ),
    ensures
        r@.len() == grid_dimensions.0 as int * grid_dimensions.1 as int * grid_dimensions.2 as int,
        forall|x: int, y: int, z: int|
            0 <= x < grid_dimensions.0 && 0 <= y < grid_dimensions.1 && 0 <= z < grid_dimensions.2
                ==> r@[flat_index3(grid_dimensions.0 as int, grid_dimensions.1 as int, x, y, z)]
                == cube_instance_at(
                grid_dimensions,
                particle_offset,
                offset,
                jitter_view(jitter),
                x,
                y,
                z,
            ),
        sum_x(r@) == r@.len() * offset.x + jitter_sum_x(jitter_view(jitter), r@.len() as int),
        sum_y(r@) == r@.len() * offset.y + jitter_sum_y(jitter_view(jitter), r@.len() as int),
        jitter.is_none() ==> sum_x(r@) == r@.len() * offset.x,
        jitter.is_none() ==> sum_y(r@) == r@.len() * offset.y,
{
    let (w, h, d) = grid_dimensions;
    let mut out: Vec<Instance> = Vec::new();
    if w == 0 || h == 0 || d == 0 {
        proof {
            assert(w as int * h as int * d as int == 0) by (nonlinear_arith)
                requires
                    w == 0 || h == 0 || d == 0,
            ;
            assert(sum_x(out@) == 0);
            assert(sum_y(out@) == 0);
            let n = out@.len() as int;
            assert(n * offset.x == 0) by (nonlinear_arith)
                requires
                    n == 0,
            ;
            assert(n * offset.y == 0) by (nonlinear_arith)
                requires
                    n == 0,
            ;
            assert(jitter_sum_x(jitter_view(jitter), 0) == 0);
            assert(jitter_sum_y(jitter_view(jitter), 0) == 0);
        }
        return out;
    }
    let sx: i64 = match particle_offset {
        Option::Some(po) => po.x,
        Option::None => (2 * FP_ONE) / (w as i64),
    };
    let sy: i64 = match particle_offset {
        Option::Some(po) => po.y,
        Option::None => (2 * FP_ONE) / (h as i64),
    };
    let sz: i64 = match particle_offset {
        Option::Some(po) => po.z,
        Option::None => (2 * FP_ONE) / (d as i64),
    };
    proof {
        lemma_tdiv_bound(2 * FP_ONE as int, w as int, 2 * FP_ONE as int);
        lemma_tdiv_bound(2 * FP_ONE as int, h as int, 2 * FP_ONE as int);
        lemma_tdiv_bound(2 * FP_ONE as int, d as int, 2 * FP_ONE as int);
    }
    let ghost cswx: int = centered_sum(w as int, sx as int, 0, w as int);
    let ghost cshy: int = centered_sum(h as int, sy as int, 0, h as int);
    proof {
        let n = out@.len() as int;
        assert(sum_x(out@) == 0);
        assert(sum_y(out@) == 0);
        assert((0 * h as int) * cswx == 0) by (nonlinear_arith);
        assert(0 * (w as int * cshy) == 0) by (nonlinear_arith);
        assert(n * offset.x == 0) by (nonlinear_arith)
            requires
                n == 0,
        ;
        assert(n * offset.y == 0) by (nonlinear_arith)
            requires
                n == 0,
        ;
    }
    let mut z: u32 = 0;
    while z < d
        invariant
            z <= d,
            w >= 1,
            h >= 1,
            d >= 1,
            cube_args_ok(grid_dimensions, particle_offset, offset, wiggle_factor as int),
            jitter_ok(
                jitter_view(jitter),
                grid_dimensions.0 as int * grid_dimensions.1 as int * grid_dimensions.2 as int,
                wiggle_factor as int,
            ),
            grid_dimensions == (w, h, d),
            sx == cube_spacing_x(grid_dimensions, particle_offset),
            sy == cube_spacing_y(grid_dimensions, particle_offset),
            sz == cube_spacing_z(grid_dimensions, particle_offset),
            -SPACING_LIMIT <= sx <= SPACING_LIMIT,
            -SPACING_LIMIT <= sy <= SPACING_LIMIT,
            -SPACING_LIMIT <= sz <= SPACING_LIMIT,
            cswx == centered_sum(w as int, sx as int, 0, w as int),
            cshy == centered_sum(h as int, sy as int, 0, h as int),
            out@.len() == (z * h) * w,
            forall|xx: int, yy: int, zz: int|
                0 <= xx < w && 0 <= yy < h && 0 <= zz < z ==> out@[flat_index3(
                    w as int,
                    h as int,
                    xx,
                    yy,
                    zz,
                )] == cube_instance_at(
                    grid_dimensions,
                    particle_offset,
                    offset,
                    jitter_view(jitter),
                    xx,
                    yy,
                    zz,
                ),
            sum_x(out@) == (z * h) * cswx + out@.len() * offset.x + jitter_sum_x(
                jitter_view(jitter),
                out@.len() as int,
            ),
            sum_y(out@) == z * (w * cshy) + out@.len() * offset.y + jitter_sum_y(
                jitter_view(jitter),
                out@.len() as int,
            ),
        decreases d - z,
    {
        proof {
            assert(centered_sum(h as int, sy as int, 0, 0) == 0);
            assert(w as int * centered_sum(h as int, sy as int, 0, 0) == 0) by (nonlinear_arith)
                requires
                    centered_sum(h as int, sy as int, 0, 0) == 0,
            ;
        }
        let mut y: u32 = 0;
        while y < h
            invariant
                y <= h,
                z < d,
                w >= 1,
                h >= 1,
                d >= 1,
                cube_args_ok(grid_dimensions, particle_offset, offset, wiggle_factor as int),
                jitter_ok(
                    jitter_view(jitter),
                    grid_dimensions.0 as int * grid_dimensions.1 as int * grid_dimensions.2 as int,
                    wiggle_factor as int,
                ),
                grid_dimensions == (w, h, d),
                sx == cube_spacing_x(grid_dimensions, particle_offset),
                sy == cube_spacing_y(grid_dimensions, particle_offset),
                sz == cube_spacing_z(grid_dimensions, particle_offset),
                -SPACING_LIMIT <= sx <= SPACING_LIMIT,
                -SPACING_LIMIT <= sy <= SPACING_LIMIT,
                -SPACING_LIMIT <= sz <= SPACING_LIMIT,
                cswx == centered_sum(w as int, sx as int, 0, w as int),
                cshy == centered_sum(h as int, sy as int, 0, h as int),
                out@.len() == (z * h + y) * w,
                forall|xx: int, yy: int, zz: int|
                    0 <= xx < w && 0 <= yy < h && 0 <= zz < z ==> out@[flat_index3(
                        w as int,
                        h as int,
                        xx,
                        yy,
                        zz,
                    )] == cube_instance_at(
                        grid_dimensions,
                        particle_offset,
                        offset,
                        jitter_view(jitter),
                        xx,
                        yy,
                        zz,
                    ),
                forall|xx: int, yy: int|
                    0 <= xx < w && 0 <= yy < y ==> out@[flat_index3(
                        w as int,
                        h as int,
                        xx,
                        yy,
                        z as int,
                    )] == cube_instance_at(
                        grid_dimensions,
                        particle_offset,
                        offset,
                        jitter_view(jitter),
                        xx,
                        yy,
                        z as int,
                    ),
                sum_x(out@) == (z * h + y) * cswx + out@.len() * offset.x + jitter_sum_x(
                    jitter_view(jitter),
                    out@.len() as int,
                ),
                sum_y(out@) == z * (w * cshy) + w * centered_sum(
                    h as int,
                    sy as int,
                    0,
                    y as int,
                ) + out@.len() * offset.y + jitter_sum_y(jitter_view(jitter), out@.len() as int),
            decreases h - y,
        {
            let mut x: u32 = 0;
            while x < w
                invariant
                    x <= w,
                    y < h,
                    z < d,
                    w >= 1,
                    h >= 1,
                    d >= 1,
                    cube_args_ok(grid_dimensions, particle_offset, offset, wiggle_factor as int),
                    jitter_ok(
                        jitter_view(jitter),
                        grid_dimensions.0 as int * grid_dimensions.1 as int
                            * grid_dimensions.2 as int,
                        wiggle_factor as int,
                    ),
                    grid_dimensions == (w, h, d),
                    sx == cube_spacing_x(grid_dimensions, particle_offset),
                    sy == cube_spacing_y(grid_dimensions, particle_offset),
                    sz == cube_spacing_z(grid_dimensions, particle_offset),
                    -SPACING_LIMIT <= sx <= SPACING_LIMIT,
                    -SPACING_LIMIT <= sy <= SPACING_LIMIT,
                    -SPACING_LIMIT <= sz <= SPACING_LIMIT,
                    cswx == centered_sum(w as int, sx as int, 0, w as int),
                    cshy == centered_sum(h as int, sy as int, 0, h as int),
                    out@.len() == (z * h + y) * w + x,
                    forall|xx: int, yy: int, zz: int|
                        0 <= xx < w && 0 <= yy < h && 0 <= zz < z ==> out@[flat_index3(
                            w as int,
                            h as int,
                            xx,
                            yy,
                            zz,
                        )] == cube_instance_at(
                            grid_dimensions,
                            particle_offset,
                            offset,
                            jitter_view(jitter),
                            xx,
                            yy,
                            zz,
                        ),
                    forall|xx: int, yy: int|
                        0 <= xx < w && 0 <= yy < y ==> out@[flat_index3(
                            w as int,
                            h as int,
                            xx,
                            yy,
                            z as int,
                        )] == cube_instance_at(
                            grid_dimensions,
                            particle_offset,
                            offset,
                            jitter_view(jitter),
                            xx,
                            yy,
                            z as int,
                        ),
                    forall|xx: int|
                        0 <= xx < x ==> out@[flat_index3(
                            w as int,
                            h as int,
                            xx,
                            y as int,
                            z as int,
                        )] == cube_instance_at(
                            grid_dimensions,
                            particle_offset,
                            offset,
                            jitter_view(jitter),
                            xx,
                            y as int,
                            z as int,
                        ),
                    sum_x(out@) == (z * h + y) * cswx + centered_sum(
                        w as int,
                        sx as int,
                        0,
                        x as int,
                    ) + out@.len() * offset.x + jitter_sum_x(jitter_view(jitter), out@.len() as int),
                    sum_y(out@) == z * (w * cshy) + w * centered_sum(
                        h as int,
                        sy as int,
                        0,
                        y as int,
                    ) + x * centered_term(h as int, sy as int, y as int) + out@.len() * offset.y
                        + jitter_sum_y(jitter_view(jitter), out@.len() as int),
                decreases w - x,
            {
                let idx: usize = out.len();
                proof {
                    lemma_flat3_prefix(
                        w as int,
                        h as int,
                        x as int,
                        y as int,
                        z as int,
                        0,
                        0,
                        d as int,
                    );
                    assert(((d as int) * (h as int) + 0) * (w as int) + 0 == (w as int) * (
                    h as int) * (d as int)) by (nonlinear_arith);
                }
                let jv: Vec3Fp = match &jitter {
                    Option::Some(j) => j[idx],
                    Option::None => Vec3Fp { x: 0, y: 0, z: 0 },
                };
                let cx: i64 = 2 * (x as i64) - (w as i64 - 1);
                let cy: i64 = 2 * (y as i64) - (h as i64 - 1);
                proof {
                    lemma_mul_bound(cx as int, sx as int, 2 * CUBE_LIMIT as int, SPACING_LIMIT as int);
                    lemma_mul_bound(cy as int, sy as int, 2 * CUBE_LIMIT as int, SPACING_LIMIT as int);
                    lemma_tdiv_bound(
                        cx as int * sx as int,
                        2,
                        2 * CUBE_LIMIT as int * SPACING_LIMIT as int,
                    );
                    lemma_tdiv_bound(
                        cy as int * sy as int,
                        2,
                        2 * CUBE_LIMIT as int * SPACING_LIMIT as int,
                    );
                    lemma_mul_bound(z as int, sz as int, CUBE_LIMIT as int, SPACING_LIMIT as int);
                }
                let px: i64 = (cx * sx) / 2 + offset.x + jv.x;
                let py: i64 = (cy * sy) / 2 + offset.y + jv.y;
                let pz: i64 = (z as i64) * sz + offset.z + jv.z;
                let b: i64 = ((z as i64) * FP_ONE) / (d as i64) + 100_000;
                proof {
                    lemma_tdiv_bound(z as int * FP_ONE as int, d as int, CUBE_LIMIT as int * FP_ONE as int);
                    lemma_tdiv_bound(x as int * FP_ONE as int, w as int, CUBE_LIMIT as int * FP_ONE as int);
                    lemma_tdiv_bound(y as int * FP_ONE as int, h as int, CUBE_LIMIT as int * FP_ONE as int);
                }
                let nx: i64 = ((x as i64) * FP_ONE) / (w as i64);
                let ny: i64 = ((y as i64) * FP_ONE) / (h as i64);
                proof {
                    lemma_mul_bound(
                        nx as int,
                        b as int,
                        CUBE_LIMIT as int * FP_ONE as int,
                        CUBE_LIMIT as int * FP_ONE as int + 100_000,
                    );
                    lemma_mul_bound(
                        ny as int,
                        b as int,
                        CUBE_LIMIT as int * FP_ONE as int,
                        CUBE_LIMIT as int * FP_ONE as int + 100_000,
                    );
                    lemma_mul_bound(
                        800_000,
                        b as int,
                        800_000,
                        CUBE_LIMIT as int * FP_ONE as int + 100_000,
                    );
                }
                let cr: i64 = (nx * b) / FP_ONE;
                let cg: i64 = (ny * b) / FP_ONE;
                let cb: i64 = (800_000 * b) / FP_ONE;
                let inst = Instance {
                    position: Vec3Fp { x: px, y: py, z: pz },
                    color: Vec3Fp { x: cr, y: cg, z: cb },
                };
                proof {
                    lemma_sum_push(out@, inst);
                    lemma_centered_sum_snoc(w as int, sx as int, 0, x as int);
                    let n0 = out@.len() as int;
                    assert((n0 + 1) * offset.x == n0 * offset.x + offset.x) by (nonlinear_arith);
                    assert((n0 + 1) * offset.y == n0 * offset.y + offset.y) by (nonlinear_arith);
                    let ct = centered_term(h as int, sy as int, y as int);
                    assert((x as int + 1) * ct == x as int * ct + ct) by (nonlinear_arith);
                }
                out.push(inst);
                proof {
                    assert forall|xx: int, yy: int, zz: int|
                        0 <= xx < w && 0 <= yy < h && 0 <= zz < z implies out@[flat_index3(
                        w as int,
                        h as int,
                        xx,
                        yy,
                        zz,
                    )] == cube_instance_at(
                        grid_dimensions,
                        particle_offset,
                        offset,
                        jitter_view(jitter),
                        xx,
                        yy,
                        zz,
                    ) by {
                        lemma_flat3_prefix(
                            w as int,
                            h as int,
                            xx,
                            yy,
                            zz,
                            x as int,
                            y as int,
                            z as int,
                        );
                    }
                    assert forall|xx: int, yy: int| 0 <= xx < w && 0 <= yy < y implies out@[
                    flat_index3(w as int, h as int, xx, yy, z as int)] == cube_instance_at(
                        grid_dimensions,
                        particle_offset,
                        offset,
                        jitter_view(jitter),
                        xx,
                        yy,
                        z as int,
                    ) by {
                        lemma_flat3_prefix(
                            w as int,
                            h as int,
                            xx,
                            yy,
                            z as int,
                            x as int,
                            y as int,
                            z as int,
                        );
                    }
                }
                x = x + 1;
            }
            y = y + 1;
            proof {
                let zi = z as int;
                let yo = y as int - 1;
                assert((zi * h + yo) * w + w == (zi * h + yo + 1) * w) by (nonlinear_arith);
                assert((zi * h + yo) * cswx + cswx == (zi * h + yo + 1) * cswx) by (nonlinear_arith);
                lemma_centered_sum_snoc(h as int, sy as int, 0, yo);
                assert(w as int * (centered_sum(h as int, sy as int, 0, yo) + centered_term(
                    h as int,
                    sy as int,
                    yo,
                )) == w as int * centered_sum(h as int, sy as int, 0, yo) + w as int
                    * centered_term(h as int, sy as int, yo)) by (nonlinear_arith);
            }
        }
        z = z + 1;
        proof {
            let zo = z as int - 1;
            assert((zo * h + h) * w == ((zo + 1) * h) * w) by (nonlinear_arith);
            assert((zo * h + h) * cswx == ((zo + 1) * h) * cswx) by (nonlinear_arith);
            lemma_centered_sum_cancels(h as int, sy as int);
            assert(zo * (w * cshy) + w * cshy == (zo + 1) * (w * cshy)) by (nonlinear_arith);
        }
    }
    proof {
        assert(((d as int) * (h as int)) * (w as int) == (w as int) * (h as int) * (d as int))
            by (nonlinear_arith);
        lemma_centered_sum_cancels(w as int, sx as int);
        lemma_centered_sum_cancels(h as int, sy as int);
        assert(((d as int) * (h as int)) * 0 == 0) by (nonlinear_arith);
        assert((d as int) * ((w as int) * 0) == 0) by (nonlinear_arith);
        if jitter.is_none() {
            lemma_jitter_sum_none(out@.len() as int);
        }
    }
    out
}


/// How many cells of one unit, rounded up, cover `dim` units at one cell
/// per `r` millionths.
pub open spec fn rect_cells(dim: int, r: int) -> int {
    (dim * FP_ONE + r - 1) / r
}

/// How many outline instances row `y` of a `wq`-by-`hq` cell lattice
/// holds: the full row on the top and bottom edges, the two ends (or the
/// single cell of a degenerate lattice) elsewhere.
pub open spec fn outline_row_count(wq: int, hq: int, y: int) -> int {
    if y == 0 || y == hq {
        wq + 1
    } else if wq == 0 {
        1
    } else {
        2
    }
}

/// Outline instances in the first `n` rows.
pub open spec fn outline_count(wq: int, hq: int, n: int) -> int
    decreases n,
{
    if n <= 0 {
        0
    } else {
        outline_count(wq, hq, n - 1) + outline_row_count(wq, hq, n - 1)
    }
}

/// Outline instances of row `y` among its first `x` cells.
pub open spec fn outline_row_partial(wq: int, hq: int, y: int, x: int) -> int {
    if y == 0 || y == hq {
        x
    } else if wq >= 1 && x >= wq + 1 {
        2
    } else if x >= 1 {
        1
    } else {
        0
    }
}

/// `inst` is the outline instance of lattice cell `(x, y)`: on the
/// perimeter of the lattice, at the offset plus the cell's extent, in
/// the given color.
pub open spec fn outline_point(
    inst: Instance,
    wq: int,
    hq: int,
    r: int,
    offset: Vec3Fp,
    color: Vec3Fp,
    x: int,
    y: int,
) -> bool {
    &&& 0 <= x <= wq
    &&& 0 <= y <= hq
    &&& x == 0 || x == wq || y == 0 || y == hq
    &&& inst.position.x == x * r + offset.x
    &&& inst.position.y == y * r + offset.y
    &&& inst.position.z == offset.z
    &&& inst.color == color
}

/// `inst` is the outline instance of some perimeter cell of the
/// lattice.
pub open spec fn on_outline(
    inst: Instance,
    wq: int,
    hq: int,
    r: int,
    offset: Vec3Fp,
    color: Vec3Fp,
) -> bool {
    exists|x: int, y: int| outline_point(inst, wq, hq, r, offset, color, x, y)
}

/// `a` strictly precedes `b` in row-major position order: lower row
/// first, then smaller x within a row.
pub open spec fn position_lex_before(a: Vec3Fp, b: Vec3Fp) -> bool {
    a.y < b.y || (a.y == b.y && a.x < b.x)
}

/// A non-degenerate lattice has `2*(wq + hq)` outline cells.
pub proof fn lemma_outline_count_closed(wq: int, hq: int)
    requires
        1 <= wq,
        1 <= hq,
    ensures
        outline_count(wq, hq, hq + 1) == 2 * wq + 2 * hq,
{
    assert forall|n: int| 1 <= n <= hq implies outline_count(wq, hq, n) == (wq + 1) + (n - 1)
        * 2 by {
        lemma_outline_count_partial(wq, hq, n);
    }
    assert(outline_count(wq, hq, hq + 1) == outline_count(wq, hq, hq) + outline_row_count(
        wq,
        hq,
        hq,
    ));
}

/// The first `n` rows of a non-degenerate lattice, `n` at most `hq`,
/// hold a full top row and two ends per further row.
proof fn lemma_outline_count_partial(wq: int, hq: int, n: int)
    requires
        1 <= wq,
        1 <= hq,
        1 <= n <= hq,
    ensures
        outline_count(wq, hq, n) == (wq + 1) + (n - 1) * 2,
    decreases n,
{
    if n == 1 {
        assert(outline_count(wq, hq, 1) == outline_count(wq, hq, 0) + outline_row_count(wq, hq, 0));
    } else {
        lemma_outline_count_partial(wq, hq, n - 1);
        assert(outline_count(wq, hq, n) == outline_count(wq, hq, n - 1) + outline_row_count(
            wq,
            hq,
            n - 1,
        ));
    }
}

/// Instances on the perimeter of a rectangle subdivided into cells of
/// one particle radius: only lattice cells on the outline are emitted,
/// none of the interior. The radius defaults to the particle size, the
/// color to white.
pub fn create_dense_rect(
    grid_dimensions: (u32, u32),
    offset: Vec3Fp,
    particle_radius: Option<i64>,
    color: Option<Vec3Fp>,
) -> (r: Vec<Instance>)
    requires
        grid_dimensions.0 <= GRID_LIMIT,
        grid_dimensions.1 <= GRID_LIMIT,
        -OFFSET_LIMIT <= offset.x <= OFFSET_LIMIT,
        -OFFSET_LIMIT <= offset.y <= OFFSET_LIMIT,
        -OFFSET_LIMIT <= offset.z <= OFFSET_LIMIT,
        match particle_radius {
            Option::Some(pr) => 1 <= pr <= SPACING_LIMIT,
            Option::None => true,
        },
        rect_cells(
            grid_dimensions.0 as int,
            match particle_radius {
                Option::Some(pr) => pr as int,
                Option::None => PARTICLE_SIZE as int,
            },
        ) <= 1_000_000,
        rect_cells(
            grid_dimensions.1 as int,
            match particle_radius {
                Option::Some(pr) => pr as int,
                Option::None => PARTICLE_SIZE as int,
            },
        ) <= 1_000_000,
    ensures
        ({
            let pr = match particle_radius {
                Option::Some(pr) => pr as int,
                Option::None => PARTICLE_SIZE as int,
            };
            let cv = match color {
                Option::Some(c) => c,
                Option::None => Vec3Fp { x: FP_ONE, y: FP_ONE, z: FP_ONE },
            };
            let wq = rect_cells(grid_dimensions.0 as int, pr);
            let hq = rect_cells(grid_dimensions.1 as int, pr);
            &&& r@.len() == outline_count(wq, hq, hq + 1)
            &&& forall|i: int|
                0 <= i < r@.len() ==> on_outline(#[trigger] r@[i], wq, hq, pr, offset, cv)
            &&& forall|i: int, j: int|
                0 <= i < j < r@.len() ==> #[trigger] position_lex_before(
                    r@[i].position,
                    r@[j].position,
                )
        }),
{
    let pr: i64 = match particle_radius {
        Option::Some(pr) => pr,
        Option::None => PARTICLE_SIZE,
    };
    let cv: Vec3Fp = match color {
        Option::Some(c) => c,
        Option::None => Vec3Fp { x: FP_ONE, y: FP_ONE, z: FP_ONE },
    };
    let wq: i64 = ((grid_dimensions.0 as i64) * FP_ONE + (pr - 1)) / pr;
    let hq: i64 = ((grid_dimensions.1 as i64) * FP_ONE + (pr - 1)) / pr;
    proof {
        vstd::arithmetic::div_mod::lemma_div_pos_is_pos(
            grid_dimensions.0 as int * FP_ONE as int + (pr as int - 1),
            pr as int,
        );
        vstd::arithmetic::div_mod::lemma_div_pos_is_pos(
            grid_dimensions.1 as int * FP_ONE as int + (pr as int - 1),
            pr as int,
        );
    }
    let mut out: Vec<Instance> = Vec::new();
    let mut y: i64 = 0;
    while y <= hq
        invariant
            0 <= y <= hq + 1,
            0 <= wq <= 1_000_000,
            0 <= hq <= 1_000_000,
            1 <= pr <= SPACING_LIMIT,
            -OFFSET_LIMIT <= offset.x <= OFFSET_LIMIT,
            -OFFSET_LIMIT <= offset.y <= OFFSET_LIMIT,
            -OFFSET_LIMIT <= offset.z <= OFFSET_LIMIT,
            out@.len() == outline_count(wq as int, hq as int, y as int),
            forall|i: int|
                0 <= i < out@.len() ==> on_outline(
                    #[trigger] out@[i],
                    wq as int,
                    hq as int,
                    pr as int,
                    offset,
                    cv,
                ),
            forall|i: int|
                0 <= i < out@.len() ==> (#[trigger] out@[i]).position.y < y * pr + offset.y,
            forall|i: int, j: int|
                0 <= i < j < out@.len() ==> #[trigger] position_lex_before(
                    out@[i].position,
                    out@[j].position,
                ),
        decreases hq + 1 - y,
    {
        let mut x: i64 = 0;
        while x <= wq
            invariant
                0 <= x <= wq + 1,
                0 <= y <= hq,
                0 <= wq <= 1_000_000,
                0 <= hq <= 1_000_000,
                1 <= pr <= SPACING_LIMIT,
                -OFFSET_LIMIT <= offset.x <= OFFSET_LIMIT,
                -OFFSET_LIMIT <= offset.y <= OFFSET_LIMIT,
                -OFFSET_LIMIT <= offset.z <= OFFSET_LIMIT,
                out@.len() == outline_count(wq as int, hq as int, y as int) + outline_row_partial(
                    wq as int,
                    hq as int,
                    y as int,
                    x as int,
                ),
                forall|i: int|
                    0 <= i < out@.len() ==> on_outline(
                        #[trigger] out@[i],
                        wq as int,
                        hq as int,
                        pr as int,
                        offset,
                        cv,
                    ),
                forall|i: int|
                    0 <= i < out@.len() ==> (#[trigger] out@[i]).position.y < y * pr + offset.y
                        || (out@[i].position.y == y * pr + offset.y && out@[i].position.x < x * pr
                        + offset.x),
                forall|i: int, j: int|
                    0 <= i < j < out@.len() ==> #[trigger] position_lex_before(
                        out@[i].position,
                        out@[j].position,
                    ),
            decreases wq + 1 - x,
        {
            if x == 0 || x == wq || y == 0 || y == hq {
                proof {
                    lemma_mul_bound(x as int, pr as int, 1_000_000, SPACING_LIMIT as int);
                    lemma_mul_bound(y as int, pr as int, 1_000_000, SPACING_LIMIT as int);
                }
                let inst = Instance {
                    position: Vec3Fp { x: x * pr + offset.x, y: y * pr + offset.y, z: offset.z },
                    color: cv,
                };
                proof {
                    assert(outline_point(
                        inst,
                        wq as int,
                        hq as int,
                        pr as int,
                        offset,
                        cv,
                        x as int,
                        y as int,
                    ));
                }
                let ghost prev = out@;
                out.push(inst);
                proof {
                    assert forall|i: int| 0 <= i < out@.len() implies on_outline(
                        #[trigger] out@[i],
                        wq as int,
                        hq as int,
                        pr as int,
                        offset,
                        cv,
                    ) by {
                        if i < prev.len() {
                            assert(out@[i] == prev[i]);
                        } else {
                            assert(out@[i] == inst);
                            assert(outline_point(
                                inst,
                                wq as int,
                                hq as int,
                                pr as int,
                                offset,
                                cv,
                                x as int,
                                y as int,
                            ));
                        }
                    }
                    assert forall|i: int, j: int| 0 <= i < j < out@.len() implies #[trigger]
                    position_lex_before(out@[i].position, out@[j].position) by {
                        assert(out@[i] == prev[i]);
                        if j < prev.len() {
                            assert(out@[j] == prev[j]);
                        } else {
                            assert(out@[j] == inst);
                        }
                    }
                }
            }
            proof {
                assert((x as int + 1) * pr as int == x as int * pr as int + pr as int)
                    by (nonlinear_arith);
            }
            x = x + 1;
        }
        y = y + 1;
        proof {
            assert(outline_count(wq as int, hq as int, y as int) == outline_count(
                wq as int,
                hq as int,
                y as int - 1,
            ) + outline_row_count(wq as int, hq as int, y as int - 1));
            assert((y as int) * pr as int == (y as int - 1) * pr as int + pr as int)
                by (nonlinear_arith);
        }
    }
    out
}

/// A fixed number of instances, each at the default position, all in
/// the given color.
pub fn create_len(len: u32, color: Vec3Fp) -> (r: Vec<Instance>)
    ensures
        r@.len() == len,
        forall|i: int|
            0 <= i < r@.len() ==> r@[i] == (Instance {
                position: Vec3Fp { x: 0, y: 0, z: 0 },
                color,
            }),
{
    let mut out: Vec<Instance> = Vec::new();
    let mut i: u32 = 0;
    while i < len
        invariant
            i <= len,
            out@.len() == i,
            forall|j: int|
                0 <= j < out@.len() ==> out@[j] == (Instance {
                    position: Vec3Fp { x: 0, y: 0, z: 0 },
                    color,
                }),
        decreases len - i,
    {
        out.push(Instance { position: Vec3Fp { x: 0, y: 0, z: 0 }, color });
        i = i + 1;
    }
    out
}

} // verus!
