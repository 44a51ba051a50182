//! Geometry templates.
//!
//! Two canonical templates are provided: a four-vertex quad drawn as two
//! triangles, and a five-vertex pentagon drawn as three triangles whose
//! index list carries one trailing padding entry. The padding entry
//! duplicates index 0 for alignment and must not be drawn, so each
//! template also states the index count a draw call may use.
//!
//! `scale_vertices` is the one operation on a template: it multiplies each
//! vertex's x-coordinate by an aspect ratio and then every coordinate by a
//! factor, leaving texture coordinates and the template itself untouched.

use vstd::prelude::*;

verus! {

use crate::fp::FP_ONE;
use crate::fp::tdiv;
use crate::fp::fp_mul;
use crate::fp::lemma_mul_bound;
use crate::fp::lemma_tdiv_quot_bound;
use crate::fp::lemma_tdiv_mul_cancel;
use crate::generics::Vec2Fp;
use crate::generics::Vec3Fp;
use crate::generics::Vertex;

/// Largest coordinate or factor magnitude `scale_vertices` accepts;
/// keeps every intermediate product inside `i64`.
pub const SCALE_LIMIT: i64 = 100_000_000;

/// What scaling does to one vertex: x is multiplied by the aspect ratio,
/// then every coordinate by the factor; texture coordinates pass through.
pub open spec fn scaled_vertex(v: Vertex, factor: int, aspect: int) -> Vertex {
    Vertex {
        position: Vec3Fp {
            x: tdiv(tdiv(v.position.x * aspect, FP_ONE as int) * factor, FP_ONE as int) as i64,
            y: tdiv(v.position.y * factor, FP_ONE as int) as i64,
            z: tdiv(v.position.z * factor, FP_ONE as int) as i64,
        },
        tex_coords: v.tex_coords,
    }
}

/// Every position component of every vertex in `s` lies within `bound`.
pub open spec fn vertices_within(s: Seq<Vertex>, bound: int) -> bool {
    forall|i: int|
        0 <= i < s.len() ==> -bound <= #[trigger] s[i].position.x <= bound
            && -bound <= s[i].position.y <= bound && -bound <= s[i].position.z <= bound
}

/// Scale a vertex list: x by `aspect`, then everything by `factor`.
/// Returns a fresh list; the input is not touched.
pub fn scale_vertices(vertices: &Vec<Vertex>, factor: i64, aspect: i64) -> (r: Vec<Vertex>)
    requires
        vertices_within(vertices@, SCALE_LIMIT as int),
        -SCALE_LIMIT <= factor <= SCALE_LIMIT,
        -SCALE_LIMIT <= aspect <= SCALE_LIMIT,
    ensures
        r@.len() == vertices@.len(),
        forall|i: int|
            0 <= i < r@.len() ==> r@[i] == scaled_vertex(vertices@[i], factor as int, aspect as int),
{
    let mut out: Vec<Vertex> = Vec::new();
    let mut i: usize = 0;
    while i < vertices.len()
        invariant
            i <= vertices@.len(),
            out@.len() == i,
            vertices_within(vertices@, SCALE_LIMIT as int),
            -SCALE_LIMIT <= factor <= SCALE_LIMIT,
            -SCALE_LIMIT <= aspect <= SCALE_LIMIT,
            forall|j: int|
                0 <= j < i ==> out@[j] == scaled_vertex(
                    vertices@[j],
                    factor as int,
                    aspect as int,
                ),
        decreases vertices@.len() - i,
    {
        let v = vertices[i];
        proof {
            lemma_mul_bound(
                v.position.x as int,
                aspect as int,
                SCALE_LIMIT as int,
                SCALE_LIMIT as int,
            );
        }
        let stretched_x: i64 = fp_mul(v.position.x, aspect);
        proof {
            lemma_tdiv_quot_bound(
                v.position.x * aspect,
                FP_ONE as int,
                SCALE_LIMIT as int * SCALE_LIMIT as int,
            );
            lemma_mul_bound(
                stretched_x as int,
                factor as int,
                SCALE_LIMIT as int * SCALE_LIMIT as int / (FP_ONE as int),
                SCALE_LIMIT as int,
            );
            lemma_mul_bound(v.position.y as int, factor as int, SCALE_LIMIT as int, SCALE_LIMIT as int);
            lemma_mul_bound(v.position.z as int, factor as int, SCALE_LIMIT as int, SCALE_LIMIT as int);
        }
        let scaled = Vertex {
            position: Vec3Fp {
                x: fp_mul(stretched_x, factor),
                y: fp_mul(v.position.y, factor),
                z: fp_mul(v.position.z, factor),
            },
            tex_coords: v.tex_coords,
        };
        out.push(scaled);
        i = i + 1;
    }
    out
}

/// Scaling with factor two and aspect ratio one exactly doubles every
/// position component and keeps texture coordinates; in particular the
/// operation is a pure function of its inputs, so repeating it on the
/// same template yields the same list.
pub proof fn lemma_scale_by_two_doubles(v: Vertex)
    requires
        -SCALE_LIMIT <= v.position.x <= SCALE_LIMIT,
        -SCALE_LIMIT <= v.position.y <= SCALE_LIMIT,
        -SCALE_LIMIT <= v.position.z <= SCALE_LIMIT,
    ensures
        scaled_vertex(v, 2 * FP_ONE as int, FP_ONE as int) == (Vertex {
            position: Vec3Fp {
                x: (2 * v.position.x) as i64,
                y: (2 * v.position.y) as i64,
                z: (2 * v.position.z) as i64,
            },
            tex_coords: v.tex_coords,
        }),
{
    let one = FP_ONE as int;
    lemma_tdiv_mul_cancel(v.position.x as int, one);
    assert(tdiv(v.position.x * one, one) == v.position.x);
    lemma_tdiv_mul_cancel(2 * v.position.x, one);
    assert(v.position.x * (2 * one) == (2 * v.position.x) * one) by (nonlinear_arith);
    lemma_tdiv_mul_cancel(2 * v.position.y, one);
    assert(v.position.y * (2 * one) == (2 * v.position.y) * one) by (nonlinear_arith);
    lemma_tdiv_mul_cancel(2 * v.position.z, one);
    assert(v.position.z * (2 * one) == (2 * v.position.z) * one) by (nonlinear_arith);
}

/// The quad template's vertices: a unit square around the origin.
pub open spec fn quad_vertices() -> Seq<Vertex> {
    seq![
        Vertex {
            position: Vec3Fp { x: -500_000i64, y: -500_000i64, z: 0 },
            tex_coords: Vec2Fp { x: 0, y: 0 },
        },
        Vertex {
            position: Vec3Fp { x: 500_000, y: -500_000i64, z: 0 },
            tex_coords: Vec2Fp { x: FP_ONE, y: 0 },
        },
        Vertex {
            position: Vec3Fp { x: 500_000, y: 500_000, z: 0 },
            tex_coords: Vec2Fp { x: FP_ONE, y: FP_ONE },
        },
        Vertex {
            position: Vec3Fp { x: -500_000i64, y: 500_000, z: 0 },
            tex_coords: Vec2Fp { x: 0, y: FP_ONE },
        },
    ]
}

/// The quad template's index list: two counter-clockwise triangles.
pub open spec fn quad_indices() -> Seq<u16> {
    seq![0u16, 1u16, 3u16, 1u16, 2u16, 3u16]
}

/// The pentagon template's vertices.
pub open spec fn pentagon_vertices() -> Seq<Vertex> {
    seq![
        Vertex {
            position: Vec3Fp { x: -86_824i64, y: 492_404, z: 0 },
            tex_coords: Vec2Fp { x: 413_176, y: 7_596 },
        },
        Vertex {
            position: Vec3Fp { x: -495_134i64, y: 69_586, z: 0 },
            tex_coords: Vec2Fp { x: 4_866, y: 430_414 },
        },
        Vertex {
            position: Vec3Fp { x: -219_185i64, y: -449_397i64, z: 0 },
            tex_coords: Vec2Fp { x: 280_815, y: 949_397 },
        },
        Vertex {
            position: Vec3Fp { x: 359_670, y: -347_329i64, z: 0 },
            tex_coords: Vec2Fp { x: 859_670, y: 847_329 },
        },
        Vertex {
            position: Vec3Fp { x: 441_474, y: 234_736, z: 0 },
            tex_coords: Vec2Fp { x: 941_474, y: 265_264 },
        },
    ]
}

/// The pentagon template's index list: three triangles plus one trailing
/// padding entry that duplicates index 0 and is not part of any drawn
/// triangle.
pub open spec fn pentagon_indices() -> Seq<u16> {
    seq![0u16, 1u16, 4u16, 1u16, 2u16, 4u16, 2u16, 3u16, 4u16, 0u16]
}

/// The four-vertex quad template.
pub struct Quad;

impl Quad {
    /// The template's vertices, in winding order.
    pub fn vertices() -> (v: Vec<Vertex>)
        ensures
            v@ == quad_vertices(),
    {
        let mut v: Vec<Vertex> = Vec::new();
        v.push(Vertex {
            position: Vec3Fp { x: -500_000i64, y: -500_000i64, z: 0 },
            tex_coords: Vec2Fp { x: 0, y: 0 },
        });
        v.push(Vertex {
            position: Vec3Fp { x: 500_000, y: -500_000i64, z: 0 },
            tex_coords: Vec2Fp { x: FP_ONE, y: 0 },
        });
        v.push(Vertex {
            position: Vec3Fp { x: 500_000, y: 500_000, z: 0 },
            tex_coords: Vec2Fp { x: FP_ONE, y: FP_ONE },
        });
        v.push(Vertex {
            position: Vec3Fp { x: -500_000i64, y: 500_000, z: 0 },
            tex_coords: Vec2Fp { x: 0, y: FP_ONE },
        });
        proof {
            assert(v@ =~= quad_vertices());
        }
        v
    }

    /// The template's index list.
    pub fn indices() -> (ix: Vec<u16>)
        ensures
            ix@ == quad_indices(),
    {
        let mut ix: Vec<u16> = Vec::new();
        ix.push(0);
        ix.push(1);
        ix.push(3);
        ix.push(1);
        ix.push(2);
        ix.push(3);
        proof {
            assert(ix@ =~= quad_indices());
        }
        ix
    }

    /// How many indices a draw call over this template uses: all of them.
    pub fn draw_index_count() -> (n: u32)
        ensures
            n == quad_indices().len(),
    {
        6
    }

    /// A scaled copy of the template's vertices; the template's constants
    /// are never touched.
    pub fn scale(factor: i64, aspect: i64) -> (r: Vec<Vertex>)
        requires
            -SCALE_LIMIT <= factor <= SCALE_LIMIT,
            -SCALE_LIMIT <= aspect <= SCALE_LIMIT,
        ensures
            r@.len() == quad_vertices().len(),
            forall|i: int|
                0 <= i < r@.len() ==> r@[i] == scaled_vertex(
                    quad_vertices()[i],
                    factor as int,
                    aspect as int,
                ),
    {
        let v = Self::vertices();
        assert forall|i: int| 0 <= i < v@.len() implies -SCALE_LIMIT <= #[trigger] v@[i].position.x
            <= SCALE_LIMIT && -SCALE_LIMIT <= v@[i].position.y <= SCALE_LIMIT && -SCALE_LIMIT
            <= v@[i].position.z <= SCALE_LIMIT by {
            if i == 0 {
            } else if i == 1 {
            } else if i == 2 {
            } else {
            }
        }
        scale_vertices(&v, factor, aspect)
    }
}

/// The five-vertex pentagon template.
pub struct Pentagon;

impl Pentagon {
    /// The template's vertices, in winding order.
    pub fn vertices() -> (v: Vec<Vertex>)
        ensures
            v@ == pentagon_vertices(),
    {
        let mut v: Vec<Vertex> = Vec::new();
        v.push(Vertex {
            position: Vec3Fp { x: -86_824i64, y: 492_404, z: 0 },
            tex_coords: Vec2Fp { x: 413_176, y: 7_596 },
        });
        v.push(Vertex {
            position: Vec3Fp { x: -495_134i64, y: 69_586, z: 0 },
            tex_coords: Vec2Fp { x: 4_866, y: 430_414 },
        });
        v.push(Vertex {
            position: Vec3Fp { x: -219_185i64, y: -449_397i64, z: 0 },
            tex_coords: Vec2Fp { x: 280_815, y: 949_397 },
        });
        v.push(Vertex {
            position: Vec3Fp { x: 359_670, y: -347_329i64, z: 0 },
            tex_coords: Vec2Fp { x: 859_670, y: 847_329 },
        });
        v.push(Vertex {
            position: Vec3Fp { x: 441_474, y: 234_736, z: 0 },
            tex_coords: Vec2Fp { x: 941_474, y: 265_264 },
        });
        proof {
            assert(v@ =~= pentagon_vertices());
        }
        v
    }

    /// The template's index list, padding entry included.
    pub fn indices() -> (ix: Vec<u16>)
        ensures
            ix@ == pentagon_indices(),
    {
        let mut ix: Vec<u16> = Vec::new();
        ix.push(0);
        ix.push(1);
        ix.push(4);
        ix.push(1);
        ix.push(2);
        ix.push(4);
        ix.push(2);
        ix.push(3);
        ix.push(4);
        ix.push(0);
        proof {
            assert(ix@ =~= pentagon_indices());
        }
        ix
    }

    /// How many indices a draw call over this template uses: all but the
    /// trailing padding entry.
    pub fn draw_index_count() -> (n: u32)
        ensures
            n == pentagon_indices().len() - 1,
    {
        9
    }

    /// A scaled copy of the template's vertices; the template's constants
    /// are never touched.
    pub fn scale(factor: i64, aspect: i64) -> (r: Vec<Vertex>)
        requires
            -SCALE_LIMIT <= factor <= SCALE_LIMIT,
            -SCALE_LIMIT <= aspect <= SCALE_LIMIT,
        ensures
            r@.len() == pentagon_vertices().len(),
            forall|i: int|
                0 <= i < r@.len() ==> r@[i] == scaled_vertex(
                    pentagon_vertices()[i],
                    factor as int,
                    aspect as int,
                ),
    {
        let v = Self::vertices();
        assert forall|i: int| 0 <= i < v@.len() implies -SCALE_LIMIT <= #[trigger] v@[i].position.x
            <= SCALE_LIMIT && -SCALE_LIMIT <= v@[i].position.y <= SCALE_LIMIT && -SCALE_LIMIT
            <= v@[i].position.z <= SCALE_LIMIT by {
            if i == 0 {
            } else if i == 1 {
            } else if i == 2 {
            } else if i == 3 {
            } else {
            }
        }
        scale_vertices(&v, factor, aspect)
    }
}

} // verus!
