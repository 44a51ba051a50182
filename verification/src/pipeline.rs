//! Render pipeline and vertex layout descriptions.
//!
//! One pipeline is ever built: its vertex stage consumes two interleaved
//! buffers — per-vertex geometry data and per-instance transform and
//! color data, the latter stepping once per instance — its fragment
//! stage blends with straight alpha over and replaced color, back faces
//! are culled with counter-clockwise fronts, and depth testing writes
//! 32-bit float depth with a less-than compare. Multisampling is off
//! (one sample) while alpha-to-coverage is on; that pairing has no
//! effect without multisampling and is kept deliberately, so that the
//! protocol on the wire stays exactly as the shaders were tuned for.
//! These descriptions carry everything the GPU pipeline is built from;
//! the shell maps them one for one onto the graphics API's own
//! descriptor types.

use vstd::prelude::*;

verus! {

use crate::generics::VERTEX_BYTES;
use crate::generics::INSTANCE_RAW_BYTES;

/// The shape of one vertex attribute on the GPU.
#[derive(Clone, Copy, Debug, PartialEq, Eq, Structural)]
pub enum VertexFormat {
    Float32x2,
    Float32x3,
}

/// Whether a vertex buffer advances per vertex or per instance.
#[derive(Clone, Copy, Debug, PartialEq, Eq, Structural)]
pub enum VertexStepMode {
    Vertex,
    Instance,
}

/// One attribute of a vertex buffer: where it starts, which shader slot
/// it feeds, and its format.
#[derive(Clone, Copy, Debug, PartialEq, Eq, Structural)]
pub struct VertexAttributeDesc {
    pub offset: u64,
    pub shader_location: u32,
    pub format: VertexFormat,
}

/// The layout of one vertex buffer: its stride, step mode and
/// attributes.
pub struct VertexBufferLayoutDesc {
    pub array_stride: u64,
    pub step_mode: VertexStepMode,
    pub attributes: Vec<VertexAttributeDesc>,
}

/// How one blend component combines source and destination.
#[derive(Clone, Copy, Debug, PartialEq, Eq, Structural)]
pub enum BlendComponentDesc {
    Replace,
    Over,
}

/// The depth compare function.
#[derive(Clone, Copy, Debug, PartialEq, Eq, Structural)]
pub enum CompareFunctionDesc {
    Never,
    Less,
    Always,
}

/// The depth buffer's texel format.
#[derive(Clone, Copy, Debug, PartialEq, Eq, Structural)]
pub enum DepthFormatDesc {
    Depth32Float,
}

/// Everything the one render pipeline is built from.
pub struct RenderPipelineDesc {
    pub vertex_layout: VertexBufferLayoutDesc,
    pub instance_layout: VertexBufferLayoutDesc,
    pub blend_color: BlendComponentDesc,
    pub blend_alpha: BlendComponentDesc,
    pub front_face_ccw: bool,
    pub cull_back_faces: bool,
    pub depth_format: DepthFormatDesc,
    pub depth_write_enabled: bool,
    pub depth_compare: CompareFunctionDesc,
    pub sample_count: u32,
    pub alpha_to_coverage_enabled: bool,
    pub camera_binding: u32,
}

/// The attributes of the per-vertex buffer: a three-float position in
/// shader slot 0, a two-float texture coordinate in slot 1.
pub open spec fn vertex_attributes() -> Seq<VertexAttributeDesc> {
    seq![
        VertexAttributeDesc { offset: 0, shader_location: 0, format: VertexFormat::Float32x3 },
        VertexAttributeDesc { offset: 12, shader_location: 1, format: VertexFormat::Float32x2 },
    ]
}

/// The attributes of the per-instance buffer: a three-float position in
/// shader slot 5, a three-float color in slot 6.
pub open spec fn instance_attributes() -> Seq<VertexAttributeDesc> {
    seq![
        VertexAttributeDesc { offset: 0, shader_location: 5, format: VertexFormat::Float32x3 },
        VertexAttributeDesc { offset: 12, shader_location: 6, format: VertexFormat::Float32x3 },
    ]
}

impl crate::generics::Vertex {
    /// The GPU layout of the per-vertex buffer: one vertex per step.
    pub fn desc() -> (d: VertexBufferLayoutDesc)
        ensures
            d.array_stride == VERTEX_BYTES,
            d.step_mode == VertexStepMode::Vertex,
            d.attributes@ == vertex_attributes(),
    {
        let mut attributes: Vec<VertexAttributeDesc> = Vec::new();
        attributes.push(
            VertexAttributeDesc { offset: 0, shader_location: 0, format: VertexFormat::Float32x3 },
        );
        attributes.push(
            VertexAttributeDesc { offset: 12, shader_location: 1, format: VertexFormat::Float32x2 },
        );
        proof {
            assert(attributes@ =~= vertex_attributes());
        }
        VertexBufferLayoutDesc {
            array_stride: VERTEX_BYTES,
            step_mode: VertexStepMode::Vertex,
            attributes,
        }
    }
}

impl crate::generics::InstanceRaw {
    /// The GPU layout of the per-instance buffer: one instance per
    /// step.
    pub fn desc() -> (d: VertexBufferLayoutDesc)
        ensures
            d.array_stride == INSTANCE_RAW_BYTES,
            d.step_mode == VertexStepMode::Instance,
            d.attributes@ == instance_attributes(),
    {
        let mut attributes: Vec<VertexAttributeDesc> = Vec::new();
        attributes.push(
            VertexAttributeDesc { offset: 0, shader_location: 5, format: VertexFormat::Float32x3 },
        );
        attributes.push(
            VertexAttributeDesc { offset: 12, shader_location: 6, format: VertexFormat::Float32x3 },
        );
        proof {
            assert(attributes@ =~= instance_attributes());
        }
        VertexBufferLayoutDesc {
            array_stride: INSTANCE_RAW_BYTES,
            step_mode: VertexStepMode::Instance,
            attributes,
        }
    }
}

/// The one pipeline configuration: both vertex buffer layouts, replace
/// color with alpha-over blending, back-face culling with
/// counter-clockwise fronts, a written less-than 32-bit float depth
/// test, one sample with alpha-to-coverage on, and the camera uniform
/// in bind group slot 0.
pub fn render_pipeline_desc() -> (d: RenderPipelineDesc)
    ensures
        d.vertex_layout.array_stride == VERTEX_BYTES,
        d.vertex_layout.step_mode == VertexStepMode::Vertex,
        d.vertex_layout.attributes@ == vertex_attributes(),
        d.instance_layout.array_stride == INSTANCE_RAW_BYTES,
        d.instance_layout.step_mode == VertexStepMode::Instance,
        d.instance_layout.attributes@ == instance_attributes(),
        d.blend_color == BlendComponentDesc::Replace,
        d.blend_alpha == BlendComponentDesc::Over,
        d.front_face_ccw,
        d.cull_back_faces,
        d.depth_format == DepthFormatDesc::Depth32Float,
        d.depth_write_enabled,
        d.depth_compare == CompareFunctionDesc::Less,
        d.sample_count == 1,
        d.alpha_to_coverage_enabled,
        d.camera_binding == 0,
{
    RenderPipelineDesc {
        vertex_layout: crate::generics::Vertex::desc(),
        instance_layout: crate::generics::InstanceRaw::desc(),
        blend_color: BlendComponentDesc::Replace,
        blend_alpha: BlendComponentDesc::Over,
        front_face_ccw: true,
        cull_back_faces: true,
        depth_format: DepthFormatDesc::Depth32Float,
        depth_write_enabled: true,
        depth_compare: CompareFunctionDesc::Less,
        sample_count: 1,
        alpha_to_coverage_enabled: true,
        camera_binding: 0,
    }
}

} // verus!
