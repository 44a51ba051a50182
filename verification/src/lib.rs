//! Core of an instanced particle renderer.
//!
//! The library owns everything the renderer decides and computes ahead
//! of the GPU: geometry templates and their scaling (`shapes`), the
//! instance-set generators (`instances`), the camera model and its
//! uniform (`simple_camera`), shader-source caching by content hash
//! (`shader`), the pipeline and vertex-layout descriptions
//! (`pipeline`), and the render state with its buffer bookkeeping,
//! resize handling and surface-error policy (`state`).
//!
//! Coordinates, colors and factors are fixed-point integers counting
//! millionths of a unit (`fp`). A thin unverified shell converts them
//! to the `f32` form the GPU consumes, owns the actual device, surface
//! and window handles, and performs the plans and actions the `state`
//! module hands out.

use vstd::prelude::*;

mod fp;
mod generics;
mod shapes;
mod instances;
mod simple_camera;
mod shader;
mod pipeline;
mod state;

pub use fp::FP_ONE;
pub use fp::PI_FP;
pub use fp::tdiv;
pub use fp::fp_mul;
pub use generics::Vec2Fp;
pub use generics::Vec3Fp;
pub use generics::Vertex;
pub use generics::Instance;
pub use generics::InstanceRaw;
pub use generics::raw_of;
pub use generics::INSTANCE_RAW_BYTES;
pub use generics::VERTEX_BYTES;
pub use generics::INDEX_BYTES;
pub use shapes::Quad;
pub use shapes::Pentagon;
pub use shapes::scale_vertices;
pub use shapes::scaled_vertex;
pub use shapes::vertices_within;
pub use shapes::quad_vertices;
pub use shapes::quad_indices;
pub use shapes::pentagon_vertices;
pub use shapes::pentagon_indices;
pub use shapes::lemma_scale_by_two_doubles;
pub use shapes::SCALE_LIMIT;
pub use instances::create_grid;
pub use instances::create_square;
pub use instances::create_cube;
pub use instances::create_dense_rect;
pub use instances::create_len;
pub use instances::grid_instance_at;
pub use instances::square_instance_at;
pub use instances::cube_instance_at;
pub use instances::grid_step;
pub use instances::centered_term;
pub use instances::centered_sum;
pub use instances::flat_index;
pub use instances::flat_index3;
pub use instances::sum_x;
pub use instances::sum_y;
pub use instances::outline_point;
pub use instances::on_outline;
pub use instances::position_lex_before;
pub use instances::outline_count;
pub use instances::rect_cells;
pub use instances::jitter_ok;
pub use instances::jitter_view;
pub use instances::jitter_limit;
pub use instances::jitter_sum_x;
pub use instances::jitter_sum_y;
pub use instances::jitter_at;
pub use instances::lemma_jitter_sum_none;
pub use instances::lemma_outline_count_closed;
pub use instances::GRID_LIMIT;
pub use instances::CUBE_LIMIT;
pub use instances::OFFSET_LIMIT;
pub use instances::SPACING_LIMIT;
pub use simple_camera::Camera;
pub use simple_camera::CameraUniform;
pub use simple_camera::ViewProjection;
pub use simple_camera::aspect_of;
pub use simple_camera::spec_aspect_of;
pub use simple_camera::view_projection;
pub use simple_camera::camera_wf;
pub use simple_camera::fovy_to_radians;
pub use simple_camera::lemma_view_projection_deterministic;
pub use simple_camera::FOVY_LIMIT;
pub use simple_camera::CAMERA_UNIFORM_BYTES;
pub use shader::Shader;
pub use shader::hash_file;
pub use shader::content_hash;
pub use pipeline::VertexFormat;
pub use pipeline::VertexStepMode;
pub use pipeline::VertexAttributeDesc;
pub use pipeline::VertexBufferLayoutDesc;
pub use pipeline::BlendComponentDesc;
pub use pipeline::CompareFunctionDesc;
pub use pipeline::DepthFormatDesc;
pub use pipeline::RenderPipelineDesc;
pub use pipeline::render_pipeline_desc;
pub use pipeline::vertex_attributes;
pub use pipeline::instance_attributes;
pub use state::SurfaceError;
pub use state::FrameAction;
pub use state::WindowAction;
pub use state::WindowEvent;
pub use state::FrameStage;
pub use state::FramePlan;
pub use state::ReconfigurePlan;
pub use state::ClearColor;
pub use state::State;
pub use state::handle_rendering;
pub use state::handle_windowing;
pub use state::select_surface_format;
pub use state::advance_frame_stage;
pub use state::spec_next_frame_stage;
pub use state::spec_clear_color;
pub use state::raw_view;
pub use state::instances_to_raw;

verus! {

/// Edge length of one particle quad, in millionths (0.08 world units).
pub const PARTICLE_SIZE: i64 = 80_000;

/// Default number of grid columns.
pub const GRID_COLUMNS: u32 = 20;

/// Default number of grid rows.
pub const GRID_ROWS: u32 = 20;

/// Default cube width, in particles.
pub const CUBE_WIDTH: u32 = 20;

/// Default cube height, in particles.
pub const CUBE_HEIGHT: u32 = 20;

/// Default cube depth, in particles.
pub const CUBE_DEPTH: u32 = 20;

} // verus!
