//! Render state and the per-frame protocol.
//!
//! `State` is the single long-lived owner of everything the renderer
//! decides: the surface configuration and window size, the depth
//! buffer's dimensions, the geometry and instance data, the byte sizes
//! of every GPU buffer, and the camera with its uniform. The GPU
//! resources themselves live outside the library; the ghost fields
//! mirror what the device-side buffers hold after each update the
//! methods hand out is performed.
//!
//! Invariants kept by every method: the instance buffer's byte length
//! is always the instance count times one raw instance's size; the
//! camera buffer is one uniform; the depth buffer and the surface
//! configuration always share the last non-zero window size seen.
//! A resize to a zero area is a defensive no-op. Surface errors are
//! classified exactly: lost or outdated surfaces reconfigure and retry,
//! a timeout skips one frame with a log, out-of-memory is fatal.

use vstd::prelude::*;

verus! {

use crate::fp::FP_ONE;
use crate::generics::Instance;
use crate::generics::InstanceRaw;
use crate::generics::Vertex;
use crate::generics::raw_of;
use crate::generics::INSTANCE_RAW_BYTES;
use crate::generics::VERTEX_BYTES;
use crate::generics::INDEX_BYTES;
use crate::simple_camera::Camera;
use crate::simple_camera::CameraUniform;
use crate::simple_camera::ViewProjection;
use crate::simple_camera::view_projection;
use crate::simple_camera::camera_wf;
use crate::simple_camera::spec_aspect_of;
use crate::simple_camera::aspect_of;
use crate::simple_camera::CAMERA_UNIFORM_BYTES;

/// Why the surface failed to yield a frame.
#[derive(Clone, Copy, Debug, PartialEq, Eq, Structural)]
pub enum SurfaceError {
    Lost,
    Outdated,
    OutOfMemory,
    Timeout,
}

/// What the shell must do to the surface and depth buffer after a
/// reconfiguring resize: configure both to the size, then upload the
/// uniform.
#[derive(Clone, Copy, Debug, PartialEq, Eq, Structural)]
pub struct ReconfigurePlan {
    pub width: u32,
    pub height: u32,
    pub uniform: CameraUniform,
}

/// What the driving loop does after one render attempt.
#[derive(Clone, Copy, Debug, PartialEq, Eq, Structural)]
pub enum FrameAction {
    Continue,
    Reconfigured(ReconfigurePlan),
    Exit,
    SkipLogged,
}

/// What the driving loop does after one window event.
#[derive(Clone, Copy, Debug, PartialEq, Eq, Structural)]
pub enum WindowAction {
    Exit,
    Reconfigured(ReconfigurePlan),
    Ignored,
}

/// A window event, reduced to what the renderer decides on.
#[derive(Clone, Copy, Debug, PartialEq, Eq, Structural)]
pub enum WindowEvent {
    CloseRequested,
    EscapePressed,
    Resized(u32, u32),
    ScaleFactorChanged(u32, u32),
    Other,
}

/// The stages one frame passes through, in order.
#[derive(Clone, Copy, Debug, PartialEq, Eq, Structural)]
pub enum FrameStage {
    Idle,
    Updating,
    Acquiring,
    Recording,
    Submitting,
    Presented,
}

/// The stage that follows `s` in the per-frame protocol: update, then
/// acquire, then record, then submit, then present, then back to idle.
pub open spec fn spec_next_frame_stage(s: FrameStage) -> FrameStage {
    match s {
        FrameStage::Idle => FrameStage::Updating,
        FrameStage::Updating => FrameStage::Acquiring,
        FrameStage::Acquiring => FrameStage::Recording,
        FrameStage::Recording => FrameStage::Submitting,
        FrameStage::Submitting => FrameStage::Presented,
        FrameStage::Presented => FrameStage::Idle,
    }
}

/// Advance the frame protocol by one stage.
pub fn advance_frame_stage(s: FrameStage) -> (n: FrameStage)
    ensures
        n == spec_next_frame_stage(s),
{
    match s {
        FrameStage::Idle => FrameStage::Updating,
        FrameStage::Updating => FrameStage::Acquiring,
        FrameStage::Acquiring => FrameStage::Recording,
        FrameStage::Recording => FrameStage::Submitting,
        FrameStage::Submitting => FrameStage::Presented,
        FrameStage::Presented => FrameStage::Idle,
    }
}

/// The fixed near-black clear color of the one render pass.
#[derive(Clone, Copy, Debug, PartialEq, Eq, Structural)]
pub struct ClearColor {
    pub r: i64,
    pub g: i64,
    pub b: i64,
    pub a: i64,
}

/// The clear color's value: (0.004, 0.003, 0.008, 1) in fixed point.
pub open spec fn spec_clear_color() -> ClearColor {
    ClearColor { r: 4_000, g: 3_000, b: 8_000, a: FP_ONE }
}

/// Everything one recorded render pass does: clear the color target and
/// the depth buffer, then draw the whole index range once per instance.
#[derive(Clone, Copy, Debug, PartialEq, Eq, Structural)]
pub struct FramePlan {
    pub clear_color: ClearColor,
    pub depth_clear: i64,
    pub index_count: u32,
    pub instance_count: u32,
}

/// The flat GPU records of an instance list.
pub open spec fn raw_view(s: Seq<Instance>) -> Seq<InstanceRaw> {
    s.map_values(|i: Instance| raw_of(i))
}

/// Flatten an instance list into the records its GPU buffer holds.
pub fn instances_to_raw(instances: &Vec<Instance>) -> (r: Vec<InstanceRaw>)
    ensures
        r@ == raw_view(instances@),
{
    let mut out: Vec<InstanceRaw> = Vec::new();
    let mut i: usize = 0;
    while i < instances.len()
        invariant
            i <= instances@.len(),
            out@.len() == i,
            forall|j: int| 0 <= j < i ==> out@[j] == raw_of(instances@[j]),
        decreases instances@.len() - i,
    {
        out.push(instances[i].to_raw());
        i = i + 1;
    }
    proof {
        assert(out@ =~= raw_view(instances@));
    }
    out
}

/// Pick the surface format: the first sRGB-capable one, else the first
/// offered.
pub fn select_surface_format(srgb: &Vec<bool>) -> (i: usize)
    requires
        srgb@.len() > 0,
    ensures
        i < srgb@.len(),
        srgb@[i as int] ==> forall|j: int| 0 <= j < i ==> !srgb@[j],
        !srgb@[i as int] ==> i == 0 && forall|j: int| 0 <= j < srgb@.len() ==> !srgb@[j],
{
    let mut i: usize = 0;
    while i < srgb.len()
        invariant
            i <= srgb@.len(),
            forall|j: int| 0 <= j < i ==> !srgb@[j],
        decreases srgb@.len() - i,
    {
        if srgb[i] {
            return i;
        }
        i = i + 1;
    }
    0
}

/// The render state: surface and depth configuration, geometry,
/// instances, camera, and the byte sizes and (ghost) contents of the
/// GPU buffers that mirror them.
pub struct State {
    pub config_width: u32,
    pub config_height: u32,
    pub size_width: u32,
    pub size_height: u32,
    pub depth_width: u32,
    pub depth_height: u32,
    pub vertices: Vec<Vertex>,
    pub indices: Vec<u16>,
    pub num_indices: u32,
    pub instances: Vec<Instance>,
    pub num_instances: u32,
    pub vertex_buffer_bytes: u64,
    pub index_buffer_bytes: u64,
    pub instance_buffer_bytes: u64,
    pub camera_buffer_bytes: u64,
    pub camera: Camera,
    pub camera_uniform: CameraUniform,
    pub gpu_instances: Ghost<Seq<InstanceRaw>>,
    pub gpu_camera: Ghost<Option<ViewProjection>>,
}

impl State {
    /// The state's invariant: non-zero surface configuration matching
    /// the window size and the depth buffer, counts matching the data,
    /// and every buffer's byte length derived from its contents.
    pub open spec fn wf(self) -> bool {
        &&& self.config_width > 0
        &&& self.config_height > 0
        &&& self.size_width == self.config_width
        &&& self.size_height == self.config_height
        &&& self.depth_width == self.config_width
        &&& self.depth_height == self.config_height
        &&& self.num_indices <= self.indices@.len()
        &&& self.num_instances == self.instances@.len()
        &&& self.instance_buffer_bytes == self.num_instances * INSTANCE_RAW_BYTES
        &&& self.vertex_buffer_bytes == self.vertices@.len() * VERTEX_BYTES
        &&& self.index_buffer_bytes == self.indices@.len() * INDEX_BYTES
        &&& self.camera_buffer_bytes == CAMERA_UNIFORM_BYTES
        &&& camera_wf(self.camera)
    }

    /// `a` and `b` share the surface, size and depth configuration.
    pub open spec fn same_surface(a: State, b: State) -> bool {
        &&& a.config_width == b.config_width
        &&& a.config_height == b.config_height
        &&& a.size_width == b.size_width
        &&& a.size_height == b.size_height
        &&& a.depth_width == b.depth_width
        &&& a.depth_height == b.depth_height
    }

    /// `a` and `b` share the geometry buffers.
    pub open spec fn same_geometry(a: State, b: State) -> bool {
        &&& a.vertices@ == b.vertices@
        &&& a.indices@ == b.indices@
        &&& a.num_indices == b.num_indices
        &&& a.vertex_buffer_bytes == b.vertex_buffer_bytes
        &&& a.index_buffer_bytes == b.index_buffer_bytes
    }

    /// `a` and `b` share the instance set and its buffer.
    pub open spec fn same_instances(a: State, b: State) -> bool {
        &&& a.instances@ == b.instances@
        &&& a.num_instances == b.num_instances
        &&& a.instance_buffer_bytes == b.instance_buffer_bytes
    }

    /// `a` and `b` share the camera and its uniform.
    pub open spec fn same_camera(a: State, b: State) -> bool {
        &&& a.camera == b.camera
        &&& a.camera_uniform == b.camera_uniform
        &&& a.camera_buffer_bytes == b.camera_buffer_bytes
    }

    /// `b` is `a` reconfigured to the non-zero size `w` by `h`: surface,
    /// window size and depth buffer all take the new size, the camera
    /// keeps everything but its aspect ratio, and the uniform and its
    /// GPU mirror hold the reconfigured camera's view-projection.
    /// Everything else is untouched.
    pub open spec fn reconfigured(a: State, b: State, w: u32, h: u32) -> bool {
        &&& b.config_width == w
        &&& b.config_height == h
        &&& b.size_width == w
        &&& b.size_height == h
        &&& b.depth_width == w
        &&& b.depth_height == h
        &&& b.camera == (Camera { aspect: spec_aspect_of(w as int, h as int) as i64, ..a.camera })
        &&& b.camera_uniform.view_projection == Some(view_projection(b.camera))
        &&& b.camera_buffer_bytes == a.camera_buffer_bytes
        &&& Self::same_geometry(a, b)
        &&& Self::same_instances(a, b)
        &&& b.gpu_instances == a.gpu_instances
        &&& b.gpu_camera@ == Some(view_projection(b.camera))
    }

    /// Build the render state. The caller supplies the window's
    /// non-zero pixel size, the geometry with the index count one draw
    /// call uses, the initial instance set and the camera; every GPU
    /// buffer starts synchronized with that data.
    pub fn new(
        width: u32,
        height: u32,
        vertices: Vec<Vertex>,
        indices: Vec<u16>,
        num_draw_indices: u32,
        instances: Vec<Instance>,
        camera: Camera,
    ) -> (s: State)
        requires
            width > 0,
            height > 0,
            num_draw_indices <= indices@.len(),
            indices@.len() <= u32::MAX,
            vertices@.len() <= u32::MAX,
            instances@.len() <= u32::MAX,
            camera_wf(camera),
        ensures
            s.wf(),
            s.config_width == width,
            s.config_height == height,
            s.vertices@ == vertices@,
            s.indices@ == indices@,
            s.num_indices == num_draw_indices,
            s.instances@ == instances@,
            s.num_instances == instances@.len(),
            s.instance_buffer_bytes == instances@.len() * INSTANCE_RAW_BYTES,
            s.camera == camera,
            s.camera_uniform.view_projection == Some(view_projection(camera)),
            s.gpu_instances@ == raw_view(instances@),
            s.gpu_camera@ == Some(view_projection(camera)),
    {
        proof {
            assert(instances@.len() * INSTANCE_RAW_BYTES <= 0xffff_ffffu64 * INSTANCE_RAW_BYTES)
                by (nonlinear_arith)
                requires
                    instances@.len() <= 0xffff_ffff,
            ;
            assert(vertices@.len() * VERTEX_BYTES <= 0xffff_ffffu64 * VERTEX_BYTES)
                by (nonlinear_arith)
                requires
                    vertices@.len() <= 0xffff_ffff,
            ;
            assert(indices@.len() * INDEX_BYTES <= 0xffff_ffffu64 * INDEX_BYTES)
                by (nonlinear_arith)
                requires
                    indices@.len() <= 0xffff_ffff,
            ;
        }
        let num_instances: u32 = instances.len() as u32;
        let num_vertices: u64 = vertices.len() as u64;
        let num_index_entries: u64 = indices.len() as u64;
        let mut camera_uniform = CameraUniform::new();
        camera_uniform.update_view_projection(&camera);
        let ghost gpu_instances = raw_view(instances@);
        let ghost gpu_camera = Some(view_projection(camera));
        State {
            config_width: width,
            config_height: height,
            size_width: width,
            size_height: height,
            depth_width: width,
            depth_height: height,
            vertex_buffer_bytes: num_vertices * VERTEX_BYTES,
            index_buffer_bytes: num_index_entries * INDEX_BYTES,
            instance_buffer_bytes: (num_instances as u64) * INSTANCE_RAW_BYTES,
            camera_buffer_bytes: CAMERA_UNIFORM_BYTES,
            vertices,
            indices,
            num_indices: num_draw_indices,
            instances,
            num_instances,
            camera,
            camera_uniform,
            gpu_instances: Ghost(gpu_instances),
            gpu_camera: Ghost(gpu_camera),
        }
    }

    /// Regenerate the raw instance records and hand them out for an
    /// in-place write into the existing instance buffer, whose size the
    /// records exactly fill; the ghost mirror takes the new contents.
    pub fn update_instances(&mut self) -> (upload: Vec<InstanceRaw>)
        requires
            old(self).wf(),
        ensures
            final(self).wf(),
            Self::same_surface(*old(self), *final(self)),
            Self::same_geometry(*old(self), *final(self)),
            Self::same_instances(*old(self), *final(self)),
            Self::same_camera(*old(self), *final(self)),
            final(self).gpu_camera == old(self).gpu_camera,
            upload@ == raw_view(old(self).instances@),
            final(self).gpu_instances@ == raw_view(final(self).instances@),
            upload@.len() * INSTANCE_RAW_BYTES == final(self).instance_buffer_bytes,
    {
        let upload = instances_to_raw(&self.instances);
        self.gpu_instances = Ghost(upload@);
        upload
    }

    /// Replace the instance set: the old instance buffer is dropped and
    /// a new one created, sized at the new count times one raw record,
    /// holding exactly the new records.
    pub fn resize_instances(&mut self, instances: Vec<Instance>) -> (upload: Vec<InstanceRaw>)
        requires
            old(self).wf(),
            instances@.len() <= u32::MAX,
        ensures
            final(self).wf(),
            Self::same_surface(*old(self), *final(self)),
            Self::same_geometry(*old(self), *final(self)),
            Self::same_camera(*old(self), *final(self)),
            final(self).gpu_camera == old(self).gpu_camera,
            final(self).instances@ == instances@,
            final(self).num_instances == instances@.len(),
            final(self).instance_buffer_bytes == instances@.len() * INSTANCE_RAW_BYTES,
            upload@ == raw_view(instances@),
            final(self).gpu_instances@ == raw_view(instances@),
    {
        proof {
            assert(instances@.len() * INSTANCE_RAW_BYTES <= 0xffff_ffffu64 * INSTANCE_RAW_BYTES)
                by (nonlinear_arith)
                requires
                    instances@.len() <= 0xffff_ffff,
            ;
        }
        self.instances = instances;
        self.num_instances = self.instances.len() as u32;
        self.instance_buffer_bytes = (self.num_instances as u64) * INSTANCE_RAW_BYTES;
        let upload = instances_to_raw(&self.instances);
        self.gpu_instances = Ghost(upload@);
        upload
    }

    /// Resynchronize the uniform with the camera and hand it out for an
    /// in-place write into the camera buffer.
    pub fn update_camera(&mut self) -> (u: CameraUniform)
        requires
            old(self).wf(),
        ensures
            final(self).wf(),
            Self::same_surface(*old(self), *final(self)),
            Self::same_geometry(*old(self), *final(self)),
            Self::same_instances(*old(self), *final(self)),
            final(self).gpu_instances == old(self).gpu_instances,
            final(self).camera == old(self).camera,
            final(self).camera_buffer_bytes == old(self).camera_buffer_bytes,
            final(self).camera_uniform.view_projection == Some(view_projection(old(self).camera)),
            final(self).gpu_camera@ == Some(view_projection(old(self).camera)),
            u == final(self).camera_uniform,
    {
        self.camera_uniform.update_view_projection(&self.camera);
        self.gpu_camera = Ghost(self.camera_uniform.view_projection);
        self.camera_uniform
    }

    /// Per-frame data refresh: the instance records, regenerated.
    pub fn update(&mut self) -> (upload: Vec<InstanceRaw>)
        requires
            old(self).wf(),
        ensures
            final(self).wf(),
            Self::same_surface(*old(self), *final(self)),
            Self::same_geometry(*old(self), *final(self)),
            Self::same_instances(*old(self), *final(self)),
            Self::same_camera(*old(self), *final(self)),
            final(self).gpu_camera == old(self).gpu_camera,
            upload@ == raw_view(old(self).instances@),
            final(self).gpu_instances@ == raw_view(final(self).instances@),
    {
        self.update_instances()
    }

    /// The renderer consumes no window events itself.
    pub fn input(&mut self, _event: &WindowEvent) -> (handled: bool)
        ensures
            !handled,
            *final(self) == *old(self),
    {
        false
    }

    /// Apply a window size: a zero area is a transient minimized state
    /// and changes nothing; a non-zero size reconfigures the surface,
    /// recreates the depth buffer at the same size, updates the camera's
    /// aspect ratio and resynchronizes the uniform, returning the plan
    /// the shell performs.
    pub fn resize(&mut self, new_width: u32, new_height: u32) -> (plan: Option<ReconfigurePlan>)
        requires
            old(self).wf(),
        ensures
            final(self).wf(),
            (new_width == 0 || new_height == 0) ==> *final(self) == *old(self) && plan.is_none(),
            (new_width > 0 && new_height > 0) ==> Self::reconfigured(
                *old(self),
                *final(self),
                new_width,
                new_height,
            ) && plan == Some(
                ReconfigurePlan {
                    width: new_width,
                    height: new_height,
                    uniform: final(self).camera_uniform,
                },
            ),
    {
        if new_width > 0 && new_height > 0 {
            self.size_width = new_width;
            self.size_height = new_height;
            self.config_width = new_width;
            self.config_height = new_height;
            self.depth_width = new_width;
            self.depth_height = new_height;
            self.camera.aspect = aspect_of(new_width, new_height);
            let uniform = self.update_camera();
            Some(ReconfigurePlan { width: new_width, height: new_height, uniform })
        } else {
            None
        }
    }

    /// The one render pass, as recorded each frame: clear to the fixed
    /// near-black color and full depth, then draw the configured index
    /// range once per instance.
    pub fn frame_plan(&self) -> (p: FramePlan)
        requires
            self.wf(),
        ensures
            p == (FramePlan {
                clear_color: spec_clear_color(),
                depth_clear: FP_ONE,
                index_count: self.num_indices,
                instance_count: self.num_instances,
            }),
    {
        FramePlan {
            clear_color: ClearColor { r: 4_000, g: 3_000, b: 8_000, a: FP_ONE },
            depth_clear: FP_ONE,
            index_count: self.num_indices,
            instance_count: self.num_instances,
        }
    }
}

/// Classify one render attempt and act on it: a lost or outdated
/// surface reconfigures everything at the current window size and
/// retries next frame; out-of-memory is fatal; a timeout skips the
/// frame, logged; success changes nothing.
pub fn handle_rendering(state: &mut State, result: Result<(), SurfaceError>) -> (a: FrameAction)
    requires
        old(state).wf(),
    ensures
        final(state).wf(),
        result == Ok::<(), SurfaceError>(()) ==> *final(state) == *old(state) && a
            == FrameAction::Continue,
        result == Err::<(), SurfaceError>(SurfaceError::Lost) || result == Err::<
            (),
            SurfaceError,
        >(SurfaceError::Outdated) ==> State::reconfigured(
            *old(state),
            *final(state),
            old(state).size_width,
            old(state).size_height,
        ) && a == FrameAction::Reconfigured(
            ReconfigurePlan {
                width: old(state).size_width,
                height: old(state).size_height,
                uniform: final(state).camera_uniform,
            },
        ),
        result == Err::<(), SurfaceError>(SurfaceError::OutOfMemory)
            ==> *final(state) == *old(state) && a == FrameAction::Exit,
        result == Err::<(), SurfaceError>(SurfaceError::Timeout) ==> *final(state) == *old(state)
            && a == FrameAction::SkipLogged,
{
    match result {
        Ok(()) => FrameAction::Continue,
        Err(SurfaceError::Lost) | Err(SurfaceError::Outdated) => {
            let w = state.size_width;
            let h = state.size_height;
            let plan = state.resize(w, h);
            FrameAction::Reconfigured(plan.unwrap())
        },
        Err(SurfaceError::OutOfMemory) => FrameAction::Exit,
        Err(SurfaceError::Timeout) => FrameAction::SkipLogged,
    }
}

/// Decide one window event: closing the window or pressing escape ends
/// the loop; a resize or scale-factor change reconfigures through
/// `State::resize`, with its zero-area no-op; anything else is ignored.
pub fn handle_windowing(state: &mut State, event: &WindowEvent) -> (a: WindowAction)
    requires
        old(state).wf(),
    ensures
        final(state).wf(),
        (*event == WindowEvent::CloseRequested || *event == WindowEvent::EscapePressed)
            ==> *final(state) == *old(state) && a == WindowAction::Exit,
        forall|w: u32, h: u32|
            (*event == WindowEvent::Resized(w, h) || *event == WindowEvent::ScaleFactorChanged(
                w,
                h,
            )) ==> if w > 0 && h > 0 {
                State::reconfigured(*old(state), *final(state), w, h) && a
                    == WindowAction::Reconfigured(
                    ReconfigurePlan { width: w, height: h, uniform: final(state).camera_uniform },
                )
            } else {
                *final(state) == *old(state) && a == WindowAction::Ignored
            },
        *event == WindowEvent::Other ==> *final(state) == *old(state) && a == WindowAction::Ignored,
{
    let handled = state.input(event);
    if handled {
        return WindowAction::Ignored;
    }
    match *event {
        WindowEvent::CloseRequested | WindowEvent::EscapePressed => WindowAction::Exit,
        WindowEvent::Resized(w, h) | WindowEvent::ScaleFactorChanged(w, h) => {
            match state.resize(w, h) {
                Some(plan) => WindowAction::Reconfigured(plan),
                None => WindowAction::Ignored,
            }
        },
        WindowEvent::Other => WindowAction::Ignored,
    }
}

} // verus!
