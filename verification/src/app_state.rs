//! The rendering context and the frame it is drawing: surface configuration,
//! resize, and the state machine that takes one frame from acquisition to
//! presentation.

use vstd::prelude::*;
use crate::camera::CameraRaw;
use crate::error::{InitializationError, StartupError, SurfaceError};
use crate::pipeline::{BindGroupId, PipelineSettings};
use crate::resource::{
    Extent3d, TextureDimension, TextureFormat, TextureSettings, TextureUsages,
};
use crate::texture::{cubemap_error, CubeMap, FaceImage};
use crate::uniform::{Time, Uniform, UNIFORM_BYTES};
use crate::layout::{holds_words_at, is_memory_image, ONE_BITS, ZERO_BITS};
use crate::vertex::{are_vertices_of, load_error, load_model, BufferGeometry, Mesh};

verus! {

/// The width of the window when it opens.
pub const INITIAL_WIDTH: u32 = 1600;

/// The height of the window when it opens.
pub const INITIAL_HEIGHT: u32 = 900;

/// How many texture formats, alpha modes and present modes a surface offers
/// for the adapter in use.
#[derive(Clone, Copy, Debug, PartialEq, Eq)]
pub struct SurfaceCaps {
    pub formats: usize,
    pub alpha_modes: usize,
    pub present_modes: usize,
}

/// The configuration of the swapchain. Format, alpha mode and present mode
/// are positions in the lists that the surface offers.
#[derive(Clone, Copy, Debug, PartialEq, Eq)]
pub struct SurfaceConfig {
    pub width: u32,
    pub height: u32,
    pub format: usize,
    pub alpha_mode: usize,
    pub present_mode: usize,
    pub usage: TextureUsages,
    pub desired_maximum_frame_latency: u32,
}

/// The configuration chosen at startup: the first format, alpha mode and
/// present mode offered, a render target, at most two frames in flight.
pub open spec fn initial_config(width: u32, height: u32) -> SurfaceConfig {
    SurfaceConfig {
        width,
        height,
        format: 0,
        alpha_mode: 0,
        present_mode: 0,
        usage: TextureUsages { texture_binding: false, copy_dst: false, render_attachment: true },
        desired_maximum_frame_latency: 2,
    }
}

/// The creation parameters of the depth texture for a surface of `width` by
/// `height` pixels.
pub open spec fn depth_settings(width: u32, height: u32) -> TextureSettings {
    TextureSettings {
        size: Extent3d { width, height, depth_or_array_layers: 1 },
        mip_level_count: 1,
        sample_count: 1,
        dimension: TextureDimension::D2,
        format: TextureFormat::Depth32Float,
        usage: TextureUsages { texture_binding: false, copy_dst: false, render_attachment: true },
    }
}

/// Where the current frame stands.
#[derive(Clone, Copy, Debug, PartialEq, Eq)]
pub enum FramePhase {
    /// No frame is in flight.
    Idle,
    /// The next image of the surface is being acquired.
    Acquiring,
    /// The render pass is being recorded.
    Recording,
    /// The recorded commands are being submitted to the queue.
    Submitted,
    /// The image is being presented.
    Presented,
}

/// What the surrounding loop reports to the frame.
#[derive(Clone, Copy, Debug, PartialEq, Eq)]
pub enum FrameEvent {
    /// A redraw was requested.
    Redraw,
    /// The image was acquired.
    Acquired,
    /// No image could be acquired.
    AcquireFailed(SurfaceError),
    /// The render pass was recorded.
    Recorded,
    /// The queue took the commands.
    Submitted,
    /// The image was presented.
    Presented,
    /// The step in progress failed.
    Failed,
}

/// What the surrounding loop is to do next.
#[derive(Clone, Copy, Debug, PartialEq, Eq)]
pub enum FrameAction {
    /// Acquire the next image of the surface.
    Acquire,
    /// Record the render pass that `AppState::record_pass` describes.
    Record,
    /// Submit the recorded commands to the queue.
    Submit,
    /// Present the acquired image.
    Present,
    /// The frame is complete.
    Done,
    /// Configure the surface again; this frame is abandoned.
    Reconfigure,
    /// This frame is abandoned; whatever was recorded is dropped.
    Skip,
    /// Stop the render loop.
    Stop,
    /// The event does not belong to the current phase; nothing changes.
    Ignore,
}

/// The phase that follows `phase` on `event`.
pub open spec fn next_phase(phase: FramePhase, suspended: bool, event: FrameEvent) -> FramePhase {
    match (phase, event) {
        (FramePhase::Idle, FrameEvent::Redraw) => if suspended {
            FramePhase::Idle
        } else {
            FramePhase::Acquiring
        },
        (FramePhase::Acquiring, FrameEvent::Acquired) => FramePhase::Recording,
        (FramePhase::Acquiring, FrameEvent::AcquireFailed(_)) => FramePhase::Idle,
        (FramePhase::Recording, FrameEvent::Recorded) => FramePhase::Submitted,
        (FramePhase::Recording, FrameEvent::Failed) => FramePhase::Idle,
        (FramePhase::Submitted, FrameEvent::Submitted) => FramePhase::Presented,
        (FramePhase::Submitted, FrameEvent::Failed) => FramePhase::Idle,
        (FramePhase::Presented, FrameEvent::Presented) => FramePhase::Idle,
        (FramePhase::Presented, FrameEvent::Failed) => FramePhase::Idle,
        _ => phase,
    }
}

/// What is to be done when `event` arrives in `phase`.
pub open spec fn next_action(phase: FramePhase, suspended: bool, event: FrameEvent) -> FrameAction {
    match (phase, event) {
        (FramePhase::Idle, FrameEvent::Redraw) => if suspended {
            FrameAction::Skip
        } else {
            FrameAction::Acquire
        },
        (FramePhase::Acquiring, FrameEvent::Acquired) => FrameAction::Record,
        (FramePhase::Acquiring, FrameEvent::AcquireFailed(SurfaceError::Lost)) => {
            FrameAction::Reconfigure
        },
        (FramePhase::Acquiring, FrameEvent::AcquireFailed(SurfaceError::Outdated)) => {
            FrameAction::Reconfigure
        },
        (FramePhase::Acquiring, FrameEvent::AcquireFailed(SurfaceError::Timeout)) => {
            FrameAction::Skip
        },
        (FramePhase::Acquiring, FrameEvent::AcquireFailed(SurfaceError::OutOfMemory)) => {
            FrameAction::Stop
        },
        (FramePhase::Recording, FrameEvent::Recorded) => FrameAction::Submit,
        (FramePhase::Recording, FrameEvent::Failed) => FrameAction::Skip,
        (FramePhase::Submitted, FrameEvent::Submitted) => FrameAction::Present,
        (FramePhase::Submitted, FrameEvent::Failed) => FrameAction::Skip,
        (FramePhase::Presented, FrameEvent::Presented) => FrameAction::Done,
        (FramePhase::Presented, FrameEvent::Failed) => FrameAction::Skip,
        _ => FrameAction::Ignore,
    }
}

/// One of the two pipelines.
#[derive(Clone, Copy, Debug, PartialEq, Eq)]
pub enum PipelineId {
    Sky,
    Mesh,
}

/// A half-open range of vertices, indices or instances.
#[derive(Clone, Copy, Debug, PartialEq, Eq)]
pub struct Span {
    pub start: u32,
    pub end: u32,
}

/// One command of the render pass.
#[derive(Clone, Copy, Debug, PartialEq, Eq)]
pub enum PassCommand {
    /// Bind `group` at group index `index`, without dynamic offsets.
    SetBindGroup { index: u32, group: BindGroupId },
    /// Switch to a pipeline.
    SetPipeline(PipelineId),
    /// Bind the whole vertex buffer of the model at `slot`.
    SetVertexBuffer { slot: u32 },
    /// Bind the whole index buffer of the model, as 32-bit indices.
    SetIndexBuffer,
    /// Draw without buffers.
    Draw { vertices: Span, instances: Span },
    /// Draw through the index buffer.
    DrawIndexed { indices: Span, base_vertex: i32, instances: Span },
}

/// The color to which the target is cleared.
#[derive(Clone, Copy, Debug, PartialEq, Eq)]
pub enum ClearColor {
    /// Opaque black.
    Black,
}

/// The one render pass of a frame: what its attachments are cleared to, and
/// its commands in order. `clear_depth` is a single-precision bit pattern.
#[derive(Clone, Debug, PartialEq, Eq)]
pub struct RenderPass {
    pub clear_color: ClearColor,
    pub clear_depth: u32,
    pub commands: Vec<PassCommand>,
}

/// The commands of a frame for a model of `index_count` indices: both bind
/// groups are bound once; the skybox is drawn as three vertices without a
/// buffer; then the mesh is drawn with one indexed draw over all its indices.
pub open spec fn frame_commands(index_count: u32) -> Seq<PassCommand> {
    seq![
        PassCommand::SetBindGroup { index: 0, group: BindGroupId::Uniform },
        PassCommand::SetBindGroup { index: 1, group: BindGroupId::Skybox },
        PassCommand::SetPipeline(PipelineId::Sky),
        PassCommand::Draw {
            vertices: Span { start: 0, end: 3 },
            instances: Span { start: 0, end: 1 },
        },
        PassCommand::SetPipeline(PipelineId::Mesh),
        PassCommand::SetVertexBuffer { slot: 0 },
        PassCommand::SetIndexBuffer,
        PassCommand::DrawIndexed {
            indices: Span { start: 0, end: index_count },
            base_vertex: 0,
            instances: Span { start: 0, end: 1 },
        },
    ]
}

/// Why the renderer cannot start, if it cannot: the surface offers no format,
/// no alpha mode or no present mode; or else the mesh cannot be used; or else
/// the skybox cannot.
pub open spec fn startup_error(
    caps: SurfaceCaps,
    models: Seq<Mesh>,
    faces: Seq<FaceImage>,
) -> Option<StartupError> {
    if caps.formats == 0 {
        Some(StartupError::Initialization(InitializationError::NoSurfaceFormat))
    } else if caps.alpha_modes == 0 {
        Some(StartupError::Initialization(InitializationError::NoAlphaMode))
    } else if caps.present_modes == 0 {
        Some(StartupError::Initialization(InitializationError::NoPresentMode))
    } else {
        match load_error(models) {
            Some(e) => Some(StartupError::Asset(e)),
            None => match cubemap_error(faces) {
                Some(e) => Some(StartupError::Asset(e)),
                None => None,
            },
        }
    }
}

/// The rendering context: the configuration of the surface, the resources
/// built at startup, and the phase of the frame in flight.
#[derive(Clone, Debug, PartialEq, Eq)]
pub struct AppState {
    pub config: SurfaceConfig,
    pub suspended: bool,
    pub phase: FramePhase,
    pub render_pipeline: PipelineSettings,
    pub sky_pipeline: PipelineSettings,
    pub uniform: Uniform,
    pub model: BufferGeometry,
    pub sky_box: CubeMap,
    pub depth_texture: TextureSettings,
}

impl AppState {
    /// The context is valid: its resources are well-formed, the pipelines are
    /// the mesh and the skybox pipeline, the depth texture has the size of
    /// the surface, and frames are drawn only on a surface that has pixels.
    pub open spec fn wf(&self) -> bool {
        &&& self.uniform.wf()
        &&& self.model.wf()
        &&& self.sky_box.wf()
        &&& self.render_pipeline.is_mesh_pipeline()
        &&& self.sky_pipeline.is_sky_pipeline()
        &&& self.depth_texture == depth_settings(self.config.width, self.config.height)
        &&& !self.suspended ==> self.config.width > 0 && self.config.height > 0
        &&& self.phase != FramePhase::Idle ==> !self.suspended
    }

    /// Builds the context for a window of `width` by `height` pixels.
    ///
    /// The surface takes the first format, alpha mode and present mode that
    /// it offers. The uniform state starts at the clock reading `now` with the
    /// matrices `camera`; the model is the first of `models`; the skybox is
    /// assembled from `faces`. A window without pixels starts suspended.
    pub fn new(
        width: u32,
        height: u32,
        caps: SurfaceCaps,
        now: u64,
        camera: CameraRaw,
        models: &Vec<Mesh>,
        faces: &[FaceImage; 6],
    ) -> (r: Result<AppState, StartupError>)
        ensures
            match r {
                Ok(state) => {
                    &&& startup_error(caps, models@, faces@) is None
                    &&& state.wf()
                    &&& state.phase == FramePhase::Idle
                    &&& state.config == initial_config(width, height)
                    &&& state.suspended == (width == 0 || height == 0)
                    &&& state.uniform.time == (Time { start: now, prev_frame: now, elapsed_frame: 0 })
                    &&& state.uniform.camera == camera
                    &&& state.uniform.seconds == ZERO_BITS
                    &&& are_vertices_of(state.model.vertices@, models@[0])
                    &&& state.model.indices@ == models@[0].indices@
                    &&& state.sky_box.describes(faces@)
                },
                Err(e) => startup_error(caps, models@, faces@) == Some(e),
            },
    {
        if caps.formats == 0 {
            return Err(StartupError::Initialization(InitializationError::NoSurfaceFormat));
        }
        if caps.alpha_modes == 0 {
            return Err(StartupError::Initialization(InitializationError::NoAlphaMode));
        }
        if caps.present_modes == 0 {
            return Err(StartupError::Initialization(InitializationError::NoPresentMode));
        }
        let render_attachment = TextureUsages {
            texture_binding: false,
            copy_dst: false,
            render_attachment: true,
        };
        let config = SurfaceConfig {
            width,
            height,
            format: 0,
            alpha_mode: 0,
            present_mode: 0,
            usage: render_attachment,
            desired_maximum_frame_latency: 2,
        };
        let uniform = Uniform::new(now, camera);
        let model = match load_model(models) {
            Ok(model) => model,
            Err(e) => {
                return Err(StartupError::Asset(e));
            },
        };
        let sky_box = match CubeMap::new(faces) {
            Ok(sky_box) => sky_box,
            Err(e) => {
                return Err(StartupError::Asset(e));
            },
        };
        let depth_texture = TextureSettings {
            size: Extent3d { width, height, depth_or_array_layers: 1 },
            mip_level_count: 1,
            sample_count: 1,
            dimension: TextureDimension::D2,
            format: TextureFormat::Depth32Float,
            usage: render_attachment,
        };
        Ok(
            AppState {
                config,
                suspended: width == 0 || height == 0,
                phase: FramePhase::Idle,
                render_pipeline: PipelineSettings::mesh(),
                sky_pipeline: PipelineSettings::sky(),
                uniform,
                model,
                sky_box,
                depth_texture,
            },
        )
    }

    /// The context after the window was resized to `width` by `height`. A
    /// size without pixels changes nothing but suspends drawing; any other
    /// size becomes the size of the surface and of the depth texture, and
    /// drawing resumes.
    pub open spec fn resized(self, width: u32, height: u32) -> AppState {
        if width == 0 || height == 0 {
            AppState { suspended: true, ..self }
        } else {
            AppState {
                config: SurfaceConfig { width, height, ..self.config },
                depth_texture: depth_settings(width, height),
                suspended: false,
                ..self
            }
        }
    }

    /// Takes note that the window was resized to `width` by `height`, between
    /// two frames. Returns whether the surface is to be configured again, and
    /// the depth texture made anew, before the next frame: that is so exactly
    /// when the new size has pixels.
    pub fn resize(&mut self, width: u32, height: u32) -> (reconfigure: bool)
        requires
            old(self).phase == FramePhase::Idle,
        ensures
            *final(self) == old(self).resized(width, height),
            reconfigure == (width > 0 && height > 0),
            old(self).wf() ==> final(self).wf(),
    {
        if width == 0 || height == 0 {
            self.suspended = true;
            false
        } else {
            self.config.width = width;
            self.config.height = height;
            self.depth_texture = TextureSettings {
                size: Extent3d { width, height, depth_or_array_layers: 1 },
                mip_level_count: 1,
                sample_count: 1,
                dimension: TextureDimension::D2,
                format: TextureFormat::Depth32Float,
                usage: TextureUsages {
                    texture_binding: false,
                    copy_dst: false,
                    render_attachment: true,
                },
            };
            self.suspended = false;
            true
        }
    }

    /// Runs the frame's update at the clock reading `now`: see
    /// `Uniform::update`. The camera moves by the time since the previous
    /// frame; the block holds the time since the start. Returns the bytes to
    /// write to the uniform buffer, on the queue that will take this frame's
    /// commands.
    pub fn update<S: FnOnce(u64) -> CameraRaw, C: FnOnce(u64) -> u32>(
        &mut self,
        now: u64,
        camera_step: S,
        to_seconds: C,
    ) -> (bytes: Vec<u8>)
        requires
            call_requires(camera_step, (old(self).uniform.time.advanced(now).elapsed_frame,)),
            call_requires(to_seconds, (old(self).uniform.time.elapsed_at(now),)),
        ensures
            final(self).uniform.time == old(self).uniform.time.advanced(now),
            call_ensures(
                camera_step,
                (final(self).uniform.time.elapsed_frame,),
                final(self).uniform.camera,
            ),
            call_ensures(
                to_seconds,
                (old(self).uniform.time.elapsed_at(now),),
                final(self).uniform.seconds,
            ),
            *final(self) == (AppState { uniform: final(self).uniform, ..*old(self) }),
            old(self).wf() ==> final(self).wf(),
            is_memory_image(bytes@, final(self).uniform.raw().words()),
            bytes@.len() == UNIFORM_BYTES,
            holds_words_at(bytes@, 0, final(self).uniform.camera.view_matrix@),
            holds_words_at(bytes@, 64, final(self).uniform.camera.perspective_matrix@),
            holds_words_at(bytes@, 128, seq![final(self).uniform.seconds]),
            holds_words_at(bytes@, 132, seq![ZERO_BITS, ZERO_BITS, ZERO_BITS]),
    {
        self.uniform.update(now, camera_step, to_seconds)
    }

    /// The context after `event`.
    pub open spec fn stepped(self, event: FrameEvent) -> AppState {
        AppState { phase: next_phase(self.phase, self.suspended, event), ..self }
    }

    /// What is to be done when `event` arrives.
    pub open spec fn reaction(self, event: FrameEvent) -> FrameAction {
        next_action(self.phase, self.suspended, event)
    }

    /// Advances the frame by one event and says what to do next.
    ///
    /// A redraw starts a frame, unless drawing is suspended. The frame then
    /// goes from acquiring to recording, submitting and presenting, one step
    /// for each event that reports the step before as done. A lost or
    /// outdated surface asks for its configuration and ends the frame; a
    /// timeout ends the frame; a device out of memory stops the loop; a
    /// failure in a later step ends the frame with nothing submitted or
    /// presented after it. An event that the phase does not expect is ignored.
    pub fn render(&mut self, event: FrameEvent) -> (action: FrameAction)
        ensures
            *final(self) == old(self).stepped(event),
            action == old(self).reaction(event),
            old(self).wf() ==> final(self).wf(),
    {
        let (phase, action) = match (self.phase, event) {
            (FramePhase::Idle, FrameEvent::Redraw) => {
                if self.suspended {
                    (FramePhase::Idle, FrameAction::Skip)
                } else {
                    (FramePhase::Acquiring, FrameAction::Acquire)
                }
            },
            (FramePhase::Acquiring, FrameEvent::Acquired) => (
                FramePhase::Recording,
                FrameAction::Record,
            ),
            (FramePhase::Acquiring, FrameEvent::AcquireFailed(error)) => {
                match error {
                    SurfaceError::Lost => (FramePhase::Idle, FrameAction::Reconfigure),
                    SurfaceError::Outdated => (FramePhase::Idle, FrameAction::Reconfigure),
                    SurfaceError::Timeout => (FramePhase::Idle, FrameAction::Skip),
                    SurfaceError::OutOfMemory => (FramePhase::Idle, FrameAction::Stop),
                }
            },
            (FramePhase::Recording, FrameEvent::Recorded) => (
                FramePhase::Submitted,
                FrameAction::Submit,
            ),
            (FramePhase::Submitted, FrameEvent::Submitted) => (
                FramePhase::Presented,
                FrameAction::Present,
            ),
            (FramePhase::Presented, FrameEvent::Presented) => (
                FramePhase::Idle,
                FrameAction::Done,
            ),
            (FramePhase::Recording, FrameEvent::Failed) => (FramePhase::Idle, FrameAction::Skip),
            (FramePhase::Submitted, FrameEvent::Failed) => (FramePhase::Idle, FrameAction::Skip),
            (FramePhase::Presented, FrameEvent::Failed) => (FramePhase::Idle, FrameAction::Skip),
            (phase, _) => (phase, FrameAction::Ignore),
        };
        self.phase = phase;
        action
    }

    /// The render pass of a frame: color cleared to black, depth cleared to
    /// 1.0, and the commands of `frame_commands` for the model's indices.
    pub fn record_pass(&self) -> (pass: RenderPass)
        requires
            self.model.indices@.len() <= u32::MAX,
        ensures
            pass.clear_color == ClearColor::Black,
            pass.clear_depth == ONE_BITS,
            pass.commands@ == frame_commands(self.model.indices@.len() as u32),
    {
        let one = Span { start: 0, end: 1 };
        let mut commands: Vec<PassCommand> = Vec::new();
        commands.push(
            PassCommand::SetBindGroup {
                index: BindGroupId::Uniform.slot(),
                group: BindGroupId::Uniform,
            },
        );
        commands.push(
            PassCommand::SetBindGroup {
                index: BindGroupId::Skybox.slot(),
                group: BindGroupId::Skybox,
            },
        );
        commands.push(PassCommand::SetPipeline(PipelineId::Sky));
        commands.push(PassCommand::Draw { vertices: Span { start: 0, end: 3 }, instances: one });
        commands.push(PassCommand::SetPipeline(PipelineId::Mesh));
        commands.push(PassCommand::SetVertexBuffer { slot: 0 });
        commands.push(PassCommand::SetIndexBuffer);
        commands.push(
            PassCommand::DrawIndexed {
                indices: Span { start: 0, end: self.model.index_count() },
                base_vertex: 0,
                instances: one,
            },
        );
        assert(commands@ =~= frame_commands(self.model.indices@.len() as u32));
        RenderPass { clear_color: ClearColor::Black, clear_depth: ONE_BITS, commands }
    }
}

/// A frame that meets no failure is acquired, recorded, submitted and
/// presented, in this order and once each, and leaves the context as it was.
pub open spec fn presents_one_frame(s: AppState) -> bool {
    let acquiring = s.stepped(FrameEvent::Redraw);
    let recording = acquiring.stepped(FrameEvent::Acquired);
    let submitted = recording.stepped(FrameEvent::Recorded);
    let presented = submitted.stepped(FrameEvent::Submitted);
    &&& s.reaction(FrameEvent::Redraw) == FrameAction::Acquire
    &&& acquiring.phase == FramePhase::Acquiring
    &&& acquiring.reaction(FrameEvent::Acquired) == FrameAction::Record
    &&& recording.phase == FramePhase::Recording
    &&& recording.reaction(FrameEvent::Recorded) == FrameAction::Submit
    &&& submitted.phase == FramePhase::Submitted
    &&& submitted.reaction(FrameEvent::Submitted) == FrameAction::Present
    &&& presented.phase == FramePhase::Presented
    &&& presented.reaction(FrameEvent::Presented) == FrameAction::Done
    &&& presented.stepped(FrameEvent::Presented) == s
}

/// In a valid context that is idle and not suspended, a redraw whose steps
/// all succeed presents exactly one image and returns to idle.
pub proof fn lemma_frame_presents(s: AppState)
    requires
        s.wf(),
        s.phase == FramePhase::Idle,
        !s.suspended,
    ensures
        presents_one_frame(s),
{
}

/// When the surface is lost or outdated at acquisition, the frame ends with
/// the request to configure the surface again; the context is idle and
/// otherwise unchanged, so that the next redraw presents a frame.
pub proof fn lemma_lost_surface_recovers(s: AppState, error: SurfaceError)
    requires
        s.wf(),
        s.phase == FramePhase::Idle,
        !s.suspended,
        error == SurfaceError::Lost || error == SurfaceError::Outdated,
    ensures
        s.stepped(FrameEvent::Redraw).reaction(FrameEvent::AcquireFailed(error))
            == FrameAction::Reconfigure,
        s.stepped(FrameEvent::Redraw).stepped(FrameEvent::AcquireFailed(error)) == s,
        presents_one_frame(s.stepped(FrameEvent::Redraw).stepped(FrameEvent::AcquireFailed(error))),
{
}

/// A timeout at acquisition ends the frame and nothing else; a device out of
/// memory stops the loop.
pub proof fn lemma_acquisition_failures(s: AppState)
    requires
        s.phase == FramePhase::Acquiring,
    ensures
        s.reaction(FrameEvent::AcquireFailed(SurfaceError::Timeout)) == FrameAction::Skip,
        s.reaction(FrameEvent::AcquireFailed(SurfaceError::OutOfMemory)) == FrameAction::Stop,
        forall|error: SurfaceError| #[trigger]
            s.stepped(FrameEvent::AcquireFailed(error)).phase == FramePhase::Idle,
{
}

/// A resize to a size without pixels leaves the context valid and changes
/// neither the configuration nor any resource; the next redraw is skipped.
pub proof fn lemma_resize_without_pixels(s: AppState, width: u32, height: u32)
    requires
        s.wf(),
        s.phase == FramePhase::Idle,
        width == 0 || height == 0,
    ensures
        s.resized(width, height).wf(),
        s.resized(width, height) == (AppState { suspended: true, ..s }),
        s.resized(width, height).reaction(FrameEvent::Redraw) == FrameAction::Skip,
        s.resized(width, height).stepped(FrameEvent::Redraw) == s.resized(width, height),
{
}

/// After a resize to a size without pixels, a resize to a size with pixels
/// gives a valid context of that size, and the next redraw presents a frame.
pub proof fn lemma_resize_resumes(s: AppState, w0: u32, h0: u32, width: u32, height: u32)
    requires
        s.wf(),
        s.phase == FramePhase::Idle,
        w0 == 0 || h0 == 0,
        width > 0,
        height > 0,
    ensures
        s.resized(w0, h0).resized(width, height).wf(),
        s.resized(w0, h0).resized(width, height) == s.resized(width, height),
        s.resized(width, height).config.width == width,
        s.resized(width, height).config.height == height,
        s.resized(width, height).depth_texture == depth_settings(width, height),
        presents_one_frame(s.resized(w0, h0).resized(width, height)),
{
}

/// The steps of a frame come in order: a pass is recorded only on an image
/// just acquired, commands are submitted only when the pass was recorded,
/// an image is presented only when its commands were submitted, and a frame
/// is complete only when its image was presented. A failure while recording,
/// submitting or presenting ends the frame at once.
pub proof fn lemma_steps_in_order(phase: FramePhase, suspended: bool, event: FrameEvent)
    ensures
        next_action(phase, suspended, event) == FrameAction::Acquire ==> phase == FramePhase::Idle
            && !suspended && event == FrameEvent::Redraw,
        next_action(phase, suspended, event) == FrameAction::Record ==> phase
            == FramePhase::Acquiring && event == FrameEvent::Acquired,
        next_action(phase, suspended, event) == FrameAction::Submit ==> phase
            == FramePhase::Recording && event == FrameEvent::Recorded,
        next_action(phase, suspended, event) == FrameAction::Present ==> phase
            == FramePhase::Submitted && event == FrameEvent::Submitted,
        next_action(phase, suspended, event) == FrameAction::Done ==> phase
            == FramePhase::Presented && event == FrameEvent::Presented,
        event == FrameEvent::Failed && (phase == FramePhase::Recording || phase
            == FramePhase::Submitted || phase == FramePhase::Presented) ==> next_phase(
            phase,
            suspended,
            event,
        ) == FramePhase::Idle && next_action(phase, suspended, event) == FrameAction::Skip,
{
}

/// What the window system reports to the loop.
#[derive(Clone, Copy, Debug, PartialEq, Eq)]
pub enum WindowSignal {
    /// The window is to be closed.
    CloseRequested,
    /// The window is to be drawn again.
    RedrawRequested,
    /// The window has a new size.
    Resized { width: u32, height: u32 },
    /// All pending events were delivered.
    AboutToWait,
    /// Anything else.
    Other,
}

/// What the loop does about a signal.
#[derive(Clone, Copy, Debug, PartialEq, Eq)]
pub enum LoopAction {
    /// Leave the loop.
    Exit,
    /// Run one update and then one frame.
    Frame,
    /// Hand the new size to `AppState::resize`.
    Resize { width: u32, height: u32 },
    /// Ask the window for a redraw.
    RequestRedraw,
    /// Do nothing.
    Wait,
}

/// What the loop does about `signal`: a close request ends it, a redraw
/// request runs exactly one update and one frame, a new size is taken note
/// of, and when all events were delivered the next redraw is asked for.
pub open spec fn loop_action(signal: WindowSignal) -> LoopAction {
    match signal {
        WindowSignal::CloseRequested => LoopAction::Exit,
        WindowSignal::RedrawRequested => LoopAction::Frame,
        WindowSignal::Resized { width, height } => LoopAction::Resize { width, height },
        WindowSignal::AboutToWait => LoopAction::RequestRedraw,
        WindowSignal::Other => LoopAction::Wait,
    }
}

/// What the loop does about `signal`.
pub fn on_signal(signal: WindowSignal) -> (action: LoopAction)
    ensures
        action == loop_action(signal),
{
    match signal {
        WindowSignal::CloseRequested => LoopAction::Exit,
        WindowSignal::RedrawRequested => LoopAction::Frame,
        WindowSignal::Resized { width, height } => LoopAction::Resize { width, height },
        WindowSignal::AboutToWait => LoopAction::RequestRedraw,
        WindowSignal::Other => LoopAction::Wait,
    }
}

/// Whether the loop goes on after a frame step asked for `action`: it stops
/// exactly when the step asked to stop.
pub fn keeps_running(action: FrameAction) -> (running: bool)
    ensures
        running == (action != FrameAction::Stop),
{
    match action {
        FrameAction::Stop => false,
        _ => true,
    }
}

} // verus!
