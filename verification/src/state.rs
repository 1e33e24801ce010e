//! The render state: everything a frame is planned from, and the four
//! operations the host drives it with.

use vstd::prelude::*;
use crate::binding::{group_matches, BindGroup, BindGroupLayout, BindingFamily, PipelineKind};
use crate::depth_view::DepthView;
use crate::frame::{
    abandoned_path, abandoned_path_is_legal, legal_path, presented_path, presented_path_is_legal,
    FrameEvent, FramePhase,
};
use crate::instances::{grid_len, Instances, DEFAULT_GRID_COLS, DEFAULT_GRID_ROWS};
use crate::mesh::{cube_indices, cube_vertices, Mesh, Vertex, VertexBufferLayout};
use crate::pass::{
    begin_pipeline, commands_feed_draws, depth_read_follows_write, only_overlay_reads_depth,
    overlay_commands_bound, scene_commands, scene_commands_bound, ColorAttachment, ColorLoad,
    CommandBuffer, DepthAttachment, DepthLoad, DrawCommand, IndexFormat, RenderPass,
};
use crate::pipeline::{
    culled_triangle_list, no_multisampling, BlendMode, ColorTargetState, CompareFunction,
    DepthStencilState, RenderPipeline, COLOR_WRITES_ALL,
};
use crate::rotator::{matrix_write, CameraState, Rotation, UniformWrite};
use crate::scene::SceneModel;
use crate::surface::{
    check_size, is_compatible, size_is_valid, DepthTexture, InitError, PhysicalSize,
    SurfaceCapabilities, SurfaceConfiguration, SurfaceError,
};

verus! {

/// What kind of scene to set up.
#[derive(Clone, Copy, Debug, PartialEq, Eq, Structural)]
pub struct SceneOptions {
    /// Rows of the instance grid request.
    pub rows: u32,
    /// Columns of the instance grid request.
    pub cols: u32,
    /// Whether the depth buffer is drawn over the scene.
    pub depth_overlay: bool,
}

/// The depth overlay is either left out or present.
#[derive(Clone)]
pub enum Overlay {
    Disabled,
    Enabled(DepthView),
}

/// An event from the host, as far as the render state tells events apart.
#[derive(Clone, Copy, Debug, PartialEq, Eq, Structural)]
pub enum InputEvent {
    /// The cursor moved inside the window.
    CursorMoved,
    /// Anything else.
    Other,
}

/// Who is to handle an event.
#[derive(Clone, Copy, Debug, PartialEq, Eq, Structural)]
pub enum InputRoute {
    /// The background colour is derived anew from the cursor position.
    Background,
    /// The event is handed on to the camera controller.
    CameraController,
}

/// What became of a resize request.
#[derive(Clone, Copy, Debug, PartialEq, Eq, Structural)]
pub enum ResizeOutcome {
    /// The size was out of bounds; nothing is to be done.
    Ignored,
    /// The surface is to be configured anew and the depth texture replaced
    /// by one of the new size; with `overlay_rebound`, the overlay's bind
    /// group is to be rebuilt over the new texture.
    Reconfigured { config: SurfaceConfiguration, overlay_rebound: bool },
}

/// What is to be done with a frame.
#[derive(Clone, Debug, PartialEq, Eq)]
pub enum FrameAction {
    /// Submit the command buffer, then present the surface texture.
    Present(CommandBuffer),
    /// Configure the surface anew at its current size; nothing is drawn.
    Reconfigure(SurfaceConfiguration),
    /// Nothing is drawn and nothing is to be done.
    Skip,
    /// Nothing is drawn; the host is to shut down.
    Shutdown,
}

/// The plan for one frame.
#[derive(Debug, PartialEq, Eq)]
pub struct FrameReport {
    /// What the host is told: success, or why no surface texture was had.
    pub result: Result<(), SurfaceError>,
    /// What is to be done.
    pub action: FrameAction,
    /// The phases the frame passes through, in order.
    pub phases: Vec<FramePhase>,
}

/// The render state.
pub struct State {
    config: SurfaceConfiguration,
    size: PhysicalSize,
    phase: FramePhase,
    render_pipeline: RenderPipeline,
    mesh: Mesh,
    texture_bind_group: BindGroup,
    camera_state: CameraState,
    rotator: Rotation,
    instances: Instances,
    depth_texture: DepthTexture,
    depth_view: Overlay,
}

impl SceneOptions {
    /// The usual scene: the default grid with the depth overlay.
    pub fn standard() -> (out: SceneOptions)
        ensures
            out == (SceneOptions {
                rows: DEFAULT_GRID_ROWS,
                cols: DEFAULT_GRID_COLS,
                depth_overlay: true,
            }),
    {
        SceneOptions { rows: DEFAULT_GRID_ROWS, cols: DEFAULT_GRID_COLS, depth_overlay: true }
    }
}

impl Overlay {
    /// The epoch of the depth texture that the overlay reads, if there is an
    /// overlay.
    pub open spec fn bound_epoch(&self) -> Option<nat> {
        match self {
            Overlay::Disabled => None,
            Overlay::Enabled(view) => Some(view.bound_epoch()),
        }
    }

    /// Whether the overlay, if there is one, is well formed.
    pub open spec fn wf(&self) -> bool {
        self matches Overlay::Enabled(view) ==> view.wf()
    }

    /// Whether the overlay, if there is one, draws to a target of the given
    /// format.
    pub open spec fn targets(&self, format: usize) -> bool {
        self matches Overlay::Enabled(view) ==> view.spec_pipeline().target.format == format
    }
}

impl InputEvent {
    /// Who handles the event: the cursor sets the background, everything
    /// else goes to the camera controller.
    pub open spec fn route(self) -> InputRoute {
        match self {
            InputEvent::CursorMoved => InputRoute::Background,
            InputEvent::Other => InputRoute::CameraController,
        }
    }
}

impl InputRoute {
    /// Whether the event counts as consumed, given what the camera
    /// controller answered in case the event was handed to it.
    pub fn consumed(self, controller_consumed: bool) -> (out: bool)
        ensures
            out == match self {
                InputRoute::Background => true,
                InputRoute::CameraController => controller_consumed,
            },
    {
        match self {
            InputRoute::Background => true,
            InputRoute::CameraController => controller_consumed,
        }
    }
}

impl FrameReport {
    /// Whether this is the plan of a frame that is drawn: the scene pass,
    /// then the overlay pass if there is an overlay, in one command buffer
    /// that is submitted and presented.
    pub open spec fn presents(&self, index_count: u32, instance_count: u32, overlay: bool) -> bool {
        &&& self.result == Ok::<(), SurfaceError>(())
        &&& self.action matches FrameAction::Present(buffer)
        &&& buffer.passes@.len() == (if overlay {
            2nat
        } else {
            1nat
        })
        &&& buffer.passes@[0].is_scene_pass(index_count, instance_count)
        &&& (overlay ==> buffer.passes@[1].is_overlay_pass())
        &&& self.phases@ == presented_path(overlay)
    }

    /// Whether this is the plan of a frame that is given up for `error`:
    /// the surface is configured anew when it was lost or outdated, the
    /// host shuts down when memory ran out, and a timeout just skips the
    /// frame.
    pub open spec fn abandons(&self, error: SurfaceError, config: SurfaceConfiguration) -> bool {
        &&& self.result == Err::<(), SurfaceError>(error)
        &&& match error {
            SurfaceError::Lost | SurfaceError::Outdated => self.action
                == FrameAction::Reconfigure(config),
            SurfaceError::Timeout => self.action == FrameAction::Skip,
            SurfaceError::OutOfMemory => self.action == FrameAction::Shutdown,
        }
        &&& self.phases@ == abandoned_path()
    }
}

impl View for State {
    type V = SceneModel;

    closed spec fn view(&self) -> SceneModel {
        SceneModel {
            config: self.config,
            size: self.size,
            depth_width: self.depth_texture.spec_width(),
            depth_height: self.depth_texture.spec_height(),
            depth_epoch: self.depth_texture.epoch(),
            overlay: self.depth_view.bound_epoch(),
            rotation: self.rotator,
            camera: self.camera_state,
            phase: self.phase,
        }
    }
}

impl State {
    /// The scene pipeline.
    pub closed spec fn spec_render_pipeline(&self) -> RenderPipeline {
        self.render_pipeline
    }

    /// The cube mesh.
    pub closed spec fn spec_mesh(&self) -> Mesh {
        self.mesh
    }

    /// The diffuse texture's bind group.
    pub closed spec fn spec_texture_bind_group(&self) -> BindGroup {
        self.texture_bind_group
    }

    /// The instance grid.
    pub closed spec fn spec_instances(&self) -> Instances {
        self.instances
    }

    /// The depth overlay.
    pub closed spec fn spec_depth_view(&self) -> Overlay {
        self.depth_view
    }

    /// The depth texture.
    pub closed spec fn spec_depth_texture(&self) -> DepthTexture {
        self.depth_texture
    }

    /// Whether the parts of the state agree with each other: the model's
    /// invariant holds, mesh and grid are well formed, and every bind group
    /// fits the layout its pipeline expects.
    pub open spec fn wf(&self) -> bool {
        &&& self@.inv()
        &&& self.spec_mesh().wf()
        &&& self.spec_instances().wf()
        &&& self.spec_render_pipeline().is_scene(
            self@.config.format,
            self.spec_render_pipeline().bind_group_layouts@,
        )
        &&& self.spec_render_pipeline().layouts_in_slot_order()
        &&& self.spec_texture_bind_group().family == BindingFamily::Texture
        &&& group_matches(
            BindingFamily::Texture.layout_entries(),
            self.spec_texture_bind_group().entries@,
        )
        &&& self.spec_depth_view().wf()
        &&& self.spec_depth_view().targets(self@.config.format)
        &&& self.spec_depth_view().bound_epoch() == self@.overlay
    }

    /// Whether everything that is built once is the same in both states.
    pub open spec fn same_resources(&self, other: &State) -> bool {
        &&& self.spec_render_pipeline() == other.spec_render_pipeline()
        &&& self.spec_mesh() == other.spec_mesh()
        &&& self.spec_texture_bind_group() == other.spec_texture_bind_group()
        &&& self.spec_instances() == other.spec_instances()
    }

    /// Sets up the scene for a surface with the given capabilities and a
    /// window of the given size.
    pub fn new(caps: &SurfaceCapabilities, width: u32, height: u32, options: SceneOptions) -> (out:
        Result<State, InitError>)
        ensures
            match out {
                Ok(state) => {
                    &&& is_compatible(caps)
                    &&& size_is_valid(width, height)
                    &&& grid_len(options.rows as int, options.cols as int) <= u32::MAX
                    &&& state.wf()
                    &&& state@ == SceneModel::initial(state@.config, options.depth_overlay)
                    &&& state@.rotation.steps() == 0
                    &&& state@.camera.revision() == 0
                    &&& state@.config.is_initial(caps, width, height)
                    &&& state.spec_instances().spec_rows() == options.rows
                    &&& state.spec_instances().spec_cols() == options.cols
                    &&& state.spec_mesh().vertices@ == cube_vertices()
                    &&& state.spec_mesh().indices@ == cube_indices()
                },
                Err(InitError::IncompatibleSurface) => !is_compatible(caps),
                Err(InitError::InvalidSize) => is_compatible(caps) && !size_is_valid(width, height),
                Err(InitError::TooManyInstances) => {
                    &&& is_compatible(caps)
                    &&& size_is_valid(width, height)
                    &&& grid_len(options.rows as int, options.cols as int) > u32::MAX
                },
            },
    {
        let config = match SurfaceConfiguration::new(caps, width, height) {
            Ok(config) => config,
            Err(e) => {
                return Err(e);
            },
        };
        let texture_bind_group = BindingFamily::Texture.bind_group();
        let depth_texture = DepthTexture::create_depth_texture(&config);
        let mesh = Mesh::new();
        let camera_state = CameraState::new(config.width, config.height);
        let rotator = Rotation::new();
        let instances = match Instances::new(options.rows, options.cols) {
            Some(instances) => instances,
            None => {
                return Err(InitError::TooManyInstances);
            },
        };
        let bind_group_layouts = PipelineKind::Scene.layouts();
        let render_pipeline = Self::create_render_scene_pipeline(config.format, bind_group_layouts);
        let depth_view = if options.depth_overlay {
            Overlay::Enabled(DepthView::new(config.format, &depth_texture))
        } else {
            Overlay::Disabled
        };
        let state = State {
            config,
            size: PhysicalSize { width, height },
            phase: FramePhase::Idle,
            render_pipeline,
            mesh,
            texture_bind_group,
            camera_state,
            rotator,
            instances,
            depth_texture,
            depth_view,
        };
        assert(state@ == SceneModel::initial(config, options.depth_overlay));
        Ok(state)
    }

    /// Describes the scene pipeline: one buffer of cube vertices, opaque
    /// output, back faces culled, depth tested with "less" and written.
    pub fn create_render_scene_pipeline(
        target_texture_format: usize,
        bind_group_layouts: Vec<BindGroupLayout>,
    ) -> (out: RenderPipeline)
        ensures
            out.is_scene(target_texture_format, bind_group_layouts@),
    {
        proof {
            reveal_strlit("vs_main");
            reveal_strlit("fs_main");
        }
        let mut vertex_buffers: Vec<VertexBufferLayout> = Vec::new();
        vertex_buffers.push(Vertex::desc());
        RenderPipeline {
            kind: PipelineKind::Scene,
            bind_group_layouts,
            vertex_entry_point: "vs_main",
            fragment_entry_point: "fs_main",
            vertex_buffers,
            target: ColorTargetState {
                format: target_texture_format,
                blend: BlendMode::Replace,
                write_mask: COLOR_WRITES_ALL,
            },
            primitive: culled_triangle_list(),
            depth_stencil: Some(
                DepthStencilState {
                    depth_write_enabled: true,
                    depth_compare: CompareFunction::Less,
                },
            ),
            multisample: no_multisampling(),
        }
    }

    /// Records the scene pass: colour and depth are cleared, the four bind
    /// groups are bound in slot order, and every index of the mesh is drawn
    /// once for every instance.
    pub fn run_cubes_pipeline(&self) -> (out: RenderPass)
        requires
            self.wf(),
        ensures
            out.is_scene_pass(
                self.spec_mesh().num_indices,
                self.spec_instances().cells().len() as u32,
            ),
    {
        let mut commands: Vec<DrawCommand> = Vec::new();
        begin_pipeline(&mut commands, PipelineKind::Scene);
        commands.push(DrawCommand::SetVertexBuffer { slot: 0 });
        commands.push(DrawCommand::SetIndexBuffer { format: IndexFormat::Uint16 });
        commands.push(
            DrawCommand::DrawIndexed {
                index_count: self.mesh.num_indices,
                base_vertex: 0,
                instance_count: self.instances.count(),
            },
        );
        assert(commands@ == scene_commands(
            self.mesh.num_indices,
            self.instances.cells().len() as u32,
        ));
        RenderPass {
            color: ColorAttachment { load: ColorLoad::ClearToBackground, store: true },
            depth: Some(DepthAttachment { load: DepthLoad::ClearToFar, store: true }),
            commands,
        }
    }

    /// Takes over a new surface size. A size with a zero or an oversized
    /// dimension is ignored. Otherwise the configuration is changed, the
    /// depth texture is replaced by one of the new size, and the overlay's
    /// bind group is rebuilt over it.
    pub fn resize(&mut self, new_size: PhysicalSize) -> (out: ResizeOutcome)
        requires
            old(self).wf(),
        ensures
            final(self).wf(),
            final(self)@ == old(self)@.after_resize(new_size.width, new_size.height),
            final(self).same_resources(old(self)),
            out == if size_is_valid(new_size.width, new_size.height) {
                ResizeOutcome::Reconfigured {
                    config: final(self)@.config,
                    overlay_rebound: old(self)@.overlay.is_some(),
                }
            } else {
                ResizeOutcome::Ignored
            },
            !size_is_valid(new_size.width, new_size.height) ==> final(self)@ == old(self)@,
    {
        if check_size(new_size.width, new_size.height) {
            self.size = new_size;
            self.config = self.config.resized(new_size.width, new_size.height);
            self.depth_texture = self.depth_texture.recreate(&self.config);
            let overlay_rebound = match &mut self.depth_view {
                Overlay::Enabled(depth_view) => {
                    depth_view.set_depth_texture(&self.depth_texture);
                    true
                },
                Overlay::Disabled => false,
            };
            ResizeOutcome::Reconfigured { config: self.config, overlay_rebound }
        } else {
            ResizeOutcome::Ignored
        }
    }

    /// Takes note of an input event and says who handles it. The state
    /// itself keeps nothing of the event.
    pub fn input(&mut self, event: InputEvent) -> (out: InputRoute)
        requires
            old(self).wf(),
        ensures
            final(self).wf(),
            final(self)@ == old(self)@.after_input(),
            final(self).same_resources(old(self)),
            out == event.route(),
    {
        self.phase = self.phase.advance(FrameEvent::Input).unwrap();
        match event {
            InputEvent::CursorMoved => InputRoute::Background,
            InputEvent::Other => InputRoute::CameraController,
        }
    }

    /// Advances both animators by one step and lists the uploads that bring
    /// their uniform buffers up to date: the camera first, then the
    /// rotation.
    pub fn update(&mut self) -> (out: Vec<UniformWrite>)
        requires
            old(self).wf(),
        ensures
            final(self).wf(),
            final(self)@ == old(self)@.after_update(),
            final(self)@.rotation.steps() == old(self)@.rotation.steps() + 1,
            final(self)@.camera.revision() == old(self)@.camera.revision() + 1,
            final(self).same_resources(old(self)),
            out@ == seq![
                matrix_write(BindingFamily::Camera),
                matrix_write(BindingFamily::Rotation),
            ],
    {
        let camera = self.camera_state.update();
        let rotation = self.rotator.update();
        self.phase = self.phase.advance(FrameEvent::Update).unwrap();
        let mut out: Vec<UniformWrite> = Vec::new();
        out.push(camera);
        out.push(rotation);
        out
    }

    /// Plans one frame, given whether the surface handed out its next
    /// texture. With a texture, the scene pass and then the overlay pass
    /// are recorded into one command buffer, which is submitted and
    /// presented. Without one, the frame is given up. Either way the
    /// animators and everything else but the phase stay as they are.
    pub fn render(&mut self, acquired: Result<(), SurfaceError>) -> (out: FrameReport)
        requires
            old(self).wf(),
        ensures
            final(self).wf(),
            final(self)@ == old(self)@.after_render(acquired),
            final(self).same_resources(old(self)),
            legal_path(old(self)@.phase, out.phases@),
            out.phases@.last() == final(self)@.phase,
            match acquired {
                Ok(_) => out.presents(
                    old(self).spec_mesh().num_indices,
                    old(self).spec_instances().cells().len() as u32,
                    old(self)@.overlay.is_some(),
                ),
                Err(error) => out.abandons(error, old(self)@.config),
            },
    {
        let mut phases: Vec<FramePhase> = Vec::new();
        match acquired {
            Ok(_) => {
                let mut passes: Vec<RenderPass> = Vec::new();
                let acquired_phase = self.phase.advance(FrameEvent::Acquire).unwrap();
                phases.push(acquired_phase);
                passes.push(self.run_cubes_pipeline());
                let main_phase = acquired_phase.advance(FrameEvent::RecordMainPass).unwrap();
                phases.push(main_phase);
                let recorded_phase = match &self.depth_view {
                    Overlay::Enabled(depth_view) => {
                        passes.push(depth_view.render());
                        let overlay_phase = main_phase.advance(
                            FrameEvent::RecordOverlayPass,
                        ).unwrap();
                        phases.push(overlay_phase);
                        overlay_phase
                    },
                    Overlay::Disabled => main_phase,
                };
                let submitted_phase = recorded_phase.advance(FrameEvent::Submit).unwrap();
                phases.push(submitted_phase);
                let presented_phase = submitted_phase.advance(FrameEvent::Present).unwrap();
                phases.push(presented_phase);
                let idle_phase = presented_phase.advance(FrameEvent::Finish).unwrap();
                phases.push(idle_phase);
                proof {
                    presented_path_is_legal(self.phase, self@.overlay.is_some());
                    assert(phases@ == presented_path(self@.overlay.is_some()));
                }
                self.phase = idle_phase;
                FrameReport {
                    result: Ok(()),
                    action: FrameAction::Present(CommandBuffer { passes }),
                    phases,
                }
            },
            Err(error) => {
                let idle_phase = self.phase.advance(FrameEvent::AcquireFailed(error)).unwrap();
                phases.push(idle_phase);
                proof {
                    abandoned_path_is_legal(self.phase, error);
                    assert(phases@ == abandoned_path());
                }
                self.phase = idle_phase;
                let action = match error {
                    SurfaceError::Lost | SurfaceError::Outdated => FrameAction::Reconfigure(
                        self.config,
                    ),
                    SurfaceError::Timeout => FrameAction::Skip,
                    SurfaceError::OutOfMemory => FrameAction::Shutdown,
                };
                FrameReport { result: Err(error), action, phases }
            },
        }
    }

    /// The size last accepted.
    pub fn size(&self) -> (out: PhysicalSize)
        ensures
            out == self@.size,
    {
        self.size
    }

    /// The surface configuration.
    pub fn config(&self) -> (out: SurfaceConfiguration)
        ensures
            out == self@.config,
    {
        self.config
    }

    /// Where the frame stands.
    pub fn phase(&self) -> (out: FramePhase)
        ensures
            out == self@.phase,
    {
        self.phase
    }

    /// The instance grid.
    pub fn instances(&self) -> (out: &Instances)
        ensures
            *out == self.spec_instances(),
    {
        &self.instances
    }

    /// The cube mesh.
    pub fn mesh(&self) -> (out: &Mesh)
        ensures
            *out == self.spec_mesh(),
    {
        &self.mesh
    }

    /// The scene pipeline.
    pub fn render_pipeline(&self) -> (out: &RenderPipeline)
        ensures
            *out == self.spec_render_pipeline(),
    {
        &self.render_pipeline
    }

    /// The diffuse texture's bind group.
    pub fn texture_bind_group(&self) -> (out: &BindGroup)
        ensures
            *out == self.spec_texture_bind_group(),
    {
        &self.texture_bind_group
    }

    /// The depth texture.
    pub fn depth_texture(&self) -> (out: &DepthTexture)
        ensures
            *out == self.spec_depth_texture(),
            out.spec_width() == self@.depth_width,
            out.spec_height() == self@.depth_height,
    {
        &self.depth_texture
    }

    /// The depth overlay.
    pub fn depth_view(&self) -> (out: &Overlay)
        ensures
            *out == self.spec_depth_view(),
    {
        &self.depth_view
    }

    /// The camera.
    pub fn camera_state(&self) -> (out: &CameraState)
        ensures
            *out == self@.camera,
    {
        &self.camera_state
    }
}

/// In a frame that is drawn, each pass fits the pipeline it is recorded
/// with, and the overlay reads the depth texture only after the scene pass
/// has written it and while no pass has it attached.
pub proof fn presented_frame_is_consistent(state: &State, report: &FrameReport)
    requires
        state.wf(),
        report.presents(
            state.spec_mesh().num_indices,
            state.spec_instances().cells().len() as u32,
            state@.overlay.is_some(),
        ),
    ensures
        report.action matches FrameAction::Present(buffer) && {
            &&& buffer.passes@[0].fits(&state.spec_render_pipeline())
            &&& (state.spec_depth_view() matches Overlay::Enabled(view)
                ==> buffer.passes@.len() == 2 && buffer.passes@[1].fits(&view.spec_pipeline()))
            &&& depth_read_follows_write(buffer.passes@)
        },
{
    let index_count = state.spec_mesh().num_indices;
    let instance_count = state.spec_instances().cells().len() as u32;
    scene_commands_bound(index_count, instance_count);
    overlay_commands_bound();
    commands_feed_draws(index_count, instance_count);
    only_overlay_reads_depth(index_count, instance_count);
    if let FrameAction::Present(buffer) = report.action {
        let passes = buffer.passes@;
        assert(passes[0].writes_depth());
        assert(!passes[0].reads_depth());
        assert forall|j: int| 0 <= j < passes.len() && (#[trigger] passes[j]).reads_depth() implies {
            &&& passes[j].depth.is_none()
            &&& exists|i: int| 0 <= i < j && (#[trigger] passes[i]).writes_depth()
        } by {
            assert(j == 1);
        }
    }
}

} // verus!
