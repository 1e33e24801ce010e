//! The depth overlay: a second pipeline that draws the depth buffer over the
//! finished scene.

use vstd::prelude::*;
use crate::binding::{group_matches, BindGroup, BindGroupLayout, BindingFamily, PipelineKind};
use crate::mesh::VertexBufferLayout;
use crate::pass::{
    begin_pipeline, overlay_commands, ColorAttachment, ColorLoad, DrawCommand, RenderPass,
};
use crate::pipeline::{
    culled_triangle_list, no_multisampling, BlendMode, ColorTargetState, RenderPipeline,
    COLOR_WRITES_ALL,
};
use crate::surface::DepthTexture;

verus! {

/// The overlay's pipeline and the bind group through which it reads the
/// depth texture.
#[derive(Clone)]
pub struct DepthView {
    pipeline: RenderPipeline,
    depth_texture_bind_group_layout: BindGroupLayout,
    depth_texture_bind_group: BindGroup,
    bound: Ghost<nat>,
}

impl DepthView {
    /// The overlay's pipeline.
    pub closed spec fn spec_pipeline(&self) -> RenderPipeline {
        self.pipeline
    }

    /// The layout of the depth bind group.
    pub closed spec fn spec_layout(&self) -> BindGroupLayout {
        self.depth_texture_bind_group_layout
    }

    /// The depth bind group.
    pub closed spec fn spec_bind_group(&self) -> BindGroup {
        self.depth_texture_bind_group
    }

    /// The epoch of the depth texture that the bind group refers to.
    pub closed spec fn bound_epoch(&self) -> nat {
        self.bound@
    }

    /// Whether the bind group refers to `depth` and not to a texture that
    /// `depth` has replaced.
    pub open spec fn is_bound_to(&self, depth: &DepthTexture) -> bool {
        self.bound_epoch() == depth.epoch()
    }

    /// Whether pipeline, layout and bind group belong together.
    pub open spec fn wf(&self) -> bool {
        &&& self.spec_layout().family == BindingFamily::Depth
        &&& self.spec_layout().entries@ == BindingFamily::Depth.layout_entries()
        &&& self.spec_bind_group().family == BindingFamily::Depth
        &&& group_matches(self.spec_layout().entries@, self.spec_bind_group().entries@)
        &&& self.spec_pipeline().is_depth_overlay(
            self.spec_pipeline().target.format,
            self.spec_pipeline().bind_group_layouts@,
        )
        &&& self.spec_pipeline().layouts_in_slot_order()
    }

    /// Builds the overlay for a colour target of the given format, reading
    /// the given depth texture.
    pub fn new(target_texture_format: usize, depth_texture: &DepthTexture) -> (out: DepthView)
        ensures
            out.wf(),
            out.is_bound_to(depth_texture),
            out.spec_pipeline().is_depth_overlay(
                target_texture_format,
                out.spec_pipeline().bind_group_layouts@,
            ),
            out.spec_bind_group().entries@ == BindingFamily::Depth.group_entries(),
    {
        let depth_texture_bind_group_layout = BindingFamily::Depth.layout();
        let layouts = PipelineKind::DepthOverlay.layouts();
        let pipeline = Self::create_depth_render_pipeline(target_texture_format, layouts);
        let depth_texture_bind_group = Self::create_bind_group(
            &depth_texture_bind_group_layout,
            depth_texture,
        );
        DepthView {
            pipeline,
            depth_texture_bind_group_layout,
            depth_texture_bind_group,
            bound: Ghost(depth_texture.epoch()),
        }
    }

    /// Builds the bind group that hands the depth texture's view and sampler
    /// to the overlay.
    fn create_bind_group(
        depth_texture_bind_group_layout: &BindGroupLayout,
        depth_texture: &DepthTexture,
    ) -> (out: BindGroup)
        requires
            depth_texture_bind_group_layout.entries@ == BindingFamily::Depth.layout_entries(),
        ensures
            out.family == BindingFamily::Depth,
            out.entries@ == BindingFamily::Depth.group_entries(),
            group_matches(depth_texture_bind_group_layout.entries@, out.entries@),
    {
        BindingFamily::Depth.bind_group()
    }

    /// Rebuilds the bind group for a depth texture that has replaced the one
    /// bound so far.
    pub fn set_depth_texture(&mut self, depth_texture: &DepthTexture)
        requires
            old(self).wf(),
        ensures
            final(self).wf(),
            final(self).is_bound_to(depth_texture),
            final(self).spec_pipeline() == old(self).spec_pipeline(),
            final(self).spec_layout() == old(self).spec_layout(),
            final(self).spec_bind_group().entries@ == BindingFamily::Depth.group_entries(),
    {
        self.depth_texture_bind_group = Self::create_bind_group(
            &self.depth_texture_bind_group_layout,
            depth_texture,
        );
        self.bound = Ghost(depth_texture.epoch());
    }

    /// Describes the overlay pipeline: no vertex buffers, alpha blending over
    /// the target, no depth test.
    pub fn create_depth_render_pipeline(
        target_texture_format: usize,
        bind_group_layouts: Vec<BindGroupLayout>,
    ) -> (out: RenderPipeline)
        ensures
            out.is_depth_overlay(target_texture_format, bind_group_layouts@),
    {
        proof {
            reveal_strlit("depth_view_vs");
            reveal_strlit("depth_view_fs");
        }
        let vertex_buffers: Vec<VertexBufferLayout> = Vec::new();
        RenderPipeline {
            kind: PipelineKind::DepthOverlay,
            bind_group_layouts,
            vertex_entry_point: "depth_view_vs",
            fragment_entry_point: "depth_view_fs",
            vertex_buffers,
            target: ColorTargetState {
                format: target_texture_format,
                blend: BlendMode::AlphaBlending,
                write_mask: COLOR_WRITES_ALL,
            },
            primitive: culled_triangle_list(),
            depth_stencil: None,
            multisample: no_multisampling(),
        }
    }

    /// Records the overlay pass: the colour target is loaded, not cleared,
    /// no depth buffer is attached, and one triangle of three vertices
    /// covers the screen.
    pub fn render(&self) -> (out: RenderPass)
        ensures
            out.is_overlay_pass(),
    {
        let mut commands: Vec<DrawCommand> = Vec::new();
        begin_pipeline(&mut commands, PipelineKind::DepthOverlay);
        commands.push(DrawCommand::Draw { vertex_count: 3, instance_count: 1 });
        assert(commands@ == overlay_commands());
        RenderPass {
            color: ColorAttachment { load: ColorLoad::Load, store: true },
            depth: None,
            commands,
        }
    }

    /// The overlay's pipeline.
    pub fn pipeline(&self) -> (out: &RenderPipeline)
        ensures
            *out == self.spec_pipeline(),
    {
        &self.pipeline
    }

    /// The depth bind group.
    pub fn bind_group(&self) -> (out: &BindGroup)
        ensures
            *out == self.spec_bind_group(),
    {
        &self.depth_texture_bind_group
    }
}

} // verus!
