//! Descriptions of the two render pipelines: shader entry points, bind group
//! layouts in slot order and fixed-function state.

use vstd::prelude::*;
use crate::binding::{layouts_follow, BindGroupLayout, BindingFamily, PipelineKind};
use crate::mesh::{is_vertex_layout, VertexBufferLayout};

verus! {

/// How a fragment is combined with what the target already holds.
#[derive(Clone, Copy, Debug, PartialEq, Eq, Structural)]
pub enum BlendMode {
    /// The fragment replaces the target.
    Replace,
    /// The fragment is laid over the target by its alpha.
    AlphaBlending,
}

/// How vertices are assembled into primitives.
#[derive(Clone, Copy, Debug, PartialEq, Eq, Structural)]
pub enum PrimitiveTopology {
    PointList,
    LineList,
    LineStrip,
    TriangleList,
    TriangleStrip,
}

/// Winding order of a front-facing triangle.
#[derive(Clone, Copy, Debug, PartialEq, Eq, Structural)]
pub enum FrontFace {
    Ccw,
    Cw,
}

/// A side of a triangle.
#[derive(Clone, Copy, Debug, PartialEq, Eq, Structural)]
pub enum Face {
    Front,
    Back,
}

/// How the inside of a polygon is rasterised.
#[derive(Clone, Copy, Debug, PartialEq, Eq, Structural)]
pub enum PolygonMode {
    Fill,
    Line,
    Point,
}

/// Test that a fragment's depth must pass against the stored depth.
#[derive(Clone, Copy, Debug, PartialEq, Eq, Structural)]
pub enum CompareFunction {
    Never,
    Less,
    Equal,
    LessEqual,
    Greater,
    NotEqual,
    GreaterEqual,
    Always,
}

/// Primitive assembly and rasterisation state.
#[derive(Clone, Copy, Debug, PartialEq, Eq, Structural)]
pub struct PrimitiveState {
    pub topology: PrimitiveTopology,
    pub front_face: FrontFace,
    pub cull_mode: Option<Face>,
    pub polygon_mode: PolygonMode,
    pub unclipped_depth: bool,
    pub conservative: bool,
}

/// Depth test against the depth buffer. Stencil and bias are left at rest.
#[derive(Clone, Copy, Debug, PartialEq, Eq, Structural)]
pub struct DepthStencilState {
    pub depth_write_enabled: bool,
    pub depth_compare: CompareFunction,
}

/// Multisampling state.
#[derive(Clone, Copy, Debug, PartialEq, Eq, Structural)]
pub struct MultisampleState {
    pub count: u32,
    pub mask: u64,
    pub alpha_to_coverage_enabled: bool,
}

/// Mask that lets a pipeline write all four colour channels.
pub const COLOR_WRITES_ALL: u32 = 0xf;

/// The one colour target of a pipeline. `format` is the position of the
/// target's texture format among the formats the surface offers.
#[derive(Clone, Copy, Debug, PartialEq, Eq, Structural)]
pub struct ColorTargetState {
    pub format: usize,
    pub blend: BlendMode,
    pub write_mask: u32,
}

/// Everything needed to build one render pipeline.
#[derive(Clone, Debug, PartialEq, Eq)]
pub struct RenderPipeline {
    pub kind: PipelineKind,
    pub bind_group_layouts: Vec<BindGroupLayout>,
    pub vertex_entry_point: &'static str,
    pub fragment_entry_point: &'static str,
    pub vertex_buffers: Vec<VertexBufferLayout>,
    pub target: ColorTargetState,
    pub primitive: PrimitiveState,
    pub depth_stencil: Option<DepthStencilState>,
    pub multisample: MultisampleState,
}

/// Filled triangles from a triangle list, counter-clockwise faces in front,
/// back faces culled.
pub open spec fn culled_triangles() -> PrimitiveState {
    PrimitiveState {
        topology: PrimitiveTopology::TriangleList,
        front_face: FrontFace::Ccw,
        cull_mode: Some(Face::Back),
        polygon_mode: PolygonMode::Fill,
        unclipped_depth: false,
        conservative: false,
    }
}

/// One sample per pixel, every sample enabled.
pub open spec fn single_sample() -> MultisampleState {
    MultisampleState { count: 1, mask: u64::MAX, alpha_to_coverage_enabled: false }
}

impl RenderPipeline {
    /// Whether the pipeline's layouts are those of the families it expects,
    /// in slot order.
    pub open spec fn layouts_in_slot_order(&self) -> bool {
        layouts_follow(self.bind_group_layouts@, self.kind.slots())
    }

    /// Whether this is the scene pipeline over the given layouts, fed by one
    /// buffer of cube vertices and drawing to a target of the given format.
    pub open spec fn is_scene(&self, format: usize, layouts: Seq<BindGroupLayout>) -> bool {
        &&& self.kind == PipelineKind::Scene
        &&& self.bind_group_layouts@ == layouts
        &&& self.vertex_entry_point@ == "vs_main"@
        &&& self.fragment_entry_point@ == "fs_main"@
        &&& self.vertex_buffers@.len() == 1
        &&& is_vertex_layout(self.vertex_buffers@[0])
        &&& self.target == ColorTargetState {
            format,
            blend: BlendMode::Replace,
            write_mask: COLOR_WRITES_ALL,
        }
        &&& self.primitive == culled_triangles()
        &&& self.depth_stencil == Some(
            DepthStencilState { depth_write_enabled: true, depth_compare: CompareFunction::Less },
        )
        &&& self.multisample == single_sample()
    }

    /// Whether this is the depth overlay pipeline over the given layouts,
    /// drawing to a target of the given format.
    pub open spec fn is_depth_overlay(&self, format: usize, layouts: Seq<BindGroupLayout>) -> bool {
        &&& self.kind == PipelineKind::DepthOverlay
        &&& self.bind_group_layouts@ == layouts
        &&& self.vertex_entry_point@ == "depth_view_vs"@
        &&& self.fragment_entry_point@ == "depth_view_fs"@
        &&& self.vertex_buffers@.len() == 0
        &&& self.target == ColorTargetState {
            format,
            blend: BlendMode::AlphaBlending,
            write_mask: COLOR_WRITES_ALL,
        }
        &&& self.primitive == culled_triangles()
        &&& self.depth_stencil.is_none()
        &&& self.multisample == single_sample()
    }
}

/// Back-face culling of filled, counter-clockwise triangles.
pub fn culled_triangle_list() -> (out: PrimitiveState)
    ensures
        out == culled_triangles(),
{
    PrimitiveState {
        topology: PrimitiveTopology::TriangleList,
        front_face: FrontFace::Ccw,
        cull_mode: Some(Face::Back),
        polygon_mode: PolygonMode::Fill,
        unclipped_depth: false,
        conservative: false,
    }
}

/// One sample per pixel, every sample enabled.
pub fn no_multisampling() -> (out: MultisampleState)
    ensures
        out == single_sample(),
{
    MultisampleState { count: 1, mask: u64::MAX, alpha_to_coverage_enabled: false }
}

/// The scene pipeline expects exactly the four scene families, the texture
/// first and the instances last.
pub proof fn scene_slot_order()
    ensures
        PipelineKind::Scene.slots().len() == 4,
        PipelineKind::Scene.slots()[0] == BindingFamily::Texture,
        PipelineKind::Scene.slots()[1] == BindingFamily::Camera,
        PipelineKind::Scene.slots()[2] == BindingFamily::Rotation,
        PipelineKind::Scene.slots()[3] == BindingFamily::Instances,
{
}

} // verus!
