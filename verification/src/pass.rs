//! Render passes as recorded command lists.

use vstd::prelude::*;
use crate::binding::{BindingFamily, PipelineKind};
use crate::pipeline::RenderPipeline;

verus! {

/// What happens to the colour target when a pass begins.
#[derive(Clone, Copy, Debug, PartialEq, Eq, Structural)]
pub enum ColorLoad {
    /// The target is cleared to the current background colour.
    ClearToBackground,
    /// The target keeps what earlier passes drew.
    Load,
}

/// What happens to the depth buffer when a pass begins.
#[derive(Clone, Copy, Debug, PartialEq, Eq, Structural)]
pub enum DepthLoad {
    /// Every depth is reset to the far plane, depth one.
    ClearToFar,
    /// The buffer keeps its contents.
    Load,
}

/// The colour attachment of a pass: the frame's surface texture.
#[derive(Clone, Copy, Debug, PartialEq, Eq, Structural)]
pub struct ColorAttachment {
    pub load: ColorLoad,
    pub store: bool,
}

/// The depth attachment of a pass: the current depth texture, without
/// stencil operations.
#[derive(Clone, Copy, Debug, PartialEq, Eq, Structural)]
pub struct DepthAttachment {
    pub load: DepthLoad,
    pub store: bool,
}

/// Width of the indices in an index buffer.
#[derive(Clone, Copy, Debug, PartialEq, Eq, Structural)]
pub enum IndexFormat {
    Uint16,
    Uint32,
}

/// One command of a render pass.
#[derive(Clone, Copy, Debug, PartialEq, Eq, Structural)]
pub enum DrawCommand {
    /// Selects the pipeline of the draws that follow.
    SetPipeline(PipelineKind),
    /// Binds a family's bind group at a slot, without dynamic offsets.
    SetBindGroup { slot: u32, family: BindingFamily },
    /// Binds the whole mesh vertex buffer at a vertex buffer slot.
    SetVertexBuffer { slot: u32 },
    /// Binds the whole mesh index buffer.
    SetIndexBuffer { format: IndexFormat },
    /// Draws indices `0..index_count` for instances `0..instance_count`.
    DrawIndexed { index_count: u32, base_vertex: i32, instance_count: u32 },
    /// Draws vertices `0..vertex_count` for instances `0..instance_count`.
    Draw { vertex_count: u32, instance_count: u32 },
}

/// One recorded render pass.
#[derive(Clone, Debug, PartialEq, Eq)]
pub struct RenderPass {
    pub color: ColorAttachment,
    pub depth: Option<DepthAttachment>,
    pub commands: Vec<DrawCommand>,
}

/// The passes of one submission, in recording order.
#[derive(Clone, Debug, PartialEq, Eq)]
pub struct CommandBuffer {
    pub passes: Vec<RenderPass>,
}

impl DrawCommand {
    /// Whether the command issues a draw.
    pub open spec fn is_draw(self) -> bool {
        self is Draw || self is DrawIndexed
    }

    /// Whether the command binds the bind group of `family` at some slot.
    pub open spec fn binds(self, family: BindingFamily) -> bool {
        self matches DrawCommand::SetBindGroup { family: bound, .. } && bound == family
    }
}

/// The commands that select a pipeline and bind each of its slots in turn.
pub open spec fn prologue(kind: PipelineKind) -> Seq<DrawCommand> {
    seq![DrawCommand::SetPipeline(kind)] + Seq::new(
        kind.slots().len(),
        |s: int| DrawCommand::SetBindGroup { slot: s as u32, family: kind.slots()[s] },
    )
}

/// The commands of the scene pass: pipeline and bind groups, the mesh
/// buffers, then one indexed, instanced draw.
pub open spec fn scene_commands(index_count: u32, instance_count: u32) -> Seq<DrawCommand> {
    prologue(PipelineKind::Scene) + seq![
        DrawCommand::SetVertexBuffer { slot: 0 },
        DrawCommand::SetIndexBuffer { format: IndexFormat::Uint16 },
        DrawCommand::DrawIndexed { index_count, base_vertex: 0, instance_count },
    ]
}

/// The commands of the overlay pass: pipeline and depth bind group, then one
/// triangle that covers the screen.
pub open spec fn overlay_commands() -> Seq<DrawCommand> {
    prologue(PipelineKind::DepthOverlay) + seq![
        DrawCommand::Draw { vertex_count: 3, instance_count: 1 },
    ]
}

impl RenderPass {
    /// Whether this is the scene pass: colour cleared to the background,
    /// depth cleared to the far plane, both stored, and the scene commands.
    pub open spec fn is_scene_pass(&self, index_count: u32, instance_count: u32) -> bool {
        &&& self.color == ColorAttachment { load: ColorLoad::ClearToBackground, store: true }
        &&& self.depth == Some(DepthAttachment { load: DepthLoad::ClearToFar, store: true })
        &&& self.commands@ == scene_commands(index_count, instance_count)
    }

    /// Whether this is the overlay pass: colour loaded and stored, no depth
    /// attachment, and the overlay commands.
    pub open spec fn is_overlay_pass(&self) -> bool {
        &&& self.color == ColorAttachment { load: ColorLoad::Load, store: true }
        &&& self.depth.is_none()
        &&& self.commands@ == overlay_commands()
    }
}

/// Whether a command list binds, after its first and before its last
/// command, the family that `kind` expects at slot `s`.
pub open spec fn binds_slot(commands: Seq<DrawCommand>, kind: PipelineKind, s: int) -> bool {
    exists|i: int|
        0 < i < commands.len() - 1 && #[trigger] commands[i] == (DrawCommand::SetBindGroup {
            slot: s as u32,
            family: kind.slots()[s],
        })
}

/// Whether a command list sets `kind` first, draws last and only there, binds
/// every slot of `kind` before the draw, and binds at no slot a family other
/// than the one `kind` expects there.
pub open spec fn bound_for(commands: Seq<DrawCommand>, kind: PipelineKind) -> bool {
    &&& commands.len() >= 2
    &&& commands[0] == DrawCommand::SetPipeline(kind)
    &&& commands.last().is_draw()
    &&& forall|i: int| 0 <= i < commands.len() - 1 ==> !(#[trigger] commands[i]).is_draw()
    &&& forall|i: int| 0 < i < commands.len() ==> !((#[trigger] commands[i]) is SetPipeline)
    &&& forall|s: int| 0 <= s < kind.slots().len() ==> #[trigger] binds_slot(commands, kind, s)
    &&& forall|i: int|
        0 <= i < commands.len() ==> ((#[trigger] commands[i]) matches DrawCommand::SetBindGroup {
            slot,
            family,
        } ==> slot < kind.slots().len() && kind.slots()[slot as int] == family)
}

/// Whether a command list sets, before its draw, vertex buffer slot `s`.
pub open spec fn sets_vertex_buffer(commands: Seq<DrawCommand>, s: int) -> bool {
    exists|i: int|
        0 < i < commands.len() - 1 && #[trigger] commands[i] == (DrawCommand::SetVertexBuffer {
            slot: s as u32,
        })
}

/// Whether a command list sets an index buffer before its draw.
pub open spec fn sets_index_buffer(commands: Seq<DrawCommand>) -> bool {
    exists|i: int| 0 < i < commands.len() - 1 && (#[trigger] commands[i]) is SetIndexBuffer
}

/// Whether a command list feeds its draw with exactly `count` vertex
/// buffers, and with an index buffer if the draw is indexed.
pub open spec fn feeds_draw(commands: Seq<DrawCommand>, count: nat) -> bool {
    &&& forall|s: int| 0 <= s < count ==> #[trigger] sets_vertex_buffer(commands, s)
    &&& forall|i: int|
        0 <= i < commands.len() ==> ((#[trigger] commands[i]) matches DrawCommand::SetVertexBuffer {
            slot,
        } ==> slot < count)
    &&& (commands.last() is DrawIndexed ==> sets_index_buffer(commands))
}

impl RenderPass {
    /// Whether the pass can be recorded with `pipeline`: every slot of the
    /// pipeline is bound with the family it expects, the pass has a depth
    /// attachment exactly if the pipeline tests depth, and the draw is fed
    /// with the vertex buffers the pipeline reads.
    pub open spec fn fits(&self, pipeline: &RenderPipeline) -> bool {
        &&& bound_for(self.commands@, pipeline.kind)
        &&& self.depth.is_some() == pipeline.depth_stencil.is_some()
        &&& feeds_draw(self.commands@, pipeline.vertex_buffers@.len())
    }

    /// Whether the pass writes the depth texture.
    pub open spec fn writes_depth(&self) -> bool {
        self.depth matches Some(attachment) && attachment.store
    }

    /// Whether the pass reads the depth texture through its bind group.
    pub open spec fn reads_depth(&self) -> bool {
        exists|i: int|
            0 <= i < self.commands@.len() && (#[trigger] self.commands@[i]).binds(
                BindingFamily::Depth,
            )
    }
}

/// Whether no pass reads the depth texture while it is attached, and each
/// pass that reads it comes after a pass that wrote it.
pub open spec fn depth_read_follows_write(passes: Seq<RenderPass>) -> bool {
    forall|j: int|
        0 <= j < passes.len() && (#[trigger] passes[j]).reads_depth() ==> {
            &&& passes[j].depth.is_none()
            &&& exists|i: int| 0 <= i < j && (#[trigger] passes[i]).writes_depth()
        }
}

/// Appends the prologue of a pipeline to a command list.
pub fn begin_pipeline(commands: &mut Vec<DrawCommand>, kind: PipelineKind)
    ensures
        final(commands)@ == old(commands)@ + prologue(kind),
{
    let families = kind.slot_families();
    let ghost start = old(commands)@.len() as int;
    commands.push(DrawCommand::SetPipeline(kind));
    let mut slot: u32 = 0;
    while (slot as usize) < families.len()
        invariant
            families@ == kind.slots(),
            families.len() <= 4,
            slot <= families.len(),
            start == old(commands)@.len(),
            commands@.len() == start + 1 + slot,
            forall|k: int| 0 <= k < start ==> commands@[k] == old(commands)@[k],
            commands@[start] == DrawCommand::SetPipeline(kind),
            forall|k: int|
                start < k < commands@.len() ==> commands@[k] == (DrawCommand::SetBindGroup {
                    slot: (k - start - 1) as u32,
                    family: kind.slots()[k - start - 1],
                }),
        decreases families.len() - slot,
    {
        commands.push(DrawCommand::SetBindGroup { slot, family: families[slot as usize] });
        slot += 1;
    }
    assert(commands@ =~= old(commands)@ + prologue(kind));
}

/// The scene command list is bound for the scene pipeline.
pub proof fn scene_commands_bound(index_count: u32, instance_count: u32)
    ensures
        bound_for(scene_commands(index_count, instance_count), PipelineKind::Scene),
{
    let c = scene_commands(index_count, instance_count);
    let k = PipelineKind::Scene;
    assert(c.len() == 8);
    assert(c[0] == DrawCommand::SetPipeline(k));
    assert forall|s: int| 0 <= s < k.slots().len() implies #[trigger] binds_slot(c, k, s) by {
        assert(c[s + 1] == (DrawCommand::SetBindGroup { slot: s as u32, family: k.slots()[s] }));
    }
    assert forall|i: int| 0 <= i < c.len() implies ((#[trigger] c[i]) matches DrawCommand::SetBindGroup {
        slot,
        family,
    } ==> slot < k.slots().len() && k.slots()[slot as int] == family) by {
        if 1 <= i <= 4 {
            assert(c[i] == (DrawCommand::SetBindGroup {
                slot: (i - 1) as u32,
                family: k.slots()[i - 1],
            }));
        }
    }
    assert(c[5] == DrawCommand::SetVertexBuffer { slot: 0 });
    assert(c[6] == DrawCommand::SetIndexBuffer { format: IndexFormat::Uint16 });
    assert(c[7] == DrawCommand::DrawIndexed { index_count, base_vertex: 0, instance_count });
}

/// The scene pass reads no depth texture; the overlay pass does.
pub proof fn only_overlay_reads_depth(index_count: u32, instance_count: u32)
    ensures
        forall|i: int|
            0 <= i < scene_commands(index_count, instance_count).len() ==> !(
            #[trigger] scene_commands(index_count, instance_count)[i]).binds(BindingFamily::Depth),
        overlay_commands()[1].binds(BindingFamily::Depth),
{
    let c = scene_commands(index_count, instance_count);
    let k = PipelineKind::Scene;
    assert(c.len() == 8);
    assert(c[0] == DrawCommand::SetPipeline(k));
    assert forall|i: int| 1 <= i <= 4 implies c[i] == (DrawCommand::SetBindGroup {
        slot: (i - 1) as u32,
        family: k.slots()[i - 1],
    }) by {}
    assert(c[5] == DrawCommand::SetVertexBuffer { slot: 0 });
    assert(c[6] == DrawCommand::SetIndexBuffer { format: IndexFormat::Uint16 });
    assert(c[7] == DrawCommand::DrawIndexed { index_count, base_vertex: 0, instance_count });
    assert(overlay_commands()[1] == (DrawCommand::SetBindGroup {
        slot: 0,
        family: BindingFamily::Depth,
    }));
}

/// The scene commands feed their draw with one vertex buffer and an index
/// buffer; the overlay commands feed theirs with nothing.
pub proof fn commands_feed_draws(index_count: u32, instance_count: u32)
    ensures
        feeds_draw(scene_commands(index_count, instance_count), 1),
        feeds_draw(overlay_commands(), 0),
{
    let c = scene_commands(index_count, instance_count);
    let k = PipelineKind::Scene;
    assert(c.len() == 8);
    assert(c[0] == DrawCommand::SetPipeline(k));
    assert forall|i: int| 1 <= i <= 4 implies c[i] == (DrawCommand::SetBindGroup {
        slot: (i - 1) as u32,
        family: k.slots()[i - 1],
    }) by {}
    assert(c[5] == DrawCommand::SetVertexBuffer { slot: 0 });
    assert(c[6] == DrawCommand::SetIndexBuffer { format: IndexFormat::Uint16 });
    assert(c[7] == DrawCommand::DrawIndexed { index_count, base_vertex: 0, instance_count });
    assert(sets_vertex_buffer(c, 0));
    assert(sets_index_buffer(c));
    let o = overlay_commands();
    assert(o.len() == 3);
    assert(o[0] == DrawCommand::SetPipeline(PipelineKind::DepthOverlay));
    assert(o[1] == (DrawCommand::SetBindGroup { slot: 0, family: BindingFamily::Depth }));
    assert(o[2] == DrawCommand::Draw { vertex_count: 3, instance_count: 1 });
}

/// The overlay command list is bound for the overlay pipeline.
pub proof fn overlay_commands_bound()
    ensures
        bound_for(overlay_commands(), PipelineKind::DepthOverlay),
{
    let c = overlay_commands();
    let k = PipelineKind::DepthOverlay;
    assert(c.len() == 3);
    assert(c[0] == DrawCommand::SetPipeline(k));
    assert(c[1] == (DrawCommand::SetBindGroup { slot: 0, family: BindingFamily::Depth }));
    assert(c[2] == DrawCommand::Draw { vertex_count: 3, instance_count: 1 });
    assert(binds_slot(c, k, 0));
}

} // verus!
