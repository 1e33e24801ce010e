//! Resource families, the slot each one occupies in a pipeline, and the
//! schema of the bind group that carries it.

use vstd::prelude::*;

verus! {

/// A family of GPU resources that is bound as one group.
#[derive(Clone, Copy, Debug, PartialEq, Eq, Structural)]
pub enum BindingFamily {
    /// Diffuse texture and its sampler.
    Texture,
    /// Camera view-projection uniform.
    Camera,
    /// Accumulated rotation uniform.
    Rotation,
    /// Per-instance model transforms.
    Instances,
    /// Depth texture and its comparison sampler.
    Depth,
}

/// The two pipelines of a frame.
#[derive(Clone, Copy, Debug, PartialEq, Eq, Structural)]
pub enum PipelineKind {
    /// Textured, instanced cubes.
    Scene,
    /// Depth buffer drawn over the finished scene.
    DepthOverlay,
}

/// Shader stage that may read a binding.
#[derive(Clone, Copy, Debug, PartialEq, Eq, Structural)]
pub enum ShaderStage {
    Vertex,
    Fragment,
}

/// How a texture binding is sampled.
#[derive(Clone, Copy, Debug, PartialEq, Eq, Structural)]
pub enum TextureSampleKind {
    Float { filterable: bool },
    Depth,
}

/// What a sampler binding does with the texels it reads.
#[derive(Clone, Copy, Debug, PartialEq, Eq, Structural)]
pub enum SamplerKind {
    Filtering,
    Comparison,
}

/// How a buffer binding is addressed by the shader.
#[derive(Clone, Copy, Debug, PartialEq, Eq, Structural)]
pub enum BufferKind {
    Uniform,
    Storage { read_only: bool },
}

/// The type of one binding. Textures are two-dimensional; buffers are bound
/// whole, without a minimum size.
#[derive(Clone, Copy, Debug, PartialEq, Eq, Structural)]
pub enum BindingKind {
    Texture { sample: TextureSampleKind, multisampled: bool },
    Sampler(SamplerKind),
    Buffer { kind: BufferKind, has_dynamic_offset: bool },
}

/// One entry of a bind group layout.
#[derive(Clone, Copy, Debug, PartialEq, Eq, Structural)]
pub struct LayoutEntry {
    pub binding: u32,
    pub visibility: ShaderStage,
    pub kind: BindingKind,
}

/// The schema of one family's bind group.
#[derive(Clone, Debug, PartialEq, Eq)]
pub struct BindGroupLayout {
    pub family: BindingFamily,
    pub entries: Vec<LayoutEntry>,
}

/// What a bind group puts at one binding.
#[derive(Clone, Copy, Debug, PartialEq, Eq, Structural)]
pub enum BoundResource {
    /// The view of the family's texture.
    TextureView,
    /// The sampler of the family's texture.
    Sampler,
    /// The family's buffer, bound whole.
    EntireBuffer,
}

/// One entry of a bind group.
#[derive(Clone, Copy, Debug, PartialEq, Eq, Structural)]
pub struct BindGroupEntry {
    pub binding: u32,
    pub resource: BoundResource,
}

/// The contents of one family's bind group.
#[derive(Clone, Debug, PartialEq, Eq)]
pub struct BindGroup {
    pub family: BindingFamily,
    pub entries: Vec<BindGroupEntry>,
}

/// The entries of a single-buffer layout read by the vertex stage.
pub open spec fn vertex_buffer_entries(kind: BufferKind) -> Seq<LayoutEntry> {
    seq![
        LayoutEntry {
            binding: 0,
            visibility: ShaderStage::Vertex,
            kind: BindingKind::Buffer { kind, has_dynamic_offset: false },
        },
    ]
}

/// The entries of a texture-and-sampler layout read by the fragment stage.
pub open spec fn sampled_texture_entries(
    sample: TextureSampleKind,
    sampler: SamplerKind,
) -> Seq<LayoutEntry> {
    seq![
        LayoutEntry {
            binding: 0,
            visibility: ShaderStage::Fragment,
            kind: BindingKind::Texture { sample, multisampled: false },
        },
        LayoutEntry {
            binding: 1,
            visibility: ShaderStage::Fragment,
            kind: BindingKind::Sampler(sampler),
        },
    ]
}

/// Whether a resource can stand at a binding of the given kind.
pub open spec fn resource_fits(kind: BindingKind, resource: BoundResource) -> bool {
    match kind {
        BindingKind::Texture { .. } => resource == BoundResource::TextureView,
        BindingKind::Sampler(_) => resource == BoundResource::Sampler,
        BindingKind::Buffer { .. } => resource == BoundResource::EntireBuffer,
    }
}

/// Whether a bind group fills exactly the bindings of a layout, each with a
/// resource of the kind the layout asks for.
pub open spec fn group_matches(layout: Seq<LayoutEntry>, group: Seq<BindGroupEntry>) -> bool {
    &&& layout.len() == group.len()
    &&& forall|i: int|
        0 <= i < layout.len() ==> {
            &&& (#[trigger] group[i]).binding == layout[i].binding
            &&& resource_fits(layout[i].kind, group[i].resource)
        }
}

impl BindingFamily {
    /// The layout entries of this family's bind group.
    pub open spec fn layout_entries(self) -> Seq<LayoutEntry> {
        match self {
            BindingFamily::Texture => sampled_texture_entries(
                TextureSampleKind::Float { filterable: true },
                SamplerKind::Filtering,
            ),
            BindingFamily::Camera => vertex_buffer_entries(BufferKind::Uniform),
            BindingFamily::Rotation => vertex_buffer_entries(BufferKind::Uniform),
            BindingFamily::Instances => vertex_buffer_entries(
                BufferKind::Storage { read_only: true },
            ),
            BindingFamily::Depth => sampled_texture_entries(
                TextureSampleKind::Depth,
                SamplerKind::Comparison,
            ),
        }
    }

    /// The entries of this family's bind group.
    pub open spec fn group_entries(self) -> Seq<BindGroupEntry> {
        match self {
            BindingFamily::Texture | BindingFamily::Depth => seq![
                BindGroupEntry { binding: 0, resource: BoundResource::TextureView },
                BindGroupEntry { binding: 1, resource: BoundResource::Sampler },
            ],
            _ => seq![BindGroupEntry { binding: 0, resource: BoundResource::EntireBuffer }],
        }
    }

    /// Builds the layout of this family's bind group.
    pub fn layout(self) -> (out: BindGroupLayout)
        ensures
            out.family == self,
            out.entries@ == self.layout_entries(),
    {
        let entries = match self {
            BindingFamily::Texture => sampled_texture_layout(
                TextureSampleKind::Float { filterable: true },
                SamplerKind::Filtering,
            ),
            BindingFamily::Camera => vertex_buffer_layout(BufferKind::Uniform),
            BindingFamily::Rotation => vertex_buffer_layout(BufferKind::Uniform),
            BindingFamily::Instances => vertex_buffer_layout(
                BufferKind::Storage { read_only: true },
            ),
            BindingFamily::Depth => sampled_texture_layout(
                TextureSampleKind::Depth,
                SamplerKind::Comparison,
            ),
        };
        BindGroupLayout { family: self, entries }
    }

    /// Builds this family's bind group.
    pub fn bind_group(self) -> (out: BindGroup)
        ensures
            out.family == self,
            out.entries@ == self.group_entries(),
            group_matches(self.layout_entries(), out.entries@),
    {
        let mut entries: Vec<BindGroupEntry> = Vec::new();
        match self {
            BindingFamily::Texture | BindingFamily::Depth => {
                entries.push(BindGroupEntry { binding: 0, resource: BoundResource::TextureView });
                entries.push(BindGroupEntry { binding: 1, resource: BoundResource::Sampler });
            },
            _ => {
                entries.push(BindGroupEntry { binding: 0, resource: BoundResource::EntireBuffer });
            },
        }
        assert(entries@ == self.group_entries());
        BindGroup { family: self, entries }
    }
}

fn vertex_buffer_layout(kind: BufferKind) -> (out: Vec<LayoutEntry>)
    ensures
        out@ == vertex_buffer_entries(kind),
{
    let mut out: Vec<LayoutEntry> = Vec::new();
    out.push(
        LayoutEntry {
            binding: 0,
            visibility: ShaderStage::Vertex,
            kind: BindingKind::Buffer { kind, has_dynamic_offset: false },
        },
    );
    assert(out@ == vertex_buffer_entries(kind));
    out
}

fn sampled_texture_layout(sample: TextureSampleKind, sampler: SamplerKind) -> (out: Vec<
    LayoutEntry,
>)
    ensures
        out@ == sampled_texture_entries(sample, sampler),
{
    let mut out: Vec<LayoutEntry> = Vec::new();
    out.push(
        LayoutEntry {
            binding: 0,
            visibility: ShaderStage::Fragment,
            kind: BindingKind::Texture { sample, multisampled: false },
        },
    );
    out.push(
        LayoutEntry {
            binding: 1,
            visibility: ShaderStage::Fragment,
            kind: BindingKind::Sampler(sampler),
        },
    );
    assert(out@ == sampled_texture_entries(sample, sampler));
    out
}

impl PipelineKind {
    /// The families a pipeline expects, in slot order.
    pub open spec fn slots(self) -> Seq<BindingFamily> {
        match self {
            PipelineKind::Scene => seq![
                BindingFamily::Texture,
                BindingFamily::Camera,
                BindingFamily::Rotation,
                BindingFamily::Instances,
            ],
            PipelineKind::DepthOverlay => seq![BindingFamily::Depth],
        }
    }

    /// The families a pipeline expects, in slot order.
    pub fn slot_families(self) -> (out: Vec<BindingFamily>)
        ensures
            out@ == self.slots(),
    {
        let mut out: Vec<BindingFamily> = Vec::new();
        match self {
            PipelineKind::Scene => {
                out.push(BindingFamily::Texture);
                out.push(BindingFamily::Camera);
                out.push(BindingFamily::Rotation);
                out.push(BindingFamily::Instances);
            },
            PipelineKind::DepthOverlay => {
                out.push(BindingFamily::Depth);
            },
        }
        assert(out@ == self.slots());
        out
    }

    /// The slot at which this pipeline expects a family, if it uses it.
    pub fn slot_of(self, family: BindingFamily) -> (out: Option<u32>)
        ensures
            match out {
                Some(slot) => slot < self.slots().len() && self.slots()[slot as int] == family,
                None => !self.slots().contains(family),
            },
    {
        match (self, family) {
            (PipelineKind::Scene, BindingFamily::Texture) => Some(0),
            (PipelineKind::Scene, BindingFamily::Camera) => Some(1),
            (PipelineKind::Scene, BindingFamily::Rotation) => Some(2),
            (PipelineKind::Scene, BindingFamily::Instances) => Some(3),
            (PipelineKind::DepthOverlay, BindingFamily::Depth) => Some(0),
            _ => None,
        }
    }

    /// The family this pipeline expects at a slot, if the slot exists.
    pub fn family_at(self, slot: u32) -> (out: Option<BindingFamily>)
        ensures
            out == if slot < self.slots().len() {
                Some(self.slots()[slot as int])
            } else {
                None
            },
    {
        match self {
            PipelineKind::Scene => {
                if slot == 0 {
                    Some(BindingFamily::Texture)
                } else if slot == 1 {
                    Some(BindingFamily::Camera)
                } else if slot == 2 {
                    Some(BindingFamily::Rotation)
                } else if slot == 3 {
                    Some(BindingFamily::Instances)
                } else {
                    None
                }
            },
            PipelineKind::DepthOverlay => {
                if slot == 0 {
                    Some(BindingFamily::Depth)
                } else {
                    None
                }
            },
        }
    }

    /// The bind group layouts of this pipeline, in slot order.
    pub fn layouts(self) -> (out: Vec<BindGroupLayout>)
        ensures
            layouts_follow(out@, self.slots()),
    {
        let families = self.slot_families();
        let mut out: Vec<BindGroupLayout> = Vec::new();
        let mut i: usize = 0;
        while i < families.len()
            invariant
                i <= families.len(),
                out.len() == i,
                forall|k: int|
                    0 <= k < i ==> {
                        &&& (#[trigger] out[k]).family == families[k]
                        &&& out[k].entries@ == families[k].layout_entries()
                    },
            decreases families.len() - i,
        {
            out.push(families[i].layout());
            i += 1;
        }
        out
    }
}

/// Whether a list of layouts is the list of the given families' layouts.
pub open spec fn layouts_follow(layouts: Seq<BindGroupLayout>, families: Seq<BindingFamily>) -> bool {
    &&& layouts.len() == families.len()
    &&& forall|k: int|
        0 <= k < layouts.len() ==> {
            &&& (#[trigger] layouts[k]).family == families[k]
            &&& layouts[k].entries@ == families[k].layout_entries()
        }
}

/// No family occupies two slots of one pipeline.
pub proof fn slots_are_distinct(pipeline: PipelineKind, a: int, b: int)
    requires
        0 <= a < pipeline.slots().len(),
        0 <= b < pipeline.slots().len(),
        pipeline.slots()[a] == pipeline.slots()[b],
    ensures
        a == b,
{
}

/// Every family's bind group fits the family's layout.
pub proof fn group_fits_layout(family: BindingFamily)
    ensures
        group_matches(family.layout_entries(), family.group_entries()),
{
}

} // verus!
