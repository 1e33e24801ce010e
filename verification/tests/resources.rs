use cube_scene::binding::{
    BindGroupEntry, BindingFamily, BindingKind, BoundResource, BufferKind, LayoutEntry,
    PipelineKind, SamplerKind, ShaderStage, TextureSampleKind,
};
use cube_scene::buffer::{BufferDescriptor, BufferRole, BufferUsage};
use cube_scene::depth_view::DepthView;
use cube_scene::instances::{GridOffset, Instances};
use cube_scene::mesh::{Mesh, Vertex, VertexAttribute, VertexFormat, VertexStepMode};
use cube_scene::pipeline::{
    BlendMode, ColorTargetState, CompareFunction, DepthStencilState, Face, FrontFace,
    MultisampleState, PolygonMode, PrimitiveState, PrimitiveTopology,
};
use cube_scene::rotator::{CameraState, Rotation, Rotator, UniformWrite};
use cube_scene::state::State;
use cube_scene::surface::{
    check_size, choose_surface_format, DepthTexture, SurfaceCapabilities, SurfaceConfiguration,
};

fn culled() -> PrimitiveState {
    PrimitiveState {
        topology: PrimitiveTopology::TriangleList,
        front_face: FrontFace::Ccw,
        cull_mode: Some(Face::Back),
        polygon_mode: PolygonMode::Fill,
        unclipped_depth: false,
        conservative: false,
    }
}

fn config(width: u32, height: u32) -> SurfaceConfiguration {
    let caps = SurfaceCapabilities { formats_srgb: vec![true], present_modes: 1, alpha_modes: 1 };
    SurfaceConfiguration::new(&caps, width, height).unwrap()
}

#[test]
fn grid_of_four_by_four_has_twenty_translations() {
    let grid = Instances::new(4, 4).unwrap();
    assert_eq!(grid.count(), 20);
    assert_eq!(grid.rows(), 4);
    assert_eq!(grid.cols(), 4);
    let cells = grid.transformations();
    assert_eq!(cells.len(), 20);
    let spacing = 2.0f32;
    for i in 0..=4i64 {
        for j in 0..4i64 {
            let cell = cells[(i * 4 + j) as usize];
            assert_eq!(cell, GridOffset { x: j - 2, y: i - 2 });
            let x = cell.x as f32 * spacing;
            let y = cell.y as f32 * spacing;
            assert_eq!(x, (j as f32 - 2.0) * 2.0);
            assert_eq!(y, (i as f32 - 2.0) * 2.0);
        }
    }
    assert_eq!(cells[0], GridOffset { x: -2, y: -2 });
    assert_eq!(cells[3], GridOffset { x: 1, y: -2 });
    assert_eq!(cells[19], GridOffset { x: 1, y: 2 });
    assert_eq!(grid.buffer_size(), 20 * 64);
}

#[test]
fn grid_centres_columns_on_rows_and_rows_on_columns() {
    let grid = Instances::new(2, 5).unwrap();
    assert_eq!(grid.count(), 15);
    let cells = grid.transformations();
    assert_eq!(cells[0], GridOffset { x: -1, y: -2 });
    assert_eq!(cells[4], GridOffset { x: 3, y: -2 });
    assert_eq!(cells[5], GridOffset { x: -1, y: -1 });
    assert_eq!(cells[14], GridOffset { x: 3, y: 0 });
}

#[test]
fn grid_edge_cases() {
    let no_columns = Instances::new(7, 0).unwrap();
    assert_eq!(no_columns.count(), 0);
    let no_rows = Instances::new(0, 3).unwrap();
    assert_eq!(no_rows.count(), 3);
    assert_eq!(
        no_rows.transformations().clone(),
        vec![
            GridOffset { x: 0, y: -1 },
            GridOffset { x: 1, y: -1 },
            GridOffset { x: 2, y: -1 }
        ]
    );
    assert!(Instances::new(u32::MAX, 1).is_none());
    assert!(Instances::new(65535, 65537).is_none());
    assert!(Instances::new(u32::MAX, 0).is_some());
}

#[test]
fn instance_layout_is_read_only_storage_for_vertex_stage() {
    let layout = Instances::layout();
    assert_eq!(layout.family, BindingFamily::Instances);
    assert_eq!(
        layout.entries,
        vec![LayoutEntry {
            binding: 0,
            visibility: ShaderStage::Vertex,
            kind: BindingKind::Buffer {
                kind: BufferKind::Storage { read_only: true },
                has_dynamic_offset: false
            },
        }]
    );
}

#[test]
fn uniform_layouts_are_vertex_stage_uniform_buffers() {
    let expected = vec![LayoutEntry {
        binding: 0,
        visibility: ShaderStage::Vertex,
        kind: BindingKind::Buffer { kind: BufferKind::Uniform, has_dynamic_offset: false },
    }];
    assert_eq!(Rotation::layout().entries, expected);
    assert_eq!(Rotation::layout().family, BindingFamily::Rotation);
    assert_eq!(Rotator::layout().entries, expected);
    assert_eq!(CameraState::layout().entries, expected);
    assert_eq!(CameraState::layout().family, BindingFamily::Camera);
    assert_eq!(
        Rotation::bind_group().entries,
        vec![BindGroupEntry { binding: 0, resource: BoundResource::EntireBuffer }]
    );
}

#[test]
fn texture_layouts_pair_texture_with_sampler_for_fragment_stage() {
    assert_eq!(
        BindingFamily::Texture.layout().entries,
        vec![
            LayoutEntry {
                binding: 0,
                visibility: ShaderStage::Fragment,
                kind: BindingKind::Texture {
                    sample: TextureSampleKind::Float { filterable: true },
                    multisampled: false
                },
            },
            LayoutEntry {
                binding: 1,
                visibility: ShaderStage::Fragment,
                kind: BindingKind::Sampler(SamplerKind::Filtering),
            },
        ]
    );
    assert_eq!(
        BindingFamily::Depth.layout().entries,
        vec![
            LayoutEntry {
                binding: 0,
                visibility: ShaderStage::Fragment,
                kind: BindingKind::Texture { sample: TextureSampleKind::Depth, multisampled: false },
            },
            LayoutEntry {
                binding: 1,
                visibility: ShaderStage::Fragment,
                kind: BindingKind::Sampler(SamplerKind::Comparison),
            },
        ]
    );
    let group = vec![
        BindGroupEntry { binding: 0, resource: BoundResource::TextureView },
        BindGroupEntry { binding: 1, resource: BoundResource::Sampler },
    ];
    assert_eq!(BindingFamily::Texture.bind_group().entries, group);
    assert_eq!(BindingFamily::Depth.bind_group().entries, group);
}

#[test]
fn slots_are_texture_camera_rotation_instances() {
    let scene = PipelineKind::Scene;
    assert_eq!(
        scene.slot_families(),
        vec![
            BindingFamily::Texture,
            BindingFamily::Camera,
            BindingFamily::Rotation,
            BindingFamily::Instances
        ]
    );
    assert_eq!(scene.slot_of(BindingFamily::Texture), Some(0));
    assert_eq!(scene.slot_of(BindingFamily::Camera), Some(1));
    assert_eq!(scene.slot_of(BindingFamily::Rotation), Some(2));
    assert_eq!(scene.slot_of(BindingFamily::Instances), Some(3));
    assert_eq!(scene.slot_of(BindingFamily::Depth), None);
    assert_eq!(scene.family_at(3), Some(BindingFamily::Instances));
    assert_eq!(scene.family_at(4), None);
    let overlay = PipelineKind::DepthOverlay;
    assert_eq!(overlay.slot_families(), vec![BindingFamily::Depth]);
    assert_eq!(overlay.slot_of(BindingFamily::Depth), Some(0));
    assert_eq!(overlay.slot_of(BindingFamily::Texture), None);
    assert_eq!(overlay.family_at(0), Some(BindingFamily::Depth));
    assert_eq!(overlay.family_at(1), None);
    for kind in [scene, overlay] {
        let families = kind.slot_families();
        let layouts = kind.layouts();
        assert_eq!(layouts.len(), families.len());
        for (slot, family) in families.iter().enumerate() {
            assert_eq!(layouts[slot], family.layout());
            assert_eq!(kind.slot_of(*family), Some(slot as u32));
            assert_eq!(kind.family_at(slot as u32), Some(*family));
        }
    }
}

#[test]
fn vertex_layout_is_twenty_bytes_position_then_uv() {
    let layout = Vertex::desc();
    assert_eq!(layout.array_stride, 20);
    assert_eq!(layout.step_mode, VertexStepMode::Vertex);
    assert_eq!(
        layout.attributes,
        vec![
            VertexAttribute { offset: 0, shader_location: 0, format: VertexFormat::Float32x3 },
            VertexAttribute { offset: 12, shader_location: 1, format: VertexFormat::Float32x2 },
        ]
    );
    assert_eq!(VertexFormat::Float32x3.size(), 12);
    assert_eq!(VertexFormat::Float32x2.size(), 8);
}

#[test]
fn cube_has_eight_corners_and_twelve_triangles() {
    let mesh = Mesh::new();
    assert_eq!(mesh.num_vertices, 8);
    assert_eq!(mesh.num_indices, 36);
    assert_eq!(mesh.vertices.len(), 8);
    assert_eq!(
        mesh.indices,
        vec![
            0, 2, 1, 0, 3, 2, 1, 2, 6, 6, 5, 1, 4, 5, 6, 6, 7, 4, 2, 3, 6, 6, 3, 7, 0, 7, 3, 0, 4,
            7, 0, 1, 5, 0, 5, 4
        ]
    );
    assert_eq!(mesh.vertices[0], Vertex { x: -1, y: -1, z: -1, u: 0, v: 0 });
    assert_eq!(mesh.vertices[2], Vertex { x: 1, y: 1, z: -1, u: 1, v: 1 });
    assert_eq!(mesh.vertices[5], Vertex { x: 1, y: -1, z: 1, u: 1, v: 0 });
    assert_eq!(mesh.vertices[7], Vertex { x: -1, y: 1, z: 1, u: 0, v: 1 });
    for vertex in mesh.vertices.iter() {
        let position = [vertex.x as f32 * 0.5, vertex.y as f32 * 0.5, vertex.z as f32 * 0.5];
        for p in position {
            assert!(p == 0.5 || p == -0.5);
        }
    }
    for index in mesh.indices.iter() {
        assert!((*index as u32) < mesh.num_vertices);
    }
}

#[test]
fn index_bytes_hold_each_index_in_native_order() {
    let mesh = Mesh::new();
    let bytes = mesh.index_bytes();
    assert_eq!(bytes.len(), 72);
    for (i, index) in mesh.indices.iter().enumerate() {
        assert_eq!(u16::from_ne_bytes([bytes[2 * i], bytes[2 * i + 1]]), *index);
    }
    let wide = Mesh { num_vertices: 0x0103, vertices: vec![], num_indices: 1, indices: vec![0x0102] };
    let bytes = wide.index_bytes();
    assert!(bytes == vec![0x02, 0x01] || bytes == vec![0x01, 0x02]);
    assert_eq!(bytes, 0x0102u16.to_ne_bytes().to_vec());
}

#[test]
fn scene_pipeline_culls_back_faces_and_tests_depth() {
    let layouts = PipelineKind::Scene.layouts();
    let pipeline = State::create_render_scene_pipeline(2, layouts.clone());
    assert_eq!(pipeline.kind, PipelineKind::Scene);
    assert_eq!(pipeline.bind_group_layouts, layouts);
    assert_eq!(pipeline.vertex_entry_point, "vs_main");
    assert_eq!(pipeline.fragment_entry_point, "fs_main");
    assert_eq!(pipeline.vertex_buffers, vec![Vertex::desc()]);
    assert_eq!(
        pipeline.target,
        ColorTargetState { format: 2, blend: BlendMode::Replace, write_mask: 0xf }
    );
    assert_eq!(pipeline.primitive, culled());
    assert_eq!(
        pipeline.depth_stencil,
        Some(DepthStencilState { depth_write_enabled: true, depth_compare: CompareFunction::Less })
    );
    assert_eq!(
        pipeline.multisample,
        MultisampleState { count: 1, mask: !0, alpha_to_coverage_enabled: false }
    );
}

#[test]
fn overlay_pipeline_blends_without_depth_or_vertex_buffers() {
    let layouts = PipelineKind::DepthOverlay.layouts();
    let pipeline = DepthView::create_depth_render_pipeline(1, layouts.clone());
    assert_eq!(pipeline.kind, PipelineKind::DepthOverlay);
    assert_eq!(pipeline.bind_group_layouts, layouts);
    assert_eq!(pipeline.vertex_entry_point, "depth_view_vs");
    assert_eq!(pipeline.fragment_entry_point, "depth_view_fs");
    assert!(pipeline.vertex_buffers.is_empty());
    assert_eq!(
        pipeline.target,
        ColorTargetState { format: 1, blend: BlendMode::AlphaBlending, write_mask: 0xf }
    );
    assert_eq!(pipeline.primitive, culled());
    assert_eq!(pipeline.depth_stencil, None);
    assert_eq!(
        pipeline.multisample,
        MultisampleState { count: 1, mask: !0, alpha_to_coverage_enabled: false }
    );
}

#[test]
fn overlay_follows_the_depth_texture() {
    let first = DepthTexture::create_depth_texture(&config(640, 480));
    let mut view = DepthView::new(0, &first);
    assert_eq!(*view.pipeline(), DepthView::create_depth_render_pipeline(0, PipelineKind::DepthOverlay.layouts()));
    assert_eq!(*view.bind_group(), BindingFamily::Depth.bind_group());
    let second = first.recreate(&config(800, 600));
    assert_eq!(second.width(), 800);
    assert_eq!(second.height(), 600);
    view.set_depth_texture(&second);
    assert_eq!(*view.bind_group(), BindingFamily::Depth.bind_group());
    let pass = view.render();
    assert_eq!(pass.commands.len(), 3);
    assert_eq!(pass.depth, None);
}

#[test]
fn animators_ask_for_one_matrix_per_update() {
    let mut rotation = Rotation::new();
    let mut camera = CameraState::new(16, 9);
    for _ in 0..5 {
        assert_eq!(
            rotation.update(),
            UniformWrite { family: BindingFamily::Rotation, offset: 0, size: 64 }
        );
        assert_eq!(
            camera.update(),
            UniformWrite { family: BindingFamily::Camera, offset: 0, size: 64 }
        );
        assert_eq!(camera.aspect(), (16, 9));
    }
}

#[test]
fn first_srgb_format_is_preferred() {
    assert_eq!(choose_surface_format(&vec![]), None);
    assert_eq!(choose_surface_format(&vec![false]), Some(0));
    assert_eq!(choose_surface_format(&vec![false, false, false]), Some(0));
    assert_eq!(choose_surface_format(&vec![true, true]), Some(0));
    assert_eq!(choose_surface_format(&vec![false, false, true, true]), Some(2));
}

#[test]
fn size_bounds_are_one_to_8192() {
    assert!(check_size(1, 1));
    assert!(check_size(8192, 8192));
    assert!(check_size(800, 600));
    assert!(!check_size(0, 600));
    assert!(!check_size(800, 0));
    assert!(!check_size(8193, 600));
    assert!(!check_size(800, 8193));
    assert!(!check_size(u32::MAX, u32::MAX));
}

#[test]
fn capabilities_mark_the_srgb_formats() {
    let formats = vec![
        wgpu::TextureFormat::Bgra8Unorm,
        wgpu::TextureFormat::Bgra8UnormSrgb,
        wgpu::TextureFormat::Rgba8UnormSrgb,
        wgpu::TextureFormat::Rgba16Float,
    ];
    let caps = SurfaceCapabilities::from_formats(&formats, 2, 3);
    assert_eq!(caps.formats_srgb, vec![false, true, true, false]);
    assert_eq!(caps.present_modes, 2);
    assert_eq!(caps.alpha_modes, 3);
    assert_eq!(choose_surface_format(&caps.formats_srgb), Some(1));
    let none = SurfaceCapabilities::from_formats(&vec![], 0, 0);
    assert!(none.formats_srgb.is_empty());
}

#[test]
fn buffers_are_sized_and_flagged_for_their_role() {
    let none = BufferUsage { vertex: false, index: false, uniform: false, storage: false, copy_dst: false };
    let mesh = Mesh::new();
    assert_eq!(
        mesh.vertex_buffer(),
        BufferDescriptor {
            role: BufferRole::Vertices,
            size: 160,
            usage: BufferUsage { vertex: true, ..none }
        }
    );
    assert_eq!(
        mesh.index_buffer(),
        BufferDescriptor { role: BufferRole::Indices, size: 72, usage: BufferUsage { index: true, ..none } }
    );
    assert_eq!(mesh.index_bytes().len() as u64, mesh.index_buffer().size);
    let uniform = BufferUsage { uniform: true, copy_dst: true, ..none };
    assert_eq!(
        Rotation::buffer(),
        BufferDescriptor { role: BufferRole::Rotation, size: 64, usage: uniform }
    );
    assert_eq!(
        CameraState::buffer(),
        BufferDescriptor { role: BufferRole::Camera, size: 64, usage: uniform }
    );
    let grid = Instances::new(4, 4).unwrap();
    assert_eq!(
        grid.buffer(),
        BufferDescriptor {
            role: BufferRole::Instances,
            size: 1280,
            usage: BufferUsage { storage: true, copy_dst: true, ..none }
        }
    );
    assert_eq!(BufferRole::Camera.describe(7).size, 7);
}
