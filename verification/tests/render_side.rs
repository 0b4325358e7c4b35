use isosurface::assets::{GridDensity, IsosurfaceAssets, RenderIsosurface, Vec3Bits};
use isosurface::batching::{IsosurfaceBatcher, RenderMeshInstanceGpu, RenderMeshInstances};
use isosurface::bind_groups::{BuildIndirectBufferBindGroups, CalculateIsosurfaceBindGroups};
use isosurface::buffers::{
    prepare_buffers, BufferWrite, GpuBufferAllocator, IndirectBuffersCollection,
    IsosurfaceBuffersCollection,
};
use isosurface::draw::{
    DrawBindGroupLayout, DrawIsosurface, IndexFormat, SetIsosurfaceBindGroup,
};
use isosurface::draw_queue::{
    alpha_mode_pipeline_key, queue_material_isosurfaces, view_key_bits, AlphaMode, CandidateData,
    DrawFunctionIds, ProjectionKind, QueueCandidate, QueuedPhaseItem, ShadowFilteringMethod,
    Tonemapping, TransmissionQuality, ViewKeyInputs, KEY_BLEND_ALPHA_TO_COVERAGE,
    KEY_MAY_DISCARD,
};
use isosurface::instances::{IsosurfaceInstance, IsosurfaceInstances, MeshTransforms};
use isosurface::node::{IsosurfaceComputeNode, PassStep};
use isosurface::phase_items::TransmissiveIsosurface;
use isosurface::pipeline::{
    calculation_bind_group_layout, check_pipeline_for_readiness, compute_pipeline_descriptors,
    indirect_bind_group_layout, kernel_entry_point, BindingType, CachedPipelineState,
    ComputeKernel, DrawIndexedIndirect, IsosurfaceUniforms, PipelinesReady,
};
use isosurface::registry::{
    allocate_buffers, fill_render_mesh_registry, insert_phony_meshes, MeshAllocator,
    MeshMinter, MeshRegistry,
};
use isosurface::table::AssetTable;
use isosurface::tasks::{schedule_isosurface_tasks, CalculateIsosurfaceTasks};

fn vec3(x: f32, y: f32, z: f32) -> Vec3Bits {
    Vec3Bits { x: x.to_bits(), y: y.to_bits(), z: z.to_bits() }
}

#[test]
fn uniform_record_words_in_memory_order() {
    let u = IsosurfaceUniforms::new(vec3(1.0, 2.0, 3.0), vec3(4.0, 5.0, 6.0));
    let words = u.to_words();
    assert_eq!(
        words,
        vec![
            1.0f32.to_bits(),
            2.0f32.to_bits(),
            3.0f32.to_bits(),
            0,
            4.0f32.to_bits(),
            5.0f32.to_bits(),
            6.0f32.to_bits(),
            0,
        ]
    );
}

#[test]
fn buffer_write_bytes_are_the_words_in_native_order() {
    let write = BufferWrite { handle: 3, words: vec![0x11223344, 0xAABBCCDD] };
    let bytes = write.bytes();
    assert_eq!(bytes.len(), 8);
    let mut expected: Vec<u8> = Vec::new();
    expected.extend_from_slice(&0x11223344u32.to_ne_bytes());
    expected.extend_from_slice(&0xAABBCCDDu32.to_ne_bytes());
    assert_eq!(bytes, expected);
}

#[test]
fn indirect_record_defaults_to_a_zero_draw() {
    let record = DrawIndexedIndirect::default();
    assert_eq!(record.index_count, 0);
    assert_eq!(record.instance_count, 0);
    assert_eq!(record.first_index, 0);
    assert_eq!(record.vertex_offset, 0);
    assert_eq!(record.first_instance, 0);
    assert_eq!(isosurface::pipeline::INDIRECT_BUFFER_SIZE, 20);
    assert_eq!(isosurface::pipeline::UNIFORM_BUFFER_SIZE, 32);
}

#[test]
fn kernel_entry_points_match_the_shader_contract() {
    assert_eq!(kernel_entry_point(ComputeKernel::FindVertices), "find_vertices");
    assert_eq!(kernel_entry_point(ComputeKernel::ConnectVertices), "connect_vertices");
    assert_eq!(
        kernel_entry_point(ComputeKernel::PrepareIndirectBuffer),
        "prepare_indirect_buffer"
    );
}

#[test]
fn bind_group_layouts_bind_the_documented_slots() {
    let calc = calculation_bind_group_layout();
    assert_eq!(calc.len(), 5);
    for (slot, entry) in calc.iter().enumerate() {
        assert_eq!(entry.binding, slot as u32);
    }
    assert_eq!(calc[0].ty, BindingType::Uniform);
    assert_eq!(calc[0].min_size, Some(32));
    assert_eq!(calc[4].min_size, None);
    let indirect = indirect_bind_group_layout();
    assert_eq!(indirect.len(), 1);
    assert_eq!(indirect[0].ty, BindingType::Storage);
    assert_eq!(indirect[0].min_size, Some(20));
}

#[test]
fn three_pipelines_are_described() {
    let descriptors = compute_pipeline_descriptors();
    assert_eq!(descriptors.len(), 3);
    assert_eq!(descriptors[0].entry_point, ComputeKernel::FindVertices);
    assert_eq!(descriptors[1].entry_point, ComputeKernel::ConnectVertices);
    assert_eq!(descriptors[2].entry_point, ComputeKernel::PrepareIndirectBuffer);
    assert_eq!(descriptors[2].layouts.len(), 2);
}

#[test]
fn readiness_flag_is_sticky() {
    let mut ready = PipelinesReady(false);
    check_pipeline_for_readiness(
        CachedPipelineState::Compiled,
        CachedPipelineState::Creating,
        CachedPipelineState::Compiled,
        &mut ready,
    );
    assert!(!ready.0);
    check_pipeline_for_readiness(
        CachedPipelineState::Compiled,
        CachedPipelineState::Compiled,
        CachedPipelineState::Compiled,
        &mut ready,
    );
    assert!(ready.0);
    check_pipeline_for_readiness(
        CachedPipelineState::Failed,
        CachedPipelineState::Failed,
        CachedPipelineState::Failed,
        &mut ready,
    );
    assert!(ready.0);
}

fn snapshot(density: (u32, u32, u32)) -> RenderIsosurface {
    RenderIsosurface {
        grid_size: vec3(7.0, 7.0, 7.0),
        grid_origin: vec3(0.0, 0.0, 0.0),
        grid_density: GridDensity { x: density.0, y: density.1, z: density.2 },
    }
}

#[test]
fn node_records_the_fixed_dispatch_order() {
    let mut tasks = CalculateIsosurfaceTasks::new();
    schedule_isosurface_tasks(&mut tasks, &vec![1]);
    let mut assets = IsosurfaceAssets::new();
    assets.table.insert(1, snapshot((2, 3, 4)));
    let mut calc_groups = CalculateIsosurfaceBindGroups::new();
    calc_groups.table.insert(
        1,
        isosurface::bind_groups::CalculationBindGroup {
            uniform_buffer: 3,
            vertex_buffer: 0,
            index_buffer: 1,
            cells_buffer: 2,
            atomics_buffer: 4,
        },
    );
    let mut indirect_groups = BuildIndirectBufferBindGroups::new();
    indirect_groups.table.insert(1, isosurface::bind_groups::IndirectBindGroup {
        indirect_buffer: 5,
    });

    let node = IsosurfaceComputeNode;
    let run = node.run(true, &tasks, &assets, &calc_groups, &indirect_groups);
    assert_eq!(run.completed, vec![1]);
    assert!(run.skipped.is_empty());
    assert_eq!(run.steps.len(), 8);
    assert!(matches!(run.steps[1], PassStep::SetPipeline { kernel: ComputeKernel::FindVertices }));
    assert!(matches!(run.steps[2], PassStep::Dispatch { x: 2, y: 3, z: 4 }));
    assert!(matches!(
        run.steps[3],
        PassStep::SetPipeline { kernel: ComputeKernel::ConnectVertices }
    ));
    assert!(matches!(run.steps[4], PassStep::Dispatch { x: 2, y: 3, z: 4 }));
    assert!(matches!(
        run.steps[6],
        PassStep::SetPipeline { kernel: ComputeKernel::PrepareIndirectBuffer }
    ));
    assert!(matches!(run.steps[7], PassStep::Dispatch { x: 1, y: 1, z: 1 }));
}

#[test]
fn node_skips_tasks_with_missing_dependencies() {
    let mut tasks = CalculateIsosurfaceTasks::new();
    schedule_isosurface_tasks(&mut tasks, &vec![1]);
    let assets = IsosurfaceAssets::new();
    let calc_groups = CalculateIsosurfaceBindGroups::new();
    let indirect_groups = BuildIndirectBufferBindGroups::new();
    let node = IsosurfaceComputeNode;
    let run = node.run(true, &tasks, &assets, &calc_groups, &indirect_groups);
    assert!(run.steps.is_empty());
    assert!(run.completed.is_empty());
    assert_eq!(run.skipped, vec![1]);
}

#[test]
fn node_is_a_no_op_while_pipelines_compile() {
    let mut tasks = CalculateIsosurfaceTasks::new();
    schedule_isosurface_tasks(&mut tasks, &vec![1]);
    let assets = IsosurfaceAssets::new();
    let node = IsosurfaceComputeNode;
    let run = node.run(
        false,
        &tasks,
        &assets,
        &CalculateIsosurfaceBindGroups::new(),
        &BuildIndirectBufferBindGroups::new(),
    );
    assert!(run.steps.is_empty());
    assert!(run.completed.is_empty());
    assert!(run.skipped.is_empty());
}

#[test]
fn draw_is_skipped_until_buffers_exist() {
    let buffers = IsosurfaceBuffersCollection::new();
    let indirect = IndirectBuffersCollection::new();
    assert!(DrawIsosurface::render(1, &buffers, &indirect).is_none());

    let mut buffers = IsosurfaceBuffersCollection::new();
    buffers.table.insert(1, isosurface::buffers::IsosurfaceBuffers {
        vertex_buffer: 10,
        index_buffer: 11,
        cells_buffer: 12,
        uniform_buffer: 13,
        atomics_buffer: 14,
    });
    let mut indirect = IndirectBuffersCollection::new();
    indirect.table.insert(1, isosurface::buffers::IndirectBuffers { indirect_buffer: 15 });
    let call = DrawIsosurface::render(1, &buffers, &indirect).unwrap();
    assert_eq!(call.vertex_buffer, 10);
    assert_eq!(call.index_buffer, 11);
    assert_eq!(call.index_format, IndexFormat::Uint32);
    assert_eq!(call.indirect_buffer, 15);
    assert_eq!(call.indirect_offset, 0);
}

#[test]
fn set_bind_group_fails_without_a_group() {
    let mut layout = DrawBindGroupLayout { model_only: Some(42) };
    let call = SetIsosurfaceBindGroup::render(&layout, 1).unwrap();
    assert_eq!(call.index, 1);
    assert_eq!(call.bind_group, 42);
    layout.reset();
    assert!(SetIsosurfaceBindGroup::render(&layout, 1).is_none());
}

fn phase_item(distance_key: u32, entity: u64) -> TransmissiveIsosurface {
    TransmissiveIsosurface {
        distance_key,
        pipeline: 1,
        entity,
        draw_function: 2,
        batch_range: (0, 1),
        dynamic_offset: None,
    }
}

#[test]
fn phase_sort_orders_by_distance_and_is_stable() {
    let mut items = vec![
        phase_item(5, 50),
        phase_item(1, 10),
        phase_item(3, 30),
        phase_item(3, 31),
        phase_item(2, 20),
    ];
    TransmissiveIsosurface::sort(&mut items);
    let keys: Vec<u32> = items.iter().map(|i| i.distance_key).collect();
    assert_eq!(keys, vec![1, 2, 3, 3, 5]);
    // radsort is stable: the two equal keys keep their relative order
    assert_eq!(items[2].entity, 30);
    assert_eq!(items[3].entity, 31);
}

#[test]
fn phase_item_accessors_and_mutators() {
    let mut item = phase_item(9, 77);
    assert_eq!(item.entity(), 77);
    assert_eq!(item.sort_key(), 9);
    assert_eq!(item.draw_function(), 2);
    assert_eq!(item.batch_range(), (0, 1));
    assert_eq!(item.dynamic_offset(), None);
    *item.batch_range_mut() = (4, 8);
    assert_eq!(item.batch_range(), (4, 8));
    *item.dynamic_offset_mut() = Some(6);
    assert_eq!(item.dynamic_offset(), Some(6));
}

#[test]
fn non_max_indices_reject_only_the_maximum() {
    let mut gpu_table: AssetTable<RenderMeshInstanceGpu> = AssetTable::new();
    for (entity, index) in [(1u64, 0u32), (2, 12345), (3, u32::MAX - 1), (4, u32::MAX)] {
        gpu_table.insert(entity, RenderMeshInstanceGpu {
            current_uniform_index: index,
            material_bind_group_id: None,
            mesh_asset_id: 9,
            should_batch: false,
        });
    }
    let gpu = RenderMeshInstances::GpuBuilding(gpu_table);
    assert_eq!(IsosurfaceBatcher::get_binned_index(&gpu, 1), Some(0));
    assert_eq!(IsosurfaceBatcher::get_binned_index(&gpu, 2), Some(12345));
    assert_eq!(IsosurfaceBatcher::get_binned_index(&gpu, 3), Some(u32::MAX - 1));
    assert_eq!(IsosurfaceBatcher::get_binned_index(&gpu, 4), None);
}

fn transforms() -> MeshTransforms {
    MeshTransforms { world_from_local: [1; 12], previous_world_from_local: [1; 12], flags: 0 }
}

#[test]
fn batcher_reads_the_instance_tables() {
    let mut instances = IsosurfaceInstances::new();
    instances.table.insert(10, IsosurfaceInstance {
        asset_id: 1,
        material_bind_group_id: Some(3),
        transforms: transforms(),
    });
    let (buffer_data, compare) = IsosurfaceBatcher::get_batch_data(&instances, 10).unwrap();
    assert_eq!(buffer_data, transforms());
    assert_eq!(compare, Some((Some(3), 1)));
    assert!(IsosurfaceBatcher::get_batch_data(&instances, 11).is_none());
}

#[test]
fn batcher_gpu_building_goes_through_non_max_indices() {
    let mut gpu_table: AssetTable<RenderMeshInstanceGpu> = AssetTable::new();
    gpu_table.insert(10, RenderMeshInstanceGpu {
        current_uniform_index: 7,
        material_bind_group_id: Some(3),
        mesh_asset_id: 1,
        should_batch: true,
    });
    gpu_table.insert(11, RenderMeshInstanceGpu {
        current_uniform_index: u32::MAX,
        material_bind_group_id: None,
        mesh_asset_id: 2,
        should_batch: false,
    });
    let gpu = RenderMeshInstances::GpuBuilding(gpu_table);
    let (index, compare) = IsosurfaceBatcher::get_index_and_compare_data(&gpu, 10).unwrap();
    assert_eq!(index, 7);
    assert_eq!(compare, Some((Some(3), 1)));
    // an index that a non-max integer cannot carry yields nothing
    assert!(IsosurfaceBatcher::get_index_and_compare_data(&gpu, 11).is_none());
    assert_eq!(IsosurfaceBatcher::get_binned_index(&gpu, 10), Some(7));

    let mut cpu_table: AssetTable<MeshTransforms> = AssetTable::new();
    cpu_table.insert(10, transforms());
    let cpu = RenderMeshInstances::CpuBuilding(cpu_table);
    // mode mismatches answer nothing
    assert!(IsosurfaceBatcher::get_index_and_compare_data(&cpu, 10).is_none());
    assert!(IsosurfaceBatcher::get_binned_batch_data(&gpu, 10).is_none());
    assert_eq!(IsosurfaceBatcher::get_binned_batch_data(&cpu, 10), Some(transforms()));
    assert!(IsosurfaceBatcher::get_binned_index(&cpu, 10).is_none());
}

fn base_view() -> ViewKeyInputs {
    ViewKeyInputs {
        msaa_samples: 1,
        hdr: false,
        normal_prepass: false,
        depth_prepass: false,
        motion_vector_prepass: false,
        deferred_prepass: false,
        temporal_jitter: false,
        environment_maps: false,
        irradiance_volumes: false,
        oit_enabled: false,
        projection: None,
        shadow_filter: Some(ShadowFilteringMethod::Hardware2x2),
        tonemapping: None,
        deband_dither: false,
        ssao: false,
        transmission_quality: None,
    }
}

#[test]
fn view_key_bits_pack_the_documented_layout() {
    let mut view = base_view();
    view.msaa_samples = 4;
    view.hdr = true;
    view.depth_prepass = true;
    view.shadow_filter = Some(ShadowFilteringMethod::Temporal);
    view.projection = Some(ProjectionKind::Perspective);
    view.transmission_quality = Some(TransmissionQuality::High);
    let expected: u64 = (1 << 0) | (1 << 3) | (2 << 20) | (2 << 29) | (1 << 31) | (2 << 33);
    assert_eq!(view_key_bits(&view), expected);
}

#[test]
fn tonemapping_applies_only_without_hdr() {
    let mut view = base_view();
    view.tonemapping = Some(Tonemapping::TonyMcMapface);
    view.deband_dither = true;
    // low dynamic range: tone mapping runs in the shader
    let expected: u64 = (1 << 1) | (1 << 2) | (6 << 26);
    assert_eq!(view_key_bits(&view), expected);
    view.hdr = true;
    assert_eq!(view_key_bits(&view), 1 << 0);
}

#[test]
fn default_shadow_filter_is_gaussian() {
    let mut view = base_view();
    view.shadow_filter = None;
    assert_eq!(view_key_bits(&view), 1 << 29);
}

#[test]
fn alpha_to_coverage_degrades_without_msaa() {
    assert_eq!(alpha_mode_pipeline_key(AlphaMode::AlphaToCoverage, 1), KEY_MAY_DISCARD);
    assert_eq!(
        alpha_mode_pipeline_key(AlphaMode::AlphaToCoverage, 4),
        KEY_BLEND_ALPHA_TO_COVERAGE
    );
    assert_eq!(alpha_mode_pipeline_key(AlphaMode::Opaque, 4), 0);
}

fn candidate(entity: u64, data: CandidateData) -> QueueCandidate {
    QueueCandidate { render_entity: entity, visible_entity: entity + 100, lookup: Some(data) }
}

fn opaque_data() -> CandidateData {
    CandidateData {
        mesh_asset_id: 1,
        material_bind_group_id: Some(5),
        alpha_mode: AlphaMode::Opaque,
        mesh_pipeline_key_bits: 0,
        reads_view_transmission_texture: false,
        render_method_forward: true,
        pipeline_id: Some(900),
        distance_key: 40,
    }
}

#[test]
fn queue_classifies_by_blend_bits() {
    let fns = DrawFunctionIds { opaque: 1, alpha_mask: 2, transmissive: 3, transparent: 4 };
    let mut blend = opaque_data();
    blend.alpha_mode = AlphaMode::Blend;
    let mut mask = opaque_data();
    mask.alpha_mode = AlphaMode::Mask;
    let mut transmissive = opaque_data();
    transmissive.reads_view_transmission_texture = true;
    let candidates = vec![
        candidate(10, opaque_data()),
        candidate(11, blend),
        candidate(12, mask),
        candidate(13, transmissive),
        QueueCandidate { render_entity: 14, visible_entity: 114, lookup: None },
    ];
    let queued = queue_material_isosurfaces(&base_view(), &fns, &candidates);
    assert_eq!(queued.len(), 4);
    match &queued[0] {
        QueuedPhaseItem::Opaque { key, render_entity, visible_entity } => {
            assert_eq!(key.draw_function, 1);
            assert_eq!(key.pipeline, 900);
            assert_eq!(key.asset_id, 1);
            assert_eq!(key.material_bind_group_id, Some(5));
            assert_eq!(key.lightmap_image, None);
            assert_eq!(*render_entity, 10);
            assert_eq!(*visible_entity, 110);
        },
        other => panic!("expected an opaque entry, got {:?}", other),
    }
    match &queued[1] {
        QueuedPhaseItem::Transparent { item } => {
            assert_eq!(item.draw_function, 4);
            assert_eq!(item.distance_key, 40);
            assert_eq!(item.batch_range, (0, 1));
        },
        other => panic!("expected a transparent entry, got {:?}", other),
    }
    match &queued[2] {
        QueuedPhaseItem::AlphaMask { key, .. } => {
            assert_eq!(key.draw_function, 2);
        },
        other => panic!("expected an alpha-mask entry, got {:?}", other),
    }
    match &queued[3] {
        QueuedPhaseItem::Transmissive { item } => {
            assert_eq!(item.draw_function, 3);
        },
        other => panic!("expected a transmissive entry, got {:?}", other),
    }
}

#[test]
fn queue_skips_non_forward_opaque_materials() {
    let fns = DrawFunctionIds { opaque: 1, alpha_mask: 2, transmissive: 3, transparent: 4 };
    let mut deferred = opaque_data();
    deferred.render_method_forward = false;
    let mut no_pipeline = opaque_data();
    no_pipeline.pipeline_id = None;
    let queued = queue_material_isosurfaces(
        &base_view(),
        &fns,
        &vec![candidate(10, deferred), candidate(11, no_pipeline)],
    );
    assert!(queued.is_empty());
}

#[test]
fn registry_first_sighting_wins() {
    let mut registry = MeshRegistry::new();
    fill_render_mesh_registry(&mut registry, &vec![(1, 100), (1, 101), (2, 200)]);
    assert_eq!(registry.table.get(1), Some(&100));
    assert_eq!(registry.table.get(2), Some(&200));
}

#[test]
fn phony_meshes_are_shared_per_asset() {
    let mut registry = MeshRegistry::new();
    let mut minter = MeshMinter::new();
    let inserts = insert_phony_meshes(&mut registry, &mut minter, &vec![(10, 1), (11, 1), (12, 2)]);
    assert_eq!(inserts.len(), 3);
    assert!(inserts[0].created);
    assert!(!inserts[1].created);
    assert_eq!(inserts[0].mesh_id, inserts[1].mesh_id);
    assert!(inserts[2].created);
    assert_ne!(inserts[0].mesh_id, inserts[2].mesh_id);
    assert_eq!(registry.table.len(), 2);
}

#[test]
fn arena_allocation_is_idempotent() {
    let mut registry = MeshRegistry::new();
    fill_render_mesh_registry(&mut registry, &vec![(1, 100)]);
    let mut tasks = CalculateIsosurfaceTasks::new();
    schedule_isosurface_tasks(&mut tasks, &vec![1]);
    let mut arena = MeshAllocator::new();
    let first = allocate_buffers(&mut arena, &tasks, &registry);
    assert_eq!(first.len(), 2);
    assert!(first[0].vertex_class);
    assert_eq!(first[0].element_size, 24);
    assert_eq!(first[0].capacity_bytes, 1024 * 256);
    assert!(!first[1].vertex_class);
    assert_eq!(first[1].element_size, 4);
    let second = allocate_buffers(&mut arena, &tasks, &registry);
    assert!(second.is_empty());
    assert_eq!(arena.vertex_slabs.get(100), Some(&0));
    assert_eq!(arena.index_slabs.get(100), Some(&1));
}

#[test]
fn preparing_buffers_twice_in_one_frame_reallocates_nothing() {
    let mut allocator = GpuBufferAllocator::new();
    let mut assets = IsosurfaceAssets::new();
    assets.table.insert(1, snapshot((1, 1, 1)));
    let mut tasks = CalculateIsosurfaceTasks::new();
    schedule_isosurface_tasks(&mut tasks, &vec![1]);
    let mut buffers = IsosurfaceBuffersCollection::new();
    let mut indirect = IndirectBuffersCollection::new();

    let first = prepare_buffers(&mut allocator, &assets, &tasks, &mut buffers, &mut indirect);
    assert_eq!(first.creates.len(), 6);
    assert_eq!(first.creates[0].handle, 0);
    assert_eq!(first.creates[5].handle, 5);
    let handles = *buffers.table.get(1).unwrap();

    let second = prepare_buffers(&mut allocator, &assets, &tasks, &mut buffers, &mut indirect);
    assert!(second.creates.is_empty());
    assert_eq!(*buffers.table.get(1).unwrap(), handles);
    // the uploads still run each pass: latest snapshot and zeroed counters
    assert_eq!(second.writes.len(), 2);
    assert_eq!(second.writes[1].words, vec![0, 0]);
}
