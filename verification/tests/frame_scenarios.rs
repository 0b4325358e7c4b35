use isosurface::assets::{AssetEvent, GridDensity, Isosurface, Vec3Bits};
use isosurface::buffers::task_uniform_words_of;
use isosurface::frame::{run_frame, FrameInput, RenderWorld};
use isosurface::instances::ExtractedInstance;
use isosurface::node::PassStep;
use isosurface::pipeline::CachedPipelineState;
use isosurface::table::AssetTable;

fn vec3(x: f32, y: f32, z: f32) -> Vec3Bits {
    Vec3Bits { x: x.to_bits(), y: y.to_bits(), z: z.to_bits() }
}

fn grid_asset(size: (f32, f32, f32), density: (u32, u32, u32)) -> Isosurface {
    Isosurface {
        grid_size: vec3(size.0, size.1, size.2),
        grid_origin: vec3(0.0, 0.0, 0.0),
        grid_density: GridDensity { x: density.0, y: density.1, z: density.2 },
        asset_usage: 3,
    }
}

fn instance_row(entity: u64, asset_id: u64) -> ExtractedInstance {
    ExtractedInstance {
        entity,
        asset_id,
        view_visible: true,
        world_from_local: [0; 12],
        previous_world_from_local: None,
        not_shadow_receiver: false,
        transmitted_receiver: false,
        det_sign_positive: true,
    }
}

fn frame_input(
    events: Vec<AssetEvent>,
    main_assets: &[(u64, Isosurface)],
    instances: Vec<ExtractedInstance>,
    compiled: bool,
) -> FrameInput {
    let mut store: AssetTable<Isosurface> = AssetTable::new();
    for (id, a) in main_assets {
        store.insert(*id, *a);
    }
    let state = if compiled {
        CachedPipelineState::Compiled
    } else {
        CachedPipelineState::Queued
    };
    FrameInput {
        asset_events: events,
        main_assets: store,
        scene_instances: instances,
        find_vertices_state: state,
        connect_vertices_state: state,
        prepare_indirect_state: state,
    }
}

/// One asset, one instance: while the pipelines compile the task stays
/// pending with its storage allocated; once they are compiled the task
/// is dispatched and retired, and the buffer set remains for drawing.
#[test]
fn scenario_register_and_complete() {
    let a = grid_asset((7.0, 7.0, 7.0), (1, 1, 1));
    let mut world = RenderWorld::new();

    // frame 1: asset appears, pipelines still compiling
    let out1 = run_frame(
        &mut world,
        &frame_input(vec![AssetEvent::Added { id: 1 }], &[(1, a)], vec![instance_row(10, 1)], false),
    );
    assert_eq!(out1.prepared.creates.len(), 6);
    assert!(out1.node.steps.is_empty());
    assert!(out1.retired.is_empty());
    assert!(world.tasks.table.contains(1));
    assert!(world.buffers.table.contains(1));

    // frame 2: pipelines are compiled; the node dispatches and the task
    // is retired one phase later, leaving the buffers behind
    let out2 = run_frame(
        &mut world,
        &frame_input(vec![], &[(1, a)], vec![instance_row(10, 1)], true),
    );
    assert_eq!(out2.prepared.creates.len(), 0);
    assert_eq!(out2.retired, vec![1]);
    assert!(!world.tasks.table.contains(1));
    let buffers = world.buffers.table.get(1).unwrap();
    let indirect = world.indirect_buffers.table.get(1).unwrap();
    assert_eq!(buffers.index_buffer, buffers.vertex_buffer + 1);
    assert_eq!(indirect.indirect_buffer, buffers.vertex_buffer + 5);

    // the dispatch sequence of the single task, in order
    assert_eq!(out2.node.steps.len(), 8);
    assert!(matches!(out2.node.steps[0], PassStep::SetCalculationBindGroup { asset_id: 1, .. }));
    assert!(matches!(out2.node.steps[2], PassStep::Dispatch { x: 1, y: 1, z: 1 }));
    assert!(matches!(out2.node.steps[4], PassStep::Dispatch { x: 1, y: 1, z: 1 }));
    assert!(matches!(out2.node.steps[5], PassStep::SetIndirectBindGroup { asset_id: 1, .. }));
    assert!(matches!(out2.node.steps[7], PassStep::Dispatch { x: 1, y: 1, z: 1 }));
}

/// Two instances of one asset share one task and one buffer set.
#[test]
fn scenario_shared_asset() {
    let a = grid_asset((7.0, 7.0, 7.0), (1, 1, 1));
    let mut world = RenderWorld::new();
    let out = run_frame(
        &mut world,
        &frame_input(
            vec![AssetEvent::Added { id: 1 }],
            &[(1, a)],
            vec![instance_row(10, 1), instance_row(11, 1)],
            false,
        ),
    );
    assert_eq!(world.instances.table.len(), 2);
    assert_eq!(world.tasks.table.len(), 1);
    assert_eq!(world.buffers.table.len(), 1);
    assert_eq!(out.prepared.creates.len(), 6);
}

/// An asset modified while its task is still pending: no second task, no
/// buffer churn, and the uniform upload carries the latest snapshot.
#[test]
fn scenario_modified_while_pending() {
    let first = grid_asset((7.0, 7.0, 7.0), (1, 1, 1));
    let second = grid_asset((9.0, 9.0, 9.0), (1, 1, 1));
    let mut world = RenderWorld::new();

    let out1 = run_frame(
        &mut world,
        &frame_input(vec![AssetEvent::Added { id: 1 }], &[(1, first)], vec![instance_row(10, 1)], false),
    );
    let handles_before = *world.buffers.table.get(1).unwrap();
    assert_eq!(out1.prepared.creates.len(), 6);

    let out2 = run_frame(
        &mut world,
        &frame_input(
            vec![AssetEvent::Modified { id: 1 }],
            &[(1, second)],
            vec![instance_row(10, 1)],
            false,
        ),
    );
    // still one task, same storage identity
    assert_eq!(world.tasks.table.len(), 1);
    assert_eq!(out2.prepared.creates.len(), 0);
    assert_eq!(*world.buffers.table.get(1).unwrap(), handles_before);

    // the frame's uniform upload holds the latest grid parameters
    let expected = task_uniform_words_of(&isosurface::assets::RenderIsosurface::prepare_asset(
        &second,
    ));
    let upload = out2
        .prepared
        .writes
        .iter()
        .find(|w| w.handle == handles_before.uniform_buffer)
        .unwrap();
    assert_eq!(upload.words, expected);
    assert_eq!(upload.words[0], 9.0f32.to_bits());
}

/// A zero density on one axis dispatches nothing at all: the recorded
/// pass holds no command for the task, and the zero-initialized indirect
/// record draws zero primitives.
#[test]
fn scenario_zero_density() {
    let a = grid_asset((7.0, 7.0, 7.0), (0, 2, 2));
    let mut world = RenderWorld::new();
    run_frame(
        &mut world,
        &frame_input(vec![AssetEvent::Added { id: 1 }], &[(1, a)], vec![instance_row(10, 1)], false),
    );
    let out = run_frame(
        &mut world,
        &frame_input(vec![], &[(1, a)], vec![instance_row(10, 1)], true),
    );
    assert!(out.node.steps.is_empty());
    assert_eq!(out.node.completed, vec![1]);
    assert_eq!(out.retired, vec![1]);
    for step in &out.node.steps {
        if let PassStep::Dispatch { x, y, z } = step {
            assert!(*x > 0 && *y > 0 && *z > 0);
        }
    }
}

/// An asset removed while its task is pending: the preparation pass
/// reports it and still handles every other task; retirement releases
/// the orphan's storage.
#[test]
fn scenario_removed_asset_is_skipped_and_released() {
    let a = grid_asset((7.0, 7.0, 7.0), (1, 1, 1));
    let b = grid_asset((3.0, 3.0, 3.0), (1, 1, 1));
    let mut world = RenderWorld::new();

    run_frame(
        &mut world,
        &frame_input(
            vec![AssetEvent::Added { id: 1 }, AssetEvent::Added { id: 2 }],
            &[(1, a), (2, b)],
            vec![instance_row(10, 1), instance_row(11, 2)],
            false,
        ),
    );
    assert_eq!(world.buffers.table.len(), 2);

    // asset 1 vanishes while both tasks are still pending
    let out = run_frame(
        &mut world,
        &frame_input(vec![AssetEvent::Removed { id: 1 }], &[(2, b)], vec![instance_row(11, 2)], false),
    );
    assert_eq!(out.prepared.missing_assets, vec![1]);
    assert_eq!(out.released, vec![1]);
    assert!(!world.tasks.table.contains(1));
    assert!(!world.buffers.table.contains(1));
    // the other task was still served
    assert!(world.tasks.table.contains(2));
    assert!(world.buffers.table.contains(2));
    assert!(out
        .prepared
        .writes
        .iter()
        .any(|w| w.handle == world.buffers.table.get(2).unwrap().uniform_buffer));
}

/// Readiness is observed before the node runs and retirement happens
/// after it, never in the same phase: a task retired this frame was
/// dispatched this frame, and a frame without compiled pipelines retires
/// nothing.
#[test]
fn scenario_two_phase_retirement() {
    let a = grid_asset((7.0, 7.0, 7.0), (1, 1, 1));
    let mut world = RenderWorld::new();
    let out1 = run_frame(
        &mut world,
        &frame_input(vec![AssetEvent::Added { id: 1 }], &[(1, a)], vec![instance_row(10, 1)], false),
    );
    assert!(out1.retired.is_empty());
    assert!(world.tasks.table.contains(1));

    let out2 = run_frame(
        &mut world,
        &frame_input(vec![], &[(1, a)], vec![instance_row(10, 1)], true),
    );
    assert_eq!(out2.retired, out2.node.completed);
    assert_eq!(out2.retired, vec![1]);
    assert!(world.pipelines_ready.0);
}
