use isosurface::assets::{
    extract_isosurface_asset, prepare_isosurface_assets, upserted_ids, AssetEvent, AssetUpdate,
    GridDensity, Isosurface, IsosurfaceAssets, RenderIsosurface, Vec3Bits,
};
use isosurface::instances::{
    compute_mesh_flags, extract_isosurface_instances, ExtractedInstance, IsosurfaceInstances,
};
use isosurface::table::AssetTable;
use isosurface::tasks::{
    clear_finished_tasks, mark_ready_tasks, queue_isosurface_calculations,
    retire_orphaned_tasks, schedule_isosurface_tasks, AssetHandled, CalculateIsosurfaceTasks,
    NewIsosurfaceAssets,
};

fn vec3(x: f32, y: f32, z: f32) -> Vec3Bits {
    Vec3Bits { x: x.to_bits(), y: y.to_bits(), z: z.to_bits() }
}

fn asset(size: f32, density: (u32, u32, u32)) -> Isosurface {
    Isosurface {
        grid_size: vec3(size, size, size),
        grid_origin: vec3(0.0, 0.0, 0.0),
        grid_density: GridDensity { x: density.0, y: density.1, z: density.2 },
        asset_usage: 3,
    }
}

#[test]
fn table_insert_get_remove() {
    let mut table: AssetTable<u32> = AssetTable::new();
    assert_eq!(table.len(), 0);
    table.insert(7, 70);
    table.insert(9, 90);
    table.insert(7, 71);
    assert_eq!(table.len(), 2);
    assert!(table.contains(7));
    assert_eq!(table.get(7), Some(&71));
    assert_eq!(table.get(9), Some(&90));
    assert_eq!(table.get(8), None);
    assert_eq!(table.key_at(0), 7);
    assert_eq!(table.key_at(1), 9);
    table.remove(7);
    assert!(!table.contains(7));
    assert_eq!(table.len(), 1);
    table.clear();
    assert_eq!(table.len(), 0);
}

#[test]
fn default_asset_is_ten_cube() {
    let a = Isosurface::default();
    assert_eq!(a.grid_size, vec3(10.0, 10.0, 10.0));
    assert_eq!(a.grid_origin, vec3(0.0, 0.0, 0.0));
    assert_eq!(a.grid_density, GridDensity { x: 1, y: 1, z: 1 });
    assert_eq!(a.asset_usage, 3);
}

#[test]
fn prepare_asset_copies_grid_parameters() {
    let a = asset(7.0, (1, 2, 3));
    let prepared = RenderIsosurface::prepare_asset(&a);
    assert_eq!(prepared.grid_size, a.grid_size);
    assert_eq!(prepared.grid_origin, a.grid_origin);
    assert_eq!(prepared.grid_density, a.grid_density);
    assert_eq!(RenderIsosurface::asset_usage(&a), 3);
}

#[test]
fn extraction_skips_stale_ids_and_keeps_going() {
    let mut store: AssetTable<Isosurface> = AssetTable::new();
    store.insert(1, asset(1.0, (1, 1, 1)));
    store.insert(3, asset(3.0, (1, 1, 1)));
    let events = vec![
        AssetEvent::Added { id: 1 },
        AssetEvent::Added { id: 2 },
        AssetEvent::Modified { id: 3 },
        AssetEvent::Removed { id: 4 },
    ];
    let extracted = extract_isosurface_asset(&events, &store);
    assert_eq!(extracted.updates.len(), 3);
    assert!(matches!(extracted.updates[0], AssetUpdate::Upsert { id: 1, .. }));
    assert!(matches!(extracted.updates[1], AssetUpdate::Upsert { id: 3, .. }));
    assert!(matches!(extracted.updates[2], AssetUpdate::Remove { id: 4 }));
    let added = upserted_ids(&extracted);
    assert_eq!(added, vec![1, 3]);

    let mut storage = IsosurfaceAssets::new();
    prepare_isosurface_assets(&extracted, &mut storage);
    assert!(storage.table.contains(1));
    assert!(storage.table.contains(3));
    assert!(!storage.table.contains(2));
    assert!(!storage.table.contains(4));
}

#[test]
fn removal_event_drops_the_snapshot() {
    let mut store: AssetTable<Isosurface> = AssetTable::new();
    store.insert(5, asset(5.0, (1, 1, 1)));
    let mut storage = IsosurfaceAssets::new();
    let extracted = extract_isosurface_asset(&vec![AssetEvent::Added { id: 5 }], &store);
    prepare_isosurface_assets(&extracted, &mut storage);
    assert!(storage.table.contains(5));
    let extracted = extract_isosurface_asset(&vec![AssetEvent::Removed { id: 5 }], &store);
    prepare_isosurface_assets(&extracted, &mut storage);
    assert!(!storage.table.contains(5));
}

fn row(entity: u64, asset_id: u64, visible: bool) -> ExtractedInstance {
    ExtractedInstance {
        entity,
        asset_id,
        view_visible: visible,
        world_from_local: [0; 12],
        previous_world_from_local: None,
        not_shadow_receiver: false,
        transmitted_receiver: false,
        det_sign_positive: true,
    }
}

#[test]
fn instance_extraction_keeps_visible_rows_only() {
    let mut instances = IsosurfaceInstances::new();
    let rows = vec![row(10, 1, true), row(11, 1, false), row(12, 2, true)];
    extract_isosurface_instances(&mut instances, &rows);
    assert_eq!(instances.table.len(), 2);
    assert!(instances.table.contains(10));
    assert!(!instances.table.contains(11));
    assert!(instances.table.contains(12));
    let inst = instances.table.get(10).unwrap();
    assert_eq!(inst.asset_id, 1);
    assert_eq!(inst.material_bind_group_id, None);
}

#[test]
fn mesh_flags_pack_the_documented_bits() {
    assert_eq!(compute_mesh_flags(true, false, false), 0);
    assert_eq!(compute_mesh_flags(false, false, false), 1 << 29);
    assert_eq!(compute_mesh_flags(false, true, false), (1 << 29) | (1 << 30));
    assert_eq!(
        compute_mesh_flags(false, true, true),
        (1 << 29) | (1 << 30) | (1 << 31)
    );
    assert_eq!(compute_mesh_flags(true, false, true), 1 << 31);
}

#[test]
fn missing_previous_transform_falls_back_to_current() {
    let mut instances = IsosurfaceInstances::new();
    let mut r = row(10, 1, true);
    r.world_from_local = [3; 12];
    extract_isosurface_instances(&mut instances, &vec![r]);
    let inst = instances.table.get(10).unwrap();
    assert_eq!(inst.transforms.previous_world_from_local, [3; 12]);
}

#[test]
fn scheduling_twice_keeps_one_entry_per_asset() {
    let mut tasks = CalculateIsosurfaceTasks::new();
    schedule_isosurface_tasks(&mut tasks, &vec![1, 2, 1]);
    assert_eq!(tasks.table.len(), 2);
    schedule_isosurface_tasks(&mut tasks, &vec![1, 2]);
    assert_eq!(tasks.table.len(), 2);
    assert!(!tasks.table.get(1).unwrap().ready);
}

#[test]
fn rescheduling_keeps_readiness_of_inflight_task() {
    let mut tasks = CalculateIsosurfaceTasks::new();
    schedule_isosurface_tasks(&mut tasks, &vec![1]);
    mark_ready_tasks(&mut tasks, true);
    assert!(tasks.table.get(1).unwrap().ready);
    schedule_isosurface_tasks(&mut tasks, &vec![1]);
    assert_eq!(tasks.table.len(), 1);
    assert!(tasks.table.get(1).unwrap().ready);
}

#[test]
fn queue_calculations_picks_up_new_assets_once() {
    let mut tasks = CalculateIsosurfaceTasks::new();
    let mut new_assets = NewIsosurfaceAssets::new();
    new_assets.table.insert(1, AssetHandled(false));
    let mut instances = IsosurfaceInstances::new();
    extract_isosurface_instances(&mut instances, &vec![row(10, 1, true), row(11, 9, true)]);

    queue_isosurface_calculations(&mut tasks, &mut new_assets, &instances);
    assert_eq!(tasks.table.len(), 1);
    assert!(tasks.table.contains(1));
    assert_eq!(new_assets.table.get(1), Some(&AssetHandled(true)));
    // asset 9 was never extracted as new, so no task was queued for it
    assert!(!tasks.table.contains(9));
}

#[test]
fn mark_ready_only_when_pipelines_compiled() {
    let mut tasks = CalculateIsosurfaceTasks::new();
    schedule_isosurface_tasks(&mut tasks, &vec![1, 2]);
    mark_ready_tasks(&mut tasks, false);
    assert!(!tasks.table.get(1).unwrap().ready);
    mark_ready_tasks(&mut tasks, true);
    assert!(tasks.table.get(1).unwrap().ready);
    assert!(tasks.table.get(2).unwrap().ready);
}

#[test]
fn clear_finished_removes_exactly_the_finished() {
    let mut tasks = CalculateIsosurfaceTasks::new();
    schedule_isosurface_tasks(&mut tasks, &vec![1, 2, 3]);
    clear_finished_tasks(&mut tasks, &vec![1, 3]);
    assert_eq!(tasks.table.len(), 1);
    assert!(tasks.table.contains(2));
}

#[test]
fn orphaned_tasks_are_retired_and_reported() {
    let mut tasks = CalculateIsosurfaceTasks::new();
    schedule_isosurface_tasks(&mut tasks, &vec![1, 2]);
    let mut storage = IsosurfaceAssets::new();
    storage.table.insert(2, RenderIsosurface {
        grid_size: vec3(1.0, 1.0, 1.0),
        grid_origin: vec3(0.0, 0.0, 0.0),
        grid_density: GridDensity { x: 1, y: 1, z: 1 },
    });
    let orphaned = retire_orphaned_tasks(&mut tasks, &storage.table);
    assert_eq!(orphaned, vec![1]);
    assert_eq!(tasks.table.len(), 1);
    assert!(tasks.table.contains(2));
}
