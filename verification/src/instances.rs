use vstd::prelude::*;

use crate::table::AssetTable;

verus! {

/// Mesh flag bit: the instance receives shadows.
pub const MESH_FLAGS_SHADOW_RECEIVER: u32 = 1 << 29;

/// Mesh flag bit: the instance receives transmitted shadows.
pub const MESH_FLAGS_TRANSMITTED_SHADOW_RECEIVER: u32 = 1 << 30;

/// Mesh flag bit: the determinant of the 3x3 model matrix is positive.
pub const MESH_FLAGS_SIGN_DETERMINANT_MODEL_3X3: u32 = 1 << 31;

/// A 3x4 affine world-from-local matrix, carried as the bit patterns of
/// its twelve binary32 entries; the render side only moves it into the
/// per-instance GPU record and never computes with it.
pub type TransformBits = [u32; 12];

/// Per-instance transform data plus the packed mesh flag bits.
#[derive(Clone, Copy, Debug, PartialEq)]
pub struct MeshTransforms {
    pub world_from_local: TransformBits,
    pub previous_world_from_local: TransformBits,
    pub flags: u32,
}

/// A live occurrence of an isosurface asset in the scene.  Compute work is
/// keyed by `asset_id`, never by instance, so any number of instances
/// share one generated mesh.
#[derive(Clone, Copy, Debug, PartialEq)]
pub struct IsosurfaceInstance {
    pub asset_id: u64,
    pub material_bind_group_id: Option<u32>,
    pub transforms: MeshTransforms,
}

/// The render world's instance set, keyed by entity id.  Rebuilt from the
/// scene graph every frame rather than diffed, so no stale instance can
/// survive a frame.
pub struct IsosurfaceInstances {
    pub table: AssetTable<IsosurfaceInstance>,
}

impl IsosurfaceInstances {
    pub open spec fn wf(&self) -> bool {
        self.table.wf()
    }

    pub fn new() -> (r: Self)
        ensures
            r.wf(),
            r.table@ == Map::<u64, IsosurfaceInstance>::empty(),
    {
        IsosurfaceInstances { table: AssetTable::new() }
    }
}

/// Some live instance references asset `k`.
pub open spec fn instances_reference_asset(instances: IsosurfaceInstances, k: u64) -> bool {
    exists|e: u64|
        #[trigger] instances.table@.dom().contains(e) && instances.table@[e].asset_id == k
}

/// One row of the per-frame scene-graph query, already reduced to plain
/// values: the sign test of the model matrix determinant is a fact about
/// floating-point data, so the caller supplies its outcome as a flag.
#[derive(Clone, Copy, Debug, PartialEq)]
pub struct ExtractedInstance {
    pub entity: u64,
    pub asset_id: u64,
    pub view_visible: bool,
    pub world_from_local: TransformBits,
    pub previous_world_from_local: Option<TransformBits>,
    pub not_shadow_receiver: bool,
    pub transmitted_receiver: bool,
    pub det_sign_positive: bool,
}

/// The packed mesh flag bits for one instance.
pub open spec fn spec_mesh_flags(
    not_shadow_receiver: bool,
    transmitted_receiver: bool,
    det_sign_positive: bool,
) -> u32 {
    (if not_shadow_receiver {
        0u32
    } else {
        MESH_FLAGS_SHADOW_RECEIVER
    }) | (if transmitted_receiver {
        MESH_FLAGS_TRANSMITTED_SHADOW_RECEIVER
    } else {
        0u32
    }) | (if det_sign_positive {
        MESH_FLAGS_SIGN_DETERMINANT_MODEL_3X3
    } else {
        0u32
    })
}

/// Pack the per-instance mesh flags.
pub fn compute_mesh_flags(
    not_shadow_receiver: bool,
    transmitted_receiver: bool,
    det_sign_positive: bool,
) -> (r: u32)
    ensures
        r == spec_mesh_flags(not_shadow_receiver, transmitted_receiver, det_sign_positive),
{
    let base: u32 = if not_shadow_receiver {
        0
    } else {
        MESH_FLAGS_SHADOW_RECEIVER
    };
    let with_transmitted: u32 = base | (if transmitted_receiver {
        MESH_FLAGS_TRANSMITTED_SHADOW_RECEIVER
    } else {
        0u32
    });
    with_transmitted | (if det_sign_positive {
        MESH_FLAGS_SIGN_DETERMINANT_MODEL_3X3
    } else {
        0u32
    })
}

/// The instance record that one visible query row yields: a missing
/// previous-frame transform falls back to the current one, and the
/// material bind group is filled in later by the draw queue.
pub open spec fn instance_of_row(row: ExtractedInstance) -> IsosurfaceInstance {
    IsosurfaceInstance {
        asset_id: row.asset_id,
        material_bind_group_id: None,
        transforms: MeshTransforms {
            world_from_local: row.world_from_local,
            previous_world_from_local: match row.previous_world_from_local {
                Some(p) => p,
                None => row.world_from_local,
            },
            flags: spec_mesh_flags(
                row.not_shadow_receiver,
                row.transmitted_receiver,
                row.det_sign_positive,
            ),
        },
    }
}

/// Rebuild the render-side instance set from this frame's query rows.
/// Invisible rows are dropped; the set afterwards holds exactly the
/// visible entities, each mapped to its freshly derived record.
pub fn extract_isosurface_instances(
    instances: &mut IsosurfaceInstances,
    rows: &Vec<ExtractedInstance>,
)
    requires
        old(instances).wf(),
        // the scene graph yields each entity at most once
        forall|i: int, j: int|
            0 <= i < j < rows@.len() ==> rows@[i].entity != rows@[j].entity,
    ensures
        final(instances).wf(),
        forall|e: u64| #[trigger] final(instances).table@.dom().contains(e)
            <==> exists|i: int|
                0 <= i < rows@.len() && rows@[i].view_visible && rows@[i].entity == e,
        forall|i: int|
            0 <= i < rows@.len() && rows@[i].view_visible
                ==> final(instances).table@[#[trigger] rows@[i].entity] == instance_of_row(
                rows@[i],
            ),
{
    instances.table.clear();
    let n = rows.len();
    let mut i: usize = 0;
    while i < n
        invariant
            instances.wf(),
            n == rows@.len(),
            i <= n,
            forall|i2: int, j2: int|
                0 <= i2 < j2 < rows@.len() ==> rows@[i2].entity != rows@[j2].entity,
            forall|e: u64| #[trigger] instances.table@.dom().contains(e)
                <==> exists|j: int|
                    0 <= j < i && rows@[j].view_visible && rows@[j].entity == e,
            forall|j: int|
                0 <= j < i && rows@[j].view_visible
                    ==> instances.table@[#[trigger] rows@[j].entity] == instance_of_row(rows@[j]),
        decreases n - i,
    {
        let row = rows[i];
        if row.view_visible {
            let flags = compute_mesh_flags(
                row.not_shadow_receiver,
                row.transmitted_receiver,
                row.det_sign_positive,
            );
            let previous = match row.previous_world_from_local {
                Some(p) => p,
                None => row.world_from_local,
            };
            let instance = IsosurfaceInstance {
                asset_id: row.asset_id,
                material_bind_group_id: None,
                transforms: MeshTransforms {
                    world_from_local: row.world_from_local,
                    previous_world_from_local: previous,
                    flags,
                },
            };
            instances.table.insert(row.entity, instance);
            proof {
                assert(instance == instance_of_row(rows@[i as int]));
            }
        }
        i = i + 1;
    }
}

} // verus!
