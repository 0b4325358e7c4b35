use vstd::prelude::*;

use crate::instances::{IsosurfaceInstances, MeshTransforms};
use crate::table::AssetTable;

verus! {

/// Relies on nonmax::NonMaxU32: `new` accepts exactly the values below
/// `u32::MAX` and `get` returns the constructed value (both sides XOR
/// the value with `u32::MAX`, so the round trip is the identity).
#[verifier::external_body]
fn non_max_u32(value: u32) -> (r: Option<u32>)
    ensures
        value == u32::MAX ==> r is None,
        value != u32::MAX ==> r == Some(value),
{
    nonmax::NonMaxU32::new(value).map(|v| v.get())
}

/// Per-entity data the host's GPU uniform builder keeps for a mesh
/// entity while batches are formed.
#[derive(Clone, Copy, Debug, PartialEq, Eq, Structural)]
pub struct RenderMeshInstanceGpu {
    /// Index of the entity's record in the shared mesh-uniform buffer.
    pub current_uniform_index: u32,
    pub material_bind_group_id: Option<u32>,
    pub mesh_asset_id: u64,
    /// Whether the entity may share a batch at all.
    pub should_batch: bool,
}

/// The host's per-entity mesh data, in one of its two uniform-building
/// modes.  Which mode is live decides which batching queries are legal.
pub enum RenderMeshInstances {
    /// Mesh uniforms are built on the CPU: transforms live here.
    CpuBuilding(AssetTable<MeshTransforms>),
    /// Mesh uniforms are built on the GPU: only indices live here.
    GpuBuilding(AssetTable<RenderMeshInstanceGpu>),
}

impl RenderMeshInstances {
    pub open spec fn wf(&self) -> bool {
        match self {
            RenderMeshInstances::CpuBuilding(t) => t.wf(),
            RenderMeshInstances::GpuBuilding(t) => t.wf(),
        }
    }
}

/// What batch formation compares to decide whether two instances share a
/// draw: the material bind group and the isosurface asset.  Equal pairs
/// may batch; the compute result is keyed by asset, so instances of one
/// asset share one generated mesh.
pub type CompareData = (Option<u32>, u64);

/// Supplies per-instance data to the host's batch formation.
pub struct IsosurfaceBatcher;

impl IsosurfaceBatcher {
    /// Per-instance buffer data and compare data, CPU-building path:
    /// the instance's transforms, and the batch key that instances must
    /// share to be drawn together.
    pub fn get_batch_data(
        isosurface_instances: &IsosurfaceInstances,
        entity: u64,
    ) -> (r: Option<(MeshTransforms, Option<CompareData>)>)
        requires
            isosurface_instances.wf(),
        ensures
            match r {
                Some(data) => isosurface_instances.table@.dom().contains(entity) && data == (
                    isosurface_instances.table@[entity].transforms,
                    Some(
                        (
                            isosurface_instances.table@[entity].material_bind_group_id,
                            isosurface_instances.table@[entity].asset_id,
                        ),
                    ),
                ),
                None => !isosurface_instances.table@.dom().contains(entity),
            },
    {
        match isosurface_instances.table.get(entity) {
            Some(instance) => Some(
                (
                    instance.transforms,
                    Some((instance.material_bind_group_id, instance.asset_id)),
                ),
            ),
            None => None,
        }
    }

    /// Uniform-buffer index and compare data for one entity, GPU-building
    /// path.  Answers only in GPU-building mode — the query is a
    /// contract violation in CPU mode and yields nothing — and only for
    /// an index that a non-max integer can carry.
    pub fn get_index_and_compare_data(
        mesh_instances: &RenderMeshInstances,
        entity: u64,
    ) -> (r: Option<(u32, Option<CompareData>)>)
        requires
            mesh_instances.wf(),
        ensures
            match mesh_instances {
                RenderMeshInstances::CpuBuilding(_) => r is None,
                RenderMeshInstances::GpuBuilding(t) => match r {
                    Some(data) => t@.dom().contains(entity) && t@[entity].current_uniform_index
                        != u32::MAX && data.0 == t@[entity].current_uniform_index && data.1 == (
                    if t@[entity].should_batch {
                        Some(
                            (
                                (t@[entity]).material_bind_group_id,
                                (t@[entity]).mesh_asset_id,
                            ),
                        )
                    } else {
                        None
                    }),
                    None => !t@.dom().contains(entity) || t@[entity].current_uniform_index
                        == u32::MAX,
                },
            },
    {
        match mesh_instances {
            RenderMeshInstances::CpuBuilding(_) => None,
            RenderMeshInstances::GpuBuilding(table) => match table.get(entity) {
                Some(instance) => match non_max_u32(instance.current_uniform_index) {
                    Some(index) => {
                        let compare_data = if instance.should_batch {
                            Some((instance.material_bind_group_id, instance.mesh_asset_id))
                        } else {
                            None
                        };
                        Some((index, compare_data))
                    },
                    None => None,
                },
                None => None,
            },
        }
    }

    /// Per-instance buffer data for a binned phase, CPU-building path.
    pub fn get_binned_batch_data(
        mesh_instances: &RenderMeshInstances,
        entity: u64,
    ) -> (r: Option<MeshTransforms>)
        requires
            mesh_instances.wf(),
        ensures
            match mesh_instances {
                RenderMeshInstances::GpuBuilding(_) => r is None,
                RenderMeshInstances::CpuBuilding(t) => match r {
                    Some(transforms) => t@.dom().contains(entity) && transforms == t@[entity],
                    None => !t@.dom().contains(entity),
                },
            },
    {
        match mesh_instances {
            RenderMeshInstances::GpuBuilding(_) => None,
            RenderMeshInstances::CpuBuilding(table) => match table.get(entity) {
                Some(transforms) => Some(*transforms),
                None => None,
            },
        }
    }

    /// Uniform-buffer index for a binned phase, GPU-building path.
    pub fn get_binned_index(
        mesh_instances: &RenderMeshInstances,
        entity: u64,
    ) -> (r: Option<u32>)
        requires
            mesh_instances.wf(),
        ensures
            match mesh_instances {
                RenderMeshInstances::CpuBuilding(_) => r is None,
                RenderMeshInstances::GpuBuilding(t) => match r {
                    Some(index) => t@.dom().contains(entity) && t@[entity].current_uniform_index
                        != u32::MAX && index == t@[entity].current_uniform_index,
                    None => !t@.dom().contains(entity) || t@[entity].current_uniform_index
                        == u32::MAX,
                },
            },
    {
        match mesh_instances {
            RenderMeshInstances::CpuBuilding(_) => None,
            RenderMeshInstances::GpuBuilding(table) => match table.get(entity) {
                Some(instance) => non_max_u32(instance.current_uniform_index),
                None => None,
            },
        }
    }
}

} // verus!
