use vstd::prelude::*;

use crate::buffers::{
    BUFFER_USAGE_INDEX, BUFFER_USAGE_STORAGE, BUFFER_USAGE_VERTEX, WORST_CASE_BUFFER_SIZE,
};
use crate::table::AssetTable;
use crate::tasks::CalculateIsosurfaceTasks;

verus! {

/// Byte stride of one vertex in the shared mesh arena: a position and a
/// normal, three binary32 components each.
pub const VERTEX_ELEMENT_SIZE: u64 = 24;

/// Byte size of one index in the shared mesh arena.
pub const INDEX_ELEMENT_SIZE: u64 = 4;

/// Which mesh stands in for each isosurface asset, keyed by asset id.
///
/// Downstream visibility and draw systems of the host expect every
/// renderable to carry some mesh; an isosurface has none until the GPU
/// writes one, so each asset gets a placeholder mesh whose arena storage
/// the compute pass then fills.
pub struct MeshRegistry {
    pub table: AssetTable<u64>,
}

impl MeshRegistry {
    pub open spec fn wf(&self) -> bool {
        self.table.wf()
    }

    pub fn new() -> (r: Self)
        ensures
            r.wf(),
            r.table@ == Map::<u64, u64>::empty(),
    {
        MeshRegistry { table: AssetTable::new() }
    }
}

/// The registry after one frame's (asset id, mesh id) sightings are
/// folded in: the first sighting of an asset binds it, later ones are
/// ignored.
pub open spec fn registry_after(m: Map<u64, u64>, rows: Seq<(u64, u64)>) -> Map<u64, u64>
    decreases rows.len(),
{
    if rows.len() == 0 {
        m
    } else {
        let folded = registry_after(m, rows.drop_last());
        let row = rows.last();
        if folded.dom().contains(row.0) {
            folded
        } else {
            folded.insert(row.0, row.1)
        }
    }
}

/// Record which mesh each isosurface entity carries, first sighting
/// wins.  `rows` holds one (asset id, mesh id) pair per queried entity.
pub fn fill_render_mesh_registry(registry: &mut MeshRegistry, rows: &Vec<(u64, u64)>)
    requires
        old(registry).wf(),
    ensures
        final(registry).wf(),
        final(registry).table@ == registry_after(old(registry).table@, rows@),
{
    let n = rows.len();
    let mut i: usize = 0;
    while i < n
        invariant
            registry.wf(),
            n == rows@.len(),
            i <= n,
            registry.table@ == registry_after(old(registry).table@, rows@.take(i as int)),
        decreases n - i,
    {
        let ghost prefix = rows@.take(i as int);
        let (asset_id, mesh_id) = rows[i];
        if !registry.table.contains(asset_id) {
            registry.table.insert(asset_id, mesh_id);
        }
        proof {
            let next = rows@.take(i + 1 as int);
            assert(next.drop_last() =~= prefix);
            assert(next.last() == rows@[i as int]);
        }
        i = i + 1;
    }
    proof {
        assert(rows@.take(n as int) =~= rows@);
    }
}

/// Mints ids for placeholder meshes handed to the host asset server.
pub struct MeshMinter {
    pub next_id: u64,
}

impl MeshMinter {
    pub fn new() -> (r: Self)
        ensures
            r.next_id == 0,
    {
        MeshMinter { next_id: 0 }
    }
}

/// One placeholder mesh to attach: this entity gets this mesh; `created`
/// says the mesh is new (an empty triangle list with position and normal
/// attributes and externally managed storage) rather than a shared one.
#[derive(Clone, Copy, Debug, PartialEq, Eq, Structural)]
pub struct PhonyMeshInsert {
    pub entity: u64,
    pub mesh_id: u64,
    pub created: bool,
}

/// Give every isosurface entity that still lacks a mesh a placeholder.
/// `rows` holds one (entity, asset id) pair per such entity.  Entities
/// sharing an asset share the placeholder: the registry entry made for
/// the first decides for the rest, across frames.
pub fn insert_phony_meshes(
    registry: &mut MeshRegistry,
    minter: &mut MeshMinter,
    rows: &Vec<(u64, u64)>,
) -> (out: Vec<PhonyMeshInsert>)
    requires
        old(registry).wf(),
        old(minter).next_id + rows@.len() <= u64::MAX,
    ensures
        final(registry).wf(),
        out@.len() == rows@.len(),
        // each entity is told its mesh, and the registry agrees
        forall|j: int|
            0 <= j < rows@.len() ==> (#[trigger] out@[j]).entity == rows@[j].0 && final(
                registry
            ).table@.dom().contains(rows@[j].1) && out@[j].mesh_id == final(
                registry
            ).table@[rows@[j].1],
        // prior registry entries are untouched
        forall|k: u64| #[trigger] old(registry).table@.dom().contains(k)
            ==> final(registry).table@.dom().contains(k) && final(registry).table@[k] == old(
                registry
            ).table@[k],
        // the registry covers exactly the prior assets and this frame's
        forall|k: u64| #[trigger] final(registry).table@.dom().contains(k)
            <==> old(registry).table@.dom().contains(k) || exists|j: int|
                0 <= j < rows@.len() && (#[trigger] rows@[j]).1 == k,
        // a new binding is a freshly minted mesh id
        forall|k: u64|
            #[trigger] final(registry).table@.dom().contains(k) && !old(
                registry
            ).table@.dom().contains(k) ==> old(minter).next_id <= final(registry).table@[k]
                < final(minter).next_id,
        // a mesh marked created was not in the registry before the pass
        forall|j: int|
            0 <= j < rows@.len() && (#[trigger] out@[j]).created ==> !old(
                registry
            ).table@.dom().contains(rows@[j].1),
    {
    let mut out: Vec<PhonyMeshInsert> = Vec::new();
    let n = rows.len();
    let mut i: usize = 0;
    while i < n
        invariant
            registry.wf(),
            n == rows@.len(),
            i <= n,
            out@.len() == i,
            minter.next_id >= old(minter).next_id,
            minter.next_id + (n - i) <= u64::MAX,
            forall|j: int|
                0 <= j < i ==> (#[trigger] out@[j]).entity == rows@[j].0
                    && registry.table@.dom().contains(rows@[j].1) && out@[j].mesh_id
                    == registry.table@[rows@[j].1],
            forall|k: u64| #[trigger] old(registry).table@.dom().contains(k)
                ==> registry.table@.dom().contains(k) && registry.table@[k] == old(
                    registry
                ).table@[k],
            forall|k: u64| #[trigger] registry.table@.dom().contains(k)
                <==> old(registry).table@.dom().contains(k) || exists|j: int|
                    0 <= j < i && (#[trigger] rows@[j]).1 == k,
            forall|k: u64|
                #[trigger] registry.table@.dom().contains(k) && !old(
                    registry
                ).table@.dom().contains(k) ==> old(minter).next_id <= registry.table@[k]
                    < minter.next_id,
            forall|j: int|
                0 <= j < i && (#[trigger] out@[j]).created ==> !old(
                    registry
                ).table@.dom().contains(rows@[j].1),
        decreases n - i,
    {
        let (entity, asset_id) = rows[i];
        match registry.table.get(asset_id) {
            Some(mesh_id) => {
                out.push(PhonyMeshInsert { entity, mesh_id: *mesh_id, created: false });
            },
            None => {
                let mesh_id = minter.next_id;
                minter.next_id = minter.next_id + 1;
                registry.table.insert(asset_id, mesh_id);
                out.push(PhonyMeshInsert { entity, mesh_id, created: true });
            },
        }
        i = i + 1;
    }
    out
}

/// The shared mesh-storage arena's bookkeeping: which mesh already has a
/// vertex and an index slab, and the next fresh slab id.
pub struct MeshAllocator {
    pub vertex_slabs: AssetTable<u64>,
    pub index_slabs: AssetTable<u64>,
    pub next_slab: u64,
}

impl MeshAllocator {
    pub open spec fn wf(&self) -> bool {
        &&& self.vertex_slabs.wf()
        &&& self.index_slabs.wf()
        &&& self.vertex_slabs@.dom() == self.index_slabs@.dom()
    }

    pub fn new() -> (r: Self)
        ensures
            r.wf(),
            r.vertex_slabs@ == Map::<u64, u64>::empty(),
            r.next_slab == 0,
    {
        let r = MeshAllocator {
            vertex_slabs: AssetTable::new(),
            index_slabs: AssetTable::new(),
            next_slab: 0,
        };
        proof {
            assert(r.vertex_slabs@.dom() =~= r.index_slabs@.dom());
        }
        r
    }
}

/// One slab to reserve in the arena for a mesh: element layout, capacity
/// and usage of the backing buffer.
#[derive(Clone, Copy, Debug, PartialEq, Eq, Structural)]
pub struct SlabAllocation {
    pub mesh_id: u64,
    pub slab_id: u64,
    /// Vertex slab when set, index slab otherwise.
    pub vertex_class: bool,
    pub element_size: u64,
    pub capacity_bytes: u64,
    pub usage: u32,
}

/// Reserve arena storage for every pending task's placeholder mesh.  A
/// mesh that already has both slabs is left exactly as it is — repeated
/// calls in one frame reserve nothing twice.  A task whose asset has no
/// registry entry yet is skipped and retried next frame.
pub fn allocate_buffers(
    mesh_allocator: &mut MeshAllocator,
    tasks: &CalculateIsosurfaceTasks,
    registry: &MeshRegistry,
) -> (out: Vec<SlabAllocation>)
    requires
        old(mesh_allocator).wf(),
        tasks.wf(),
        registry.wf(),
        old(mesh_allocator).next_slab + 2 * tasks.table.key_seq().len() <= u64::MAX,
    ensures
        final(mesh_allocator).wf(),
        // slabs already reserved keep their identity
        forall|m: u64| #[trigger] old(mesh_allocator).vertex_slabs@.dom().contains(m)
            ==> final(mesh_allocator).vertex_slabs@[m] == old(mesh_allocator).vertex_slabs@[m]
                && final(mesh_allocator).index_slabs@[m] == old(mesh_allocator).index_slabs@[m],
        // afterwards, every pending task with a registry entry is backed
        forall|id: u64|
            tasks.table@.dom().contains(id) && #[trigger] registry.table@.dom().contains(id)
                ==> final(mesh_allocator).vertex_slabs@.dom().contains(registry.table@[id]),
        // nothing is reserved when every such mesh is already backed
        (forall|id: u64|
            tasks.table@.dom().contains(id) && #[trigger] registry.table@.dom().contains(id)
                ==> old(mesh_allocator).vertex_slabs@.dom().contains(registry.table@[id]))
            ==> out@.len() == 0,
        // each reservation is one of the two fixed layouts over the
        // worst-case capacity, under a fresh slab id
        forall|w: int|
            0 <= w < out@.len() ==> (#[trigger] out@[w]).capacity_bytes == WORST_CASE_BUFFER_SIZE
                && (out@[w].vertex_class ==> out@[w].element_size == VERTEX_ELEMENT_SIZE
                && out@[w].usage == (BUFFER_USAGE_VERTEX | BUFFER_USAGE_STORAGE)) && (
            !out@[w].vertex_class ==> out@[w].element_size == INDEX_ELEMENT_SIZE && out@[w].usage
                == (BUFFER_USAGE_INDEX | BUFFER_USAGE_STORAGE)) && out@[w].slab_id == old(
                mesh_allocator
            ).next_slab + w,
        final(mesh_allocator).next_slab == old(mesh_allocator).next_slab + out@.len(),
{
    let mut out: Vec<SlabAllocation> = Vec::new();
    let n = tasks.table.len();
    let ghost base = old(mesh_allocator).next_slab;
    let mut ti: usize = 0;
    while ti < n
        invariant
            mesh_allocator.wf(),
            tasks.wf(),
            registry.wf(),
            n == tasks.table.key_seq().len(),
            ti <= n,
            base == old(mesh_allocator).next_slab,
            mesh_allocator.next_slab == base + out@.len(),
            mesh_allocator.next_slab + 2 * (n - ti) <= u64::MAX,
            forall|m: u64| #[trigger] old(mesh_allocator).vertex_slabs@.dom().contains(m)
                ==> mesh_allocator.vertex_slabs@.dom().contains(m)
                    && mesh_allocator.vertex_slabs@[m] == old(mesh_allocator).vertex_slabs@[m]
                    && mesh_allocator.index_slabs@[m] == old(mesh_allocator).index_slabs@[m],
            forall|id: u64|
                tasks.table.key_in_prefix(id, ti as int) && #[trigger] registry.table@.dom()
                    .contains(id) ==> mesh_allocator.vertex_slabs@.dom().contains(
                    registry.table@[id],
                ),
            (forall|id: u64|
                tasks.table.key_in_prefix(id, ti as int) && #[trigger] registry.table@.dom()
                    .contains(id) ==> old(mesh_allocator).vertex_slabs@.dom().contains(
                    registry.table@[id],
                )) ==> out@.len() == 0,
            forall|w: int|
                0 <= w < out@.len() ==> (#[trigger] out@[w]).capacity_bytes
                    == WORST_CASE_BUFFER_SIZE && (out@[w].vertex_class ==> out@[w].element_size
                    == VERTEX_ELEMENT_SIZE && out@[w].usage == (BUFFER_USAGE_VERTEX
                    | BUFFER_USAGE_STORAGE)) && (!out@[w].vertex_class ==> out@[w].element_size
                    == INDEX_ELEMENT_SIZE && out@[w].usage == (BUFFER_USAGE_INDEX
                    | BUFFER_USAGE_STORAGE)) && out@[w].slab_id == base + w,
        decreases n - ti,
    {
        let asset_id = tasks.table.key_at(ti);
        proof {
            tasks.table.lemma_prefix_step(ti as int);
        }
        match registry.table.get(asset_id) {
            None => {},
            Some(mesh_id_ref) => {
                let mesh_id = *mesh_id_ref;
                let vertex_known = mesh_allocator.vertex_slabs.contains(mesh_id);
                let index_known = mesh_allocator.index_slabs.contains(mesh_id);
                if !(vertex_known && index_known) {
                    let vertex_slab = mesh_allocator.next_slab;
                    let index_slab = mesh_allocator.next_slab + 1;
                    out.push(SlabAllocation {
                        mesh_id,
                        slab_id: vertex_slab,
                        vertex_class: true,
                        element_size: VERTEX_ELEMENT_SIZE,
                        capacity_bytes: WORST_CASE_BUFFER_SIZE,
                        usage: BUFFER_USAGE_VERTEX | BUFFER_USAGE_STORAGE,
                    });
                    out.push(SlabAllocation {
                        mesh_id,
                        slab_id: index_slab,
                        vertex_class: false,
                        element_size: INDEX_ELEMENT_SIZE,
                        capacity_bytes: WORST_CASE_BUFFER_SIZE,
                        usage: BUFFER_USAGE_INDEX | BUFFER_USAGE_STORAGE,
                    });
                    mesh_allocator.next_slab = index_slab + 1;
                    mesh_allocator.vertex_slabs.insert(mesh_id, vertex_slab);
                    mesh_allocator.index_slabs.insert(mesh_id, index_slab);
                    proof {
                        assert(mesh_allocator.vertex_slabs@.dom()
                            =~= mesh_allocator.index_slabs@.dom());
                    }
                }
            },
        }
        ti = ti + 1;
    }
    proof {
        tasks.table.lemma_prefix_complete();
    }
    out
}

} // verus!
