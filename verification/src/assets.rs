use vstd::prelude::*;

use crate::table::AssetTable;

verus! {

/// Bit patterns of the three binary32 components of a world-space vector.
///
/// The render side never computes with these values; it only carries them
/// into the uniform record that the compute kernels read, so the library
/// stores them as the raw 32-bit words that end up in GPU memory.
#[derive(Clone, Copy, Debug, PartialEq, Eq, Structural)]
pub struct Vec3Bits {
    pub x: u32,
    pub y: u32,
    pub z: u32,
}

/// Per-axis subdivision multiplier of the sampling grid.
///
/// The cell count along an axis is `8 * density` for that axis: each
/// workgroup of the compute kernels covers a fixed 8x8x8 block.  A zero
/// density on an axis yields an empty grid on that axis.
#[derive(Clone, Copy, Debug, PartialEq, Eq, Structural)]
pub struct GridDensity {
    pub x: u32,
    pub y: u32,
    pub z: u32,
}

/// Keep the source asset in the main world after extraction.
pub const USAGE_MAIN_WORLD: u8 = 1;

/// Keep the extracted copy in the render world.
pub const USAGE_RENDER_WORLD: u8 = 2;

/// Bit pattern of binary32 `10.0`, the default grid extent per axis.
pub const DEFAULT_GRID_EXTENT_BITS: u32 = 0x4120_0000;

/// Declarative description of an isosurface's sampling domain: the
/// user-facing asset.  `grid_size` is the physical extent, `grid_origin`
/// the world-space corner, both carried as binary32 bit patterns.
#[derive(Clone, Copy, Debug, PartialEq, Eq, Structural)]
pub struct Isosurface {
    pub grid_size: Vec3Bits,
    pub grid_origin: Vec3Bits,
    pub grid_density: GridDensity,
    pub asset_usage: u8,
}

impl Default for Isosurface {
    /// A 10x10x10 grid at the origin, density 1 per axis, retained in both
    /// worlds.
    fn default() -> (r: Self)
        ensures
            r.grid_size == (Vec3Bits {
                x: DEFAULT_GRID_EXTENT_BITS,
                y: DEFAULT_GRID_EXTENT_BITS,
                z: DEFAULT_GRID_EXTENT_BITS,
            }),
            r.grid_origin == (Vec3Bits { x: 0, y: 0, z: 0 }),
            r.grid_density == (GridDensity { x: 1, y: 1, z: 1 }),
            r.asset_usage == USAGE_MAIN_WORLD | USAGE_RENDER_WORLD,
    {
        Isosurface {
            grid_size: Vec3Bits {
                x: DEFAULT_GRID_EXTENT_BITS,
                y: DEFAULT_GRID_EXTENT_BITS,
                z: DEFAULT_GRID_EXTENT_BITS,
            },
            grid_origin: Vec3Bits { x: 0, y: 0, z: 0 },
            grid_density: GridDensity { x: 1, y: 1, z: 1 },
            asset_usage: USAGE_MAIN_WORLD | USAGE_RENDER_WORLD,
        }
    }
}

/// Render-side snapshot of an [`Isosurface`]: the grid parameters that the
/// compute side reads.  Never mutated in place; replaced wholesale when the
/// source asset changes.
#[derive(Clone, Copy, Debug, PartialEq, Eq, Structural)]
pub struct RenderIsosurface {
    pub grid_size: Vec3Bits,
    pub grid_origin: Vec3Bits,
    pub grid_density: GridDensity,
}

/// The snapshot that preparing `source` yields.
pub open spec fn spec_prepare_asset(source: Isosurface) -> RenderIsosurface {
    RenderIsosurface {
        grid_size: source.grid_size,
        grid_origin: source.grid_origin,
        grid_density: source.grid_density,
    }
}

impl RenderIsosurface {
    /// Turn a source asset into its render-side snapshot.  This is a pure
    /// field copy and cannot fail.
    pub fn prepare_asset(source: &Isosurface) -> (r: Self)
        ensures
            r == spec_prepare_asset(*source),
    {
        RenderIsosurface {
            grid_size: source.grid_size,
            grid_origin: source.grid_origin,
            grid_density: source.grid_density,
        }
    }

    /// Where the source asset is retained after extraction.
    pub fn asset_usage(source: &Isosurface) -> (r: u8)
        ensures
            r == source.asset_usage,
    {
        source.asset_usage
    }
}

/// The render world's store of prepared snapshots, keyed by asset id.
pub struct IsosurfaceAssets {
    pub table: AssetTable<RenderIsosurface>,
}

impl IsosurfaceAssets {
    pub open spec fn wf(&self) -> bool {
        self.table.wf()
    }

    pub fn new() -> (r: Self)
        ensures
            r.wf(),
            r.table@ == Map::<u64, RenderIsosurface>::empty(),
    {
        IsosurfaceAssets { table: AssetTable::new() }
    }
}

/// A change notification from the main-world asset store, delivered once
/// per frame as a drainable queue.
#[derive(Clone, Copy, Debug, PartialEq, Eq, Structural)]
pub enum AssetEvent {
    Added { id: u64 },
    Modified { id: u64 },
    Removed { id: u64 },
}

/// One store mutation that extraction hands to the render side, in event
/// order.
#[derive(Clone, Copy, Debug, PartialEq, Eq, Structural)]
pub enum AssetUpdate {
    /// A fresh snapshot of the asset was taken on add or modify.
    Upsert { id: u64, asset: Isosurface },
    /// The asset left the main-world store.
    Remove { id: u64 },
}

/// The updates captured from one frame's asset events.
pub struct ExtractedIsosurfaceAssets {
    pub updates: Vec<AssetUpdate>,
}

/// The update that one event contributes: added and modified assets are
/// snapshotted if the store still holds them (a stale id is skipped, not an
/// error), removals are passed through.
pub open spec fn event_update(e: AssetEvent, assets: Map<u64, Isosurface>) -> Option<AssetUpdate> {
    match e {
        AssetEvent::Added { id } | AssetEvent::Modified { id } => if assets.dom().contains(id) {
            Some(AssetUpdate::Upsert { id, asset: assets[id] })
        } else {
            None
        },
        AssetEvent::Removed { id } => Some(AssetUpdate::Remove { id }),
    }
}

/// The updates that a whole event queue contributes, in order.
pub open spec fn extracted_updates(
    events: Seq<AssetEvent>,
    assets: Map<u64, Isosurface>,
) -> Seq<AssetUpdate>
    decreases events.len(),
{
    if events.len() == 0 {
        Seq::empty()
    } else {
        extracted_updates(events.drop_last(), assets) + match event_update(
            events.last(),
            assets,
        ) {
            Some(u) => seq![u],
            None => Seq::empty(),
        }
    }
}

/// Capture this frame's asset change events into snapshots for the render
/// side.  An added or modified id whose asset is already gone from the
/// store is skipped; the remaining events are still processed.
pub fn extract_isosurface_asset(
    events: &Vec<AssetEvent>,
    assets: &AssetTable<Isosurface>,
) -> (r: ExtractedIsosurfaceAssets)
    requires
        assets.wf(),
    ensures
        r.updates@ == extracted_updates(events@, assets@),
{
    let mut updates: Vec<AssetUpdate> = Vec::new();
    let n = events.len();
    let mut i: usize = 0;
    while i < n
        invariant
            assets.wf(),
            n == events@.len(),
            i <= n,
            updates@ == extracted_updates(events@.take(i as int), assets@),
        decreases n - i,
    {
        let ghost prefix = events@.take(i as int);
        match events[i] {
            AssetEvent::Added { id } | AssetEvent::Modified { id } => {
                match assets.get(id) {
                    Some(asset) => {
                        updates.push(AssetUpdate::Upsert { id, asset: *asset });
                    },
                    None => {},
                }
            },
            AssetEvent::Removed { id } => {
                updates.push(AssetUpdate::Remove { id });
            },
        }
        proof {
            let next = events@.take(i + 1 as int);
            assert(next.drop_last() =~= prefix);
            assert(next.last() == events@[i as int]);
            assert(updates@ =~= extracted_updates(next, assets@));
        }
        i = i + 1;
    }
    proof {
        assert(events@.take(n as int) =~= events@);
    }
    ExtractedIsosurfaceAssets { updates }
}

/// A queue of updates never holds more entries than the event queue it
/// came from: each event contributes at most one update.
pub proof fn lemma_extracted_updates_len(events: Seq<AssetEvent>, assets: Map<u64, Isosurface>)
    ensures
        extracted_updates(events, assets).len() <= events.len(),
    decreases events.len(),
{
    if events.len() > 0 {
        lemma_extracted_updates_len(events.drop_last(), assets);
    }
}

/// `u` snapshots asset `id`.
pub open spec fn is_upsert_of(u: AssetUpdate, id: u64) -> bool {
    match u {
        AssetUpdate::Upsert { id: uid, .. } => uid == id,
        AssetUpdate::Remove { .. } => false,
    }
}

/// Some update in the queue snapshots asset `id`.
pub open spec fn upsert_in(updates: Seq<AssetUpdate>, id: u64) -> bool {
    exists|j: int| 0 <= j < updates.len() && is_upsert_of(#[trigger] updates[j], id)
}

/// The asset ids snapshotted this frame: every added or modified asset
/// that was still in the store.  These are the ids whose compute task
/// must be (re)queued.
pub fn upserted_ids(extracted: &ExtractedIsosurfaceAssets) -> (r: Vec<u64>)
    ensures
        forall|id: u64| #[trigger] r@.contains(id) <==> upsert_in(extracted.updates@, id),
        r@.len() <= extracted.updates@.len(),
{
    let mut r: Vec<u64> = Vec::new();
    let n = extracted.updates.len();
    let mut i: usize = 0;
    while i < n
        invariant
            n == extracted.updates@.len(),
            i <= n,
            r@.len() <= i,
            forall|id: u64| #[trigger] r@.contains(id) <==> upsert_in(
                extracted.updates@.take(i as int),
                id,
            ),
        decreases n - i,
    {
        let ghost prefix = extracted.updates@.take(i as int);
        match extracted.updates[i] {
            AssetUpdate::Upsert { id, .. } => {
                r.push(id);
            },
            AssetUpdate::Remove { .. } => {},
        }
        proof {
            broadcast use vstd::seq_lib::lemma_seq_contains_after_push;

            let next = extracted.updates@.take(i + 1 as int);
            assert forall|id: u64| upsert_in(next, id) implies #[trigger] r@.contains(id) by {
                let j = choose|j: int|
                    0 <= j < next.len() && is_upsert_of(#[trigger] next[j], id);
                if j < i {
                    assert(prefix[j] == next[j]);
                    assert(upsert_in(prefix, id));
                }
            }
            assert forall|id: u64| #[trigger] r@.contains(id) implies upsert_in(next, id) by {
                if upsert_in(prefix, id) {
                    let j = choose|j: int|
                        0 <= j < prefix.len() && is_upsert_of(#[trigger] prefix[j], id);
                    assert(next[j] == prefix[j]);
                } else {
                    assert(next[i as int] == extracted.updates@[i as int]);
                }
            }
        }
        i = i + 1;
    }
    proof {
        assert(extracted.updates@.take(n as int) =~= extracted.updates@);
    }
    r
}

/// The store contents after one update is applied.
pub open spec fn apply_update(
    m: Map<u64, RenderIsosurface>,
    u: AssetUpdate,
) -> Map<u64, RenderIsosurface> {
    match u {
        AssetUpdate::Upsert { id, asset } => m.insert(id, spec_prepare_asset(asset)),
        AssetUpdate::Remove { id } => m.remove(id),
    }
}

/// The store contents after a whole queue of updates is applied in order.
pub open spec fn apply_updates(
    m: Map<u64, RenderIsosurface>,
    us: Seq<AssetUpdate>,
) -> Map<u64, RenderIsosurface>
    decreases us.len(),
{
    if us.len() == 0 {
        m
    } else {
        apply_update(apply_updates(m, us.drop_last()), us.last())
    }
}

/// Apply this frame's extracted updates to the render-side store: prepare
/// and insert every snapshot, drop every removed asset.
pub fn prepare_isosurface_assets(
    extracted: &ExtractedIsosurfaceAssets,
    storage: &mut IsosurfaceAssets,
)
    requires
        old(storage).wf(),
    ensures
        final(storage).wf(),
        final(storage).table@ == apply_updates(old(storage).table@, extracted.updates@),
{
    let n = extracted.updates.len();
    let mut i: usize = 0;
    while i < n
        invariant
            storage.wf(),
            n == extracted.updates@.len(),
            i <= n,
            storage.table@ == apply_updates(old(storage).table@, extracted.updates@.take(i as int)),
        decreases n - i,
    {
        let ghost prefix = extracted.updates@.take(i as int);
        match extracted.updates[i] {
            AssetUpdate::Upsert { id, asset } => {
                let prepared = RenderIsosurface::prepare_asset(&asset);
                storage.table.insert(id, prepared);
            },
            AssetUpdate::Remove { id } => {
                storage.table.remove(id);
            },
        }
        proof {
            let next = extracted.updates@.take(i + 1 as int);
            assert(next.drop_last() =~= prefix);
            assert(next.last() == extracted.updates@[i as int]);
        }
        i = i + 1;
    }
    proof {
        assert(extracted.updates@.take(n as int) =~= extracted.updates@);
    }
}

} // verus!
