use vstd::prelude::*;

use crate::assets::{IsosurfaceAssets, RenderIsosurface};
use crate::pipeline::{uniform_words, IsosurfaceUniforms, INDIRECT_BUFFER_SIZE, UNIFORM_BUFFER_SIZE};
use crate::table::AssetTable;
use crate::tasks::CalculateIsosurfaceTasks;

verus! {

/// Buffer usage bit: the buffer can be a copy destination.
pub const BUFFER_USAGE_COPY_DST: u32 = 1 << 3;

/// Buffer usage bit: the buffer can back an index binding.
pub const BUFFER_USAGE_INDEX: u32 = 1 << 4;

/// Buffer usage bit: the buffer can back a vertex binding.
pub const BUFFER_USAGE_VERTEX: u32 = 1 << 5;

/// Buffer usage bit: the buffer can back a uniform binding.
pub const BUFFER_USAGE_UNIFORM: u32 = 1 << 6;

/// Buffer usage bit: the buffer can back a storage binding.
pub const BUFFER_USAGE_STORAGE: u32 = 1 << 7;

/// Buffer usage bit: the buffer can feed an indirect draw.
pub const BUFFER_USAGE_INDIRECT: u32 = 1 << 8;

/// Worst-case capacity, in bytes, of the vertex, index and scratch
/// buffers.  Capacity is pre-allocated per asset and never grown: GPU
/// memory use stays predictable at the cost of wasted space for small
/// grids.
pub const WORST_CASE_BUFFER_SIZE: u64 = 1024 * 256;

/// Size in bytes of the two append counters (vertex count, index count).
pub const ATOMICS_BUFFER_SIZE: u64 = 8;

/// Mints the identities of GPU buffers.  The library owns the handle
/// space; the host device holds one real buffer per handle ever returned
/// in a create command.
pub struct GpuBufferAllocator {
    pub next_handle: u64,
}

impl GpuBufferAllocator {
    pub fn new() -> (r: Self)
        ensures
            r.next_handle == 0,
    {
        GpuBufferAllocator { next_handle: 0 }
    }
}

/// The private buffer set of one asset's compute task.  Fields hold the
/// handles of the five buffers bound to the calculation bind group.
#[derive(Clone, Copy, Debug, PartialEq, Eq, Structural)]
pub struct IsosurfaceBuffers {
    pub vertex_buffer: u64,
    pub index_buffer: u64,
    pub cells_buffer: u64,
    pub uniform_buffer: u64,
    pub atomics_buffer: u64,
}

/// Per-asset buffer sets, keyed by asset id.
pub struct IsosurfaceBuffersCollection {
    pub table: AssetTable<IsosurfaceBuffers>,
}

impl IsosurfaceBuffersCollection {
    pub open spec fn wf(&self) -> bool {
        self.table.wf()
    }

    pub fn new() -> (r: Self)
        ensures
            r.wf(),
            r.table@ == Map::<u64, IsosurfaceBuffers>::empty(),
    {
        IsosurfaceBuffersCollection { table: AssetTable::new() }
    }
}

/// The indirect draw-argument buffer of one asset.
#[derive(Clone, Copy, Debug, PartialEq, Eq, Structural)]
pub struct IndirectBuffers {
    pub indirect_buffer: u64,
}

/// Per-asset indirect buffers, keyed by asset id.
pub struct IndirectBuffersCollection {
    pub table: AssetTable<IndirectBuffers>,
}

impl IndirectBuffersCollection {
    pub open spec fn wf(&self) -> bool {
        self.table.wf()
    }

    pub fn new() -> (r: Self)
        ensures
            r.wf(),
            r.table@ == Map::<u64, IndirectBuffers>::empty(),
    {
        IndirectBuffersCollection { table: AssetTable::new() }
    }
}

/// An order to the host device: create one zero-initialized buffer of
/// this size and usage under this handle.
#[derive(Clone, Copy, Debug, PartialEq, Eq, Structural)]
pub struct BufferCreate {
    pub handle: u64,
    pub size: u64,
    pub usage: u32,
}

/// An order to the host queue: write these 32-bit words at the start of
/// the buffer behind this handle.
#[derive(Clone, Debug, PartialEq)]
pub struct BufferWrite {
    pub handle: u64,
    pub words: Vec<u32>,
}

/// Byte size of the `slot`-th buffer of a task's block of six, in mint
/// order: vertex, index, cells, uniform, atomics, indirect.
pub open spec fn slot_size(slot: int) -> u64 {
    if slot == 0 {
        WORST_CASE_BUFFER_SIZE
    } else if slot == 1 {
        WORST_CASE_BUFFER_SIZE
    } else if slot == 2 {
        WORST_CASE_BUFFER_SIZE
    } else if slot == 3 {
        UNIFORM_BUFFER_SIZE
    } else if slot == 4 {
        ATOMICS_BUFFER_SIZE
    } else {
        INDIRECT_BUFFER_SIZE
    }
}

/// Usage bits of the `slot`-th buffer of a task's block of six.  The
/// uniform and atomics buffers are re-written through the queue on every
/// re-preparation, so they carry the copy-destination bit.
pub open spec fn slot_usage(slot: int) -> u32 {
    if slot == 0 {
        BUFFER_USAGE_VERTEX | BUFFER_USAGE_STORAGE
    } else if slot == 1 {
        BUFFER_USAGE_INDEX | BUFFER_USAGE_STORAGE
    } else if slot == 2 {
        BUFFER_USAGE_STORAGE
    } else if slot == 3 {
        BUFFER_USAGE_UNIFORM | BUFFER_USAGE_COPY_DST
    } else if slot == 4 {
        BUFFER_USAGE_STORAGE | BUFFER_USAGE_COPY_DST
    } else {
        BUFFER_USAGE_STORAGE | BUFFER_USAGE_INDIRECT
    }
}

/// The uniform words that a task over snapshot `a` must upload.
pub open spec fn task_uniform_words(a: RenderIsosurface) -> Seq<u32> {
    uniform_words(
        IsosurfaceUniforms {
            grid_size: a.grid_size,
            padding0: 0,
            grid_origin: a.grid_origin,
            padding1: 0,
        },
    )
}

/// The uniform words of a snapshot, as uploaded: the executable
/// counterpart of [`task_uniform_words`].
pub fn task_uniform_words_of(a: &RenderIsosurface) -> (r: Vec<u32>)
    ensures
        r@ == task_uniform_words(*a),
{
    IsosurfaceUniforms::new(a.grid_size, a.grid_origin).to_words()
}

/// Some write in `writes` uploads exactly `words` to the buffer behind
/// `handle`.
pub open spec fn has_upload(writes: Seq<BufferWrite>, handle: u64, words: Seq<u32>) -> bool {
    exists|w: int|
        0 <= w < writes.len() && (#[trigger] writes[w]).handle == handle && writes[w].words@
            == words
}

/// What one buffer-preparation pass ordered: buffer creations for tasks
/// that lacked storage, uploads for every pending task, and the ids whose
/// asset could not be found.
pub struct PreparedBuffers {
    pub creates: Vec<BufferCreate>,
    pub writes: Vec<BufferWrite>,
    pub missing_assets: Vec<u64>,
}

/// Ensure every pending task has backing GPU storage, and refresh its
/// uploads.
///
/// For a task that already owns its buffer set nothing is created: the
/// handles keep their identity, so bind groups built over them stay
/// valid.  For a task lacking storage, six buffers are minted in one
/// block.  For every pending task whose asset is present, the uniform
/// buffer is re-uploaded from the latest snapshot (so a change that lands
/// while the task is in flight still reaches the GPU) and the append
/// counters are reset to zero (they must be zero before every dispatch,
/// not only on first allocation).  A task whose asset has vanished is
/// reported and skipped; the pass still handles all other tasks.
pub fn prepare_buffers(
    allocator: &mut GpuBufferAllocator,
    assets: &IsosurfaceAssets,
    tasks: &CalculateIsosurfaceTasks,
    calculate_buffers_collection: &mut IsosurfaceBuffersCollection,
    indirect_buffers_collection: &mut IndirectBuffersCollection,
) -> (out: PreparedBuffers)
    requires
        assets.wf(),
        tasks.wf(),
        old(calculate_buffers_collection).wf(),
        old(indirect_buffers_collection).wf(),
        // the two collections are populated and released together
        old(calculate_buffers_collection).table@.dom() == old(
            indirect_buffers_collection
        ).table@.dom(),
        old(allocator).next_handle + 6 * tasks.table.key_seq().len() <= u64::MAX,
    ensures
        final(calculate_buffers_collection).wf(),
        final(indirect_buffers_collection).wf(),
        final(calculate_buffers_collection).table@.dom() == final(
            indirect_buffers_collection
        ).table@.dom(),
        // existing buffer sets keep their identity: no churn, ever
        forall|id: u64| #[trigger] old(calculate_buffers_collection).table@.dom().contains(id)
            ==> final(calculate_buffers_collection).table@[id] == old(
                calculate_buffers_collection
            ).table@[id],
        forall|id: u64| #[trigger] old(indirect_buffers_collection).table@.dom().contains(id)
            ==> final(indirect_buffers_collection).table@[id] == old(
                indirect_buffers_collection
            ).table@[id],
        // afterwards, storage exists exactly for prior owners and for
        // pending tasks whose asset is present
        forall|id: u64| #[trigger] final(calculate_buffers_collection).table@.dom().contains(id)
            <==> old(calculate_buffers_collection).table@.dom().contains(id) || (
            tasks.table@.dom().contains(id) && assets.table@.dom().contains(id)),
        // a pending task is reported missing exactly when its asset is gone
        forall|id: u64| #[trigger] out.missing_assets@.contains(id)
            <==> tasks.table@.dom().contains(id) && !assets.table@.dom().contains(id),
        // creations carry consecutive fresh handles with the block shapes
        final(allocator).next_handle == old(allocator).next_handle + out.creates@.len(),
        forall|w: int|
            0 <= w < out.creates@.len() ==> #[trigger] out.creates@[w] == (BufferCreate {
                handle: (old(allocator).next_handle + w) as u64,
                size: slot_size(w % 6),
                usage: slot_usage(w % 6),
            }),
        // a task that already had storage causes no creation at all
        (forall|id: u64|
            tasks.table@.dom().contains(id) && assets.table@.dom().contains(id) ==> #[trigger] old(
                calculate_buffers_collection
            ).table@.dom().contains(id)) ==> out.creates@.len() == 0,
        // a freshly created block is six consecutive handles
        forall|id: u64|
            #[trigger] final(calculate_buffers_collection).table@.dom().contains(id) && !old(
                calculate_buffers_collection
            ).table@.dom().contains(id) ==> {
                let b = final(calculate_buffers_collection).table@[id];
                &&& b.index_buffer == b.vertex_buffer + 1
                &&& b.cells_buffer == b.vertex_buffer + 2
                &&& b.uniform_buffer == b.vertex_buffer + 3
                &&& b.atomics_buffer == b.vertex_buffer + 4
                &&& final(indirect_buffers_collection).table@[id].indirect_buffer
                    == b.vertex_buffer + 5
                &&& old(allocator).next_handle <= b.vertex_buffer
                &&& b.vertex_buffer + 5 < final(allocator).next_handle
            },
        // every pending task with an asset gets the latest snapshot's
        // uniform words and a zeroed counter buffer uploaded
        forall|id: u64|
            tasks.table@.dom().contains(id) && #[trigger] assets.table@.dom().contains(id)
                ==> has_upload(
                out.writes@,
                final(calculate_buffers_collection).table@[id].uniform_buffer,
                task_uniform_words(assets.table@[id]),
            ),
        forall|id: u64|
            tasks.table@.dom().contains(id) && #[trigger] assets.table@.dom().contains(id)
                ==> has_upload(
                out.writes@,
                final(calculate_buffers_collection).table@[id].atomics_buffer,
                seq![0u32, 0u32],
            ),
{
    let mut creates: Vec<BufferCreate> = Vec::new();
    let mut writes: Vec<BufferWrite> = Vec::new();
    let mut missing_assets: Vec<u64> = Vec::new();
    let n = tasks.table.len();
    let ghost base = old(allocator).next_handle;
    let mut ti: usize = 0;
    while ti < n
        invariant
            assets.wf(),
            tasks.wf(),
            calculate_buffers_collection.wf(),
            indirect_buffers_collection.wf(),
            n == tasks.table.key_seq().len(),
            ti <= n,
            base == old(allocator).next_handle,
            calculate_buffers_collection.table@.dom() == indirect_buffers_collection.table@.dom(),
            allocator.next_handle == base + creates@.len(),
            creates@.len() == 6 * ((allocator.next_handle - base) / 6),
            allocator.next_handle + 6 * (n - ti) <= u64::MAX,
            forall|id: u64| #[trigger] old(calculate_buffers_collection).table@.dom().contains(id)
                ==> calculate_buffers_collection.table@.dom().contains(id)
                    && calculate_buffers_collection.table@[id] == old(
                    calculate_buffers_collection
                ).table@[id],
            forall|id: u64| #[trigger] old(indirect_buffers_collection).table@.dom().contains(id)
                ==> indirect_buffers_collection.table@.dom().contains(id)
                    && indirect_buffers_collection.table@[id] == old(
                    indirect_buffers_collection
                ).table@[id],
            forall|id: u64| #[trigger] calculate_buffers_collection.table@.dom().contains(id)
                <==> old(calculate_buffers_collection).table@.dom().contains(id) || (
                tasks.table.key_in_prefix(id, ti as int) && assets.table@.dom().contains(id)),
            forall|id: u64| #[trigger] missing_assets@.contains(id)
                <==> tasks.table.key_in_prefix(id, ti as int) && !assets.table@.dom().contains(
                    id,
                ),
            forall|w: int|
                0 <= w < creates@.len() ==> #[trigger] creates@[w] == (BufferCreate {
                    handle: (base + w) as u64,
                    size: slot_size(w % 6),
                    usage: slot_usage(w % 6),
                }),
            (forall|id: u64|
                tasks.table.key_in_prefix(id, ti as int) && assets.table@.dom().contains(id)
                    ==> #[trigger] old(calculate_buffers_collection).table@.dom().contains(id))
                ==> creates@.len() == 0,
            forall|id: u64|
                #[trigger] calculate_buffers_collection.table@.dom().contains(id) && !old(
                    calculate_buffers_collection
                ).table@.dom().contains(id) ==> {
                    let b = calculate_buffers_collection.table@[id];
                    &&& b.index_buffer == b.vertex_buffer + 1
                    &&& b.cells_buffer == b.vertex_buffer + 2
                    &&& b.uniform_buffer == b.vertex_buffer + 3
                    &&& b.atomics_buffer == b.vertex_buffer + 4
                    &&& indirect_buffers_collection.table@[id].indirect_buffer == b.vertex_buffer
                        + 5
                    &&& base <= b.vertex_buffer
                    &&& b.vertex_buffer + 5 < allocator.next_handle
                },
            forall|id: u64|
                tasks.table.key_in_prefix(id, ti as int) && #[trigger] assets.table@.dom()
                    .contains(id) ==> has_upload(
                    writes@,
                    calculate_buffers_collection.table@[id].uniform_buffer,
                    task_uniform_words(assets.table@[id]),
                ),
            forall|id: u64|
                tasks.table.key_in_prefix(id, ti as int) && #[trigger] assets.table@.dom()
                    .contains(id) ==> has_upload(
                    writes@,
                    calculate_buffers_collection.table@[id].atomics_buffer,
                    seq![0u32, 0u32],
                ),
        decreases n - ti,
    {
        let asset_id = tasks.table.key_at(ti);
        proof {
            tasks.table.lemma_prefix_step(ti as int);
        }
        match assets.table.get(asset_id) {
            None => {
                missing_assets.push(asset_id);
                proof {
                    broadcast use vstd::seq_lib::lemma_seq_contains_after_push;

                }
            },
            Some(asset) => {
                if !calculate_buffers_collection.table.contains(asset_id) {
                    let b = allocator.next_handle;
                    creates.push(BufferCreate {
                        handle: b,
                        size: WORST_CASE_BUFFER_SIZE,
                        usage: BUFFER_USAGE_VERTEX | BUFFER_USAGE_STORAGE,
                    });
                    creates.push(BufferCreate {
                        handle: b + 1,
                        size: WORST_CASE_BUFFER_SIZE,
                        usage: BUFFER_USAGE_INDEX | BUFFER_USAGE_STORAGE,
                    });
                    creates.push(BufferCreate {
                        handle: b + 2,
                        size: WORST_CASE_BUFFER_SIZE,
                        usage: BUFFER_USAGE_STORAGE,
                    });
                    creates.push(BufferCreate {
                        handle: b + 3,
                        size: UNIFORM_BUFFER_SIZE,
                        usage: BUFFER_USAGE_UNIFORM | BUFFER_USAGE_COPY_DST,
                    });
                    creates.push(BufferCreate {
                        handle: b + 4,
                        size: ATOMICS_BUFFER_SIZE,
                        usage: BUFFER_USAGE_STORAGE | BUFFER_USAGE_COPY_DST,
                    });
                    creates.push(BufferCreate {
                        handle: b + 5,
                        size: INDIRECT_BUFFER_SIZE,
                        usage: BUFFER_USAGE_STORAGE | BUFFER_USAGE_INDIRECT,
                    });
                    allocator.next_handle = b + 6;
                    calculate_buffers_collection.table.insert(
                        asset_id,
                        IsosurfaceBuffers {
                            vertex_buffer: b,
                            index_buffer: b + 1,
                            cells_buffer: b + 2,
                            uniform_buffer: b + 3,
                            atomics_buffer: b + 4,
                        },
                    );
                    indirect_buffers_collection.table.insert(
                        asset_id,
                        IndirectBuffers { indirect_buffer: b + 5 },
                    );
                    proof {
                        assert(calculate_buffers_collection.table@.dom()
                            =~= indirect_buffers_collection.table@.dom());
                    }
                }
                let buffers = *calculate_buffers_collection.table.get(asset_id).unwrap();
                let uniforms = IsosurfaceUniforms::new(asset.grid_size, asset.grid_origin);
                let ghost writes_before = writes@;
                writes.push(BufferWrite {
                    handle: buffers.uniform_buffer,
                    words: uniforms.to_words(),
                });
                let mut zero_words: Vec<u32> = Vec::new();
                zero_words.push(0);
                zero_words.push(0);
                proof {
                    assert(zero_words@ =~= seq![0u32, 0u32]);
                }
                writes.push(BufferWrite { handle: buffers.atomics_buffer, words: zero_words });
                proof {
                    let wu = writes@.len() - 2;
                    let wa = writes@.len() - 1;
                    assert(writes@[wu].handle == buffers.uniform_buffer);
                    assert(writes@[wu].words@ == task_uniform_words(assets.table@[asset_id]));
                    assert(has_upload(
                        writes@,
                        buffers.uniform_buffer,
                        task_uniform_words(assets.table@[asset_id]),
                    ));
                    assert(writes@[wa].handle == buffers.atomics_buffer);
                    assert(writes@[wa].words@ == seq![0u32, 0u32]);
                    assert(has_upload(writes@, buffers.atomics_buffer, seq![0u32, 0u32]));
                    assert forall|h: u64, ws: Seq<u32>| #[trigger] has_upload(
                        writes_before,
                        h,
                        ws,
                    ) implies has_upload(writes@, h, ws) by {
                        let w = choose|w: int|
                            0 <= w < writes_before.len() && (#[trigger] writes_before[w]).handle
                                == h && writes_before[w].words@ == ws;
                        assert(writes@[w] == writes_before[w]);
                    }
                }
            },
        }
        ti = ti + 1;
    }
    proof {
        tasks.table.lemma_prefix_complete();
        assert forall|id: u64|
            tasks.table@.dom().contains(id) && #[trigger] assets.table@.dom().contains(id)
                implies has_upload(
                writes@,
                calculate_buffers_collection.table@[id].uniform_buffer,
                task_uniform_words(assets.table@[id]),
            ) && has_upload(
                writes@,
                calculate_buffers_collection.table@[id].atomics_buffer,
                seq![0u32, 0u32],
            ) by {
            assert(tasks.table.key_in_prefix(id, n as int));
        }
    }
    PreparedBuffers { creates, writes, missing_assets }
}

/// Idempotent re-preparation: after one preparation pass, a second pass
/// in the same frame reallocates nothing.  The first pass leaves every
/// pending task with storage, and the pass creates buffers only for a
/// task without storage -- so the second pass's creation list is empty
/// and every buffer handle keeps its identity.
pub proof fn lemma_prepare_buffers_idempotent(
    tasks_dom: Set<u64>,
    assets_dom: Set<u64>,
    dom_before: Set<u64>,
    dom_mid: Set<u64>,
)
    requires
        // how the first pass left the collection's domain
        forall|id: u64| #[trigger] dom_mid.contains(id) <==> dom_before.contains(id) || (
        tasks_dom.contains(id) && assets_dom.contains(id)),
    ensures
        // the second pass's no-creation condition holds
        forall|id: u64|
            tasks_dom.contains(id) && assets_dom.contains(id) ==> #[trigger] dom_mid.contains(id),
{
}

/// Relies on bytemuck::cast_slice: reinterpreting a `u32` slice as bytes
/// yields four bytes per word, the words' in-memory representation.
/// Only the length is stated: the byte order within a word is the
/// machine's.
#[verifier::external_body]
fn cast_words_to_bytes(words: &Vec<u32>) -> (r: Vec<u8>)
    ensures
        r@.len() == 4 * words@.len(),
{
    bytemuck::cast_slice::<u32, u8>(words.as_slice()).to_vec()
}

impl BufferWrite {
    /// The write's payload as raw bytes for the host queue: four bytes
    /// per word, in the device's native layout.
    pub fn bytes(&self) -> (r: Vec<u8>)
        ensures
            r@.len() == 4 * self.words@.len(),
    {
        cast_words_to_bytes(&self.words)
    }
}

} // verus!
