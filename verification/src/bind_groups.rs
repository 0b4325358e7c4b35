use vstd::prelude::*;

use crate::buffers::{
    IndirectBuffers, IndirectBuffersCollection, IsosurfaceBuffers, IsosurfaceBuffersCollection,
};
use crate::table::AssetTable;
use crate::tasks::CalculateIsosurfaceTasks;

verus! {

/// The "calculation" bind group of one task: which buffer stands in each
/// of the five slots of group 0.  A bind group is immutable once created;
/// it is identified by the buffers it binds, so it is rebuilt exactly
/// when one of them changes identity.
#[derive(Clone, Copy, Debug, PartialEq, Eq, Structural)]
pub struct CalculationBindGroup {
    pub uniform_buffer: u64,
    pub vertex_buffer: u64,
    pub index_buffer: u64,
    pub cells_buffer: u64,
    pub atomics_buffer: u64,
}

/// The "indirect" bind group of one task: the draw-argument buffer in
/// slot 0 of group 1.
#[derive(Clone, Copy, Debug, PartialEq, Eq, Structural)]
pub struct IndirectBindGroup {
    pub indirect_buffer: u64,
}

/// The calculation bind group that a buffer set demands.
pub open spec fn calc_group_of(b: IsosurfaceBuffers) -> CalculationBindGroup {
    CalculationBindGroup {
        uniform_buffer: b.uniform_buffer,
        vertex_buffer: b.vertex_buffer,
        index_buffer: b.index_buffer,
        cells_buffer: b.cells_buffer,
        atomics_buffer: b.atomics_buffer,
    }
}

/// The indirect bind group that an indirect buffer demands.
pub open spec fn indirect_group_of(b: IndirectBuffers) -> IndirectBindGroup {
    IndirectBindGroup { indirect_buffer: b.indirect_buffer }
}

/// Per-asset calculation bind groups, keyed by asset id.
pub struct CalculateIsosurfaceBindGroups {
    pub table: AssetTable<CalculationBindGroup>,
}

impl CalculateIsosurfaceBindGroups {
    pub open spec fn wf(&self) -> bool {
        self.table.wf()
    }

    pub fn new() -> (r: Self)
        ensures
            r.wf(),
            r.table@ == Map::<u64, CalculationBindGroup>::empty(),
    {
        CalculateIsosurfaceBindGroups { table: AssetTable::new() }
    }
}

/// Per-asset indirect bind groups, keyed by asset id.
pub struct BuildIndirectBufferBindGroups {
    pub table: AssetTable<IndirectBindGroup>,
}

impl BuildIndirectBufferBindGroups {
    pub open spec fn wf(&self) -> bool {
        self.table.wf()
    }

    pub fn new() -> (r: Self)
        ensures
            r.wf(),
            r.table@ == Map::<u64, IndirectBindGroup>::empty(),
    {
        BuildIndirectBufferBindGroups { table: AssetTable::new() }
    }
}

/// What one bind-group pass did: which tasks got a freshly built group
/// pair, and which were skipped because their buffers are not there yet.
pub struct PreparedBindGroups {
    pub rebuilt: Vec<u64>,
    pub missing_buffers: Vec<u64>,
}

/// Build the bind groups of every pending task whose buffers exist.
///
/// A task whose stored groups already bind the current buffer set keeps
/// them untouched: bind groups are immutable to the GPU abstraction, so
/// an unchanged pair means no creation at all.  A pair is (re)built
/// exactly when absent or when the underlying buffers changed identity.
/// A task without buffers is reported and skipped; the pass goes on.
pub fn prepare_bind_groups(
    tasks: &CalculateIsosurfaceTasks,
    calculate_buffers: &IsosurfaceBuffersCollection,
    indirect_buffers: &IndirectBuffersCollection,
    calculate_bind_groups: &mut CalculateIsosurfaceBindGroups,
    indirect_bind_groups: &mut BuildIndirectBufferBindGroups,
) -> (out: PreparedBindGroups)
    requires
        tasks.wf(),
        calculate_buffers.wf(),
        indirect_buffers.wf(),
        old(calculate_bind_groups).wf(),
        old(indirect_bind_groups).wf(),
        calculate_buffers.table@.dom() == indirect_buffers.table@.dom(),
        old(calculate_bind_groups).table@.dom() == old(indirect_bind_groups).table@.dom(),
    ensures
        final(calculate_bind_groups).wf(),
        final(indirect_bind_groups).wf(),
        final(calculate_bind_groups).table@.dom() == final(indirect_bind_groups).table@.dom(),
        // groups exist afterwards for prior owners and for pending tasks
        // with buffers
        forall|id: u64| #[trigger] final(calculate_bind_groups).table@.dom().contains(id)
            <==> old(calculate_bind_groups).table@.dom().contains(id) || (tasks.table@.dom()
                .contains(id) && calculate_buffers.table@.dom().contains(id)),
        // every pending task with buffers ends bound to exactly those
        // buffers
        forall|id: u64|
            tasks.table@.dom().contains(id) && #[trigger] calculate_buffers.table@.dom().contains(
                id,
            ) ==> final(calculate_bind_groups).table@[id] == calc_group_of(
                calculate_buffers.table@[id],
            ) && final(indirect_bind_groups).table@[id] == indirect_group_of(
                indirect_buffers.table@[id],
            ),
        // groups of tasks not touched this pass keep their value
        forall|id: u64|
            #[trigger] old(calculate_bind_groups).table@.dom().contains(id) && !(
            tasks.table@.dom().contains(id) && calculate_buffers.table@.dom().contains(id))
                ==> final(calculate_bind_groups).table@[id] == old(
                calculate_bind_groups,
            ).table@[id] && final(indirect_bind_groups).table@[id] == old(
                indirect_bind_groups,
            ).table@[id],
        // a pending task is reported exactly when its buffers are absent
        forall|id: u64| #[trigger] out.missing_buffers@.contains(id)
            <==> tasks.table@.dom().contains(id) && !calculate_buffers.table@.dom().contains(id),
        // a pair is rebuilt exactly when absent or stale; nothing is
        // rebuilt when every pair already binds the current buffers
        forall|id: u64| #[trigger] out.rebuilt@.contains(id)
            <==> tasks.table@.dom().contains(id) && calculate_buffers.table@.dom().contains(id)
                && !(old(calculate_bind_groups).table@.dom().contains(id) && old(
                calculate_bind_groups,
            ).table@[id] == calc_group_of(calculate_buffers.table@[id]) && old(
                indirect_bind_groups,
            ).table@[id] == indirect_group_of(indirect_buffers.table@[id])),
{
    let mut rebuilt: Vec<u64> = Vec::new();
    let mut missing_buffers: Vec<u64> = Vec::new();
    let n = tasks.table.len();
    let mut ti: usize = 0;
    while ti < n
        invariant
            tasks.wf(),
            calculate_buffers.wf(),
            indirect_buffers.wf(),
            calculate_bind_groups.wf(),
            indirect_bind_groups.wf(),
            calculate_buffers.table@.dom() == indirect_buffers.table@.dom(),
            calculate_bind_groups.table@.dom() == indirect_bind_groups.table@.dom(),
            n == tasks.table.key_seq().len(),
            ti <= n,
            forall|id: u64| #[trigger] calculate_bind_groups.table@.dom().contains(id)
                <==> old(calculate_bind_groups).table@.dom().contains(id) || (
                tasks.table.key_in_prefix(id, ti as int) && calculate_buffers.table@.dom()
                    .contains(id)),
            forall|id: u64|
                tasks.table.key_in_prefix(id, ti as int)
                    && #[trigger] calculate_buffers.table@.dom().contains(id)
                    ==> calculate_bind_groups.table@[id] == calc_group_of(
                    calculate_buffers.table@[id],
                ) && indirect_bind_groups.table@[id] == indirect_group_of(
                    indirect_buffers.table@[id],
                ),
            forall|id: u64|
                #[trigger] old(calculate_bind_groups).table@.dom().contains(id) && !(
                tasks.table.key_in_prefix(id, ti as int) && calculate_buffers.table@.dom()
                    .contains(id)) ==> calculate_bind_groups.table@[id] == old(
                    calculate_bind_groups,
                ).table@[id] && indirect_bind_groups.table@[id] == old(
                    indirect_bind_groups,
                ).table@[id],
            forall|id: u64| #[trigger] missing_buffers@.contains(id)
                <==> tasks.table.key_in_prefix(id, ti as int) && !calculate_buffers.table@.dom()
                    .contains(id),
            forall|id: u64| #[trigger] rebuilt@.contains(id)
                <==> tasks.table.key_in_prefix(id, ti as int) && calculate_buffers.table@.dom()
                    .contains(id) && !(old(calculate_bind_groups).table@.dom().contains(id)
                    && old(calculate_bind_groups).table@[id] == calc_group_of(
                    calculate_buffers.table@[id],
                ) && old(indirect_bind_groups).table@[id] == indirect_group_of(
                    indirect_buffers.table@[id],
                )),
        decreases n - ti,
    {
        let asset_id = tasks.table.key_at(ti);
        proof {
            tasks.table.lemma_prefix_step(ti as int);
            broadcast use vstd::seq_lib::lemma_seq_contains_after_push;

        }
        match calculate_buffers.table.get(asset_id) {
            None => {
                missing_buffers.push(asset_id);
            },
            Some(buffers) => {
                let indirect = indirect_buffers.table.get(asset_id).unwrap();
                let desired_calc = CalculationBindGroup {
                    uniform_buffer: buffers.uniform_buffer,
                    vertex_buffer: buffers.vertex_buffer,
                    index_buffer: buffers.index_buffer,
                    cells_buffer: buffers.cells_buffer,
                    atomics_buffer: buffers.atomics_buffer,
                };
                let desired_indirect = IndirectBindGroup {
                    indirect_buffer: indirect.indirect_buffer,
                };
                let up_to_date = match (
                    calculate_bind_groups.table.get(asset_id),
                    indirect_bind_groups.table.get(asset_id),
                ) {
                    (Some(calc), Some(ind)) => {
                        let same_calc = calc.uniform_buffer == desired_calc.uniform_buffer
                            && calc.vertex_buffer == desired_calc.vertex_buffer
                            && calc.index_buffer == desired_calc.index_buffer
                            && calc.cells_buffer == desired_calc.cells_buffer
                            && calc.atomics_buffer == desired_calc.atomics_buffer;
                        let same_ind = ind.indirect_buffer == desired_indirect.indirect_buffer;
                        same_calc && same_ind
                    },
                    _ => false,
                };
                // a stale or absent pair must come from before this pass:
                // this pass only ever installs the current pair
                proof {
                    if !up_to_date {
                        assert(!(old(calculate_bind_groups).table@.dom().contains(asset_id)
                            && old(calculate_bind_groups).table@[asset_id] == calc_group_of(
                            calculate_buffers.table@[asset_id],
                        ) && old(indirect_bind_groups).table@[asset_id] == indirect_group_of(
                            indirect_buffers.table@[asset_id],
                        )));
                    }
                }
                if !up_to_date {
                    calculate_bind_groups.table.insert(asset_id, desired_calc);
                    indirect_bind_groups.table.insert(asset_id, desired_indirect);
                    rebuilt.push(asset_id);
                    proof {
                        assert(calculate_bind_groups.table@.dom()
                            =~= indirect_bind_groups.table@.dom());
                    }
                }
            },
        }
        ti = ti + 1;
    }
    proof {
        tasks.table.lemma_prefix_complete();
    }
    PreparedBindGroups { rebuilt, missing_buffers }
}

} // verus!
