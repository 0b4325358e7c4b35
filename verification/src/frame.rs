use vstd::prelude::*;

use crate::assets::{
    apply_updates, extract_isosurface_asset, extracted_updates, prepare_isosurface_assets,
    upsert_in, upserted_ids, AssetEvent, Isosurface, IsosurfaceAssets,
};
use crate::bind_groups::{
    calc_group_of, indirect_group_of, prepare_bind_groups, BuildIndirectBufferBindGroups,
    CalculateIsosurfaceBindGroups,
};
use crate::buffers::{
    has_upload, prepare_buffers, task_uniform_words, GpuBufferAllocator,
    IndirectBuffersCollection, IsosurfaceBuffersCollection, PreparedBuffers,
};
use crate::instances::{extract_isosurface_instances, ExtractedInstance, IsosurfaceInstances};
use crate::node::{IsosurfaceComputeNode, NodeRun, PassStep};
use crate::pipeline::{check_pipeline_for_readiness, CachedPipelineState, PipelinesReady};
use crate::table::AssetTable;
use crate::tasks::{
    clear_finished_tasks, mark_ready_tasks, retire_orphaned_tasks, schedule_isosurface_tasks,
    CalculateIsosurfaceTasks,
};

verus! {

/// All render-world-scoped state of the subsystem, passed by reference
/// through the frame pipeline instead of living in ambient globals.
pub struct RenderWorld {
    pub assets: IsosurfaceAssets,
    pub instances: IsosurfaceInstances,
    pub tasks: CalculateIsosurfaceTasks,
    pub buffers: IsosurfaceBuffersCollection,
    pub indirect_buffers: IndirectBuffersCollection,
    pub calculate_bind_groups: CalculateIsosurfaceBindGroups,
    pub indirect_bind_groups: BuildIndirectBufferBindGroups,
    pub pipelines_ready: PipelinesReady,
    pub allocator: GpuBufferAllocator,
}

impl RenderWorld {
    /// Every table well-formed, and the paired tables (buffers with
    /// indirect buffers, calculation with indirect bind groups) keyed by
    /// the same ids.
    pub open spec fn wf(&self) -> bool {
        &&& self.assets.wf()
        &&& self.instances.wf()
        &&& self.tasks.wf()
        &&& self.buffers.wf()
        &&& self.indirect_buffers.wf()
        &&& self.calculate_bind_groups.wf()
        &&& self.indirect_bind_groups.wf()
        &&& self.buffers.table@.dom() == self.indirect_buffers.table@.dom()
        &&& self.calculate_bind_groups.table@.dom() == self.indirect_bind_groups.table@.dom()
    }

    /// A fresh render world with empty tables.
    pub fn new() -> (r: Self)
        ensures
            r.wf(),
            r.assets.table@ == Map::<u64, crate::assets::RenderIsosurface>::empty(),
            r.tasks.table@ == Map::<u64, crate::tasks::CalculateIsosurface>::empty(),
            r.buffers.table@ == Map::<u64, crate::buffers::IsosurfaceBuffers>::empty(),
            r.pipelines_ready.0 == false,
            r.allocator.next_handle == 0,
    {
        let r = RenderWorld {
            assets: IsosurfaceAssets::new(),
            instances: IsosurfaceInstances::new(),
            tasks: CalculateIsosurfaceTasks::new(),
            buffers: IsosurfaceBuffersCollection::new(),
            indirect_buffers: IndirectBuffersCollection::new(),
            calculate_bind_groups: CalculateIsosurfaceBindGroups::new(),
            indirect_bind_groups: BuildIndirectBufferBindGroups::new(),
            pipelines_ready: PipelinesReady(false),
            allocator: GpuBufferAllocator::new(),
        };
        proof {
            assert(r.buffers.table@.dom() =~= r.indirect_buffers.table@.dom());
            assert(r.calculate_bind_groups.table@.dom() =~= r.indirect_bind_groups.table@.dom());
        }
        r
    }
}

/// Everything one frame hands to the render side, already reduced to
/// plain values by the host's extraction step.
pub struct FrameInput {
    /// The main-world asset store's change events for this frame.
    pub asset_events: Vec<AssetEvent>,
    /// The main-world asset store itself, for snapshotting.
    pub main_assets: AssetTable<Isosurface>,
    /// The scene-graph query rows for this frame.
    pub scene_instances: Vec<ExtractedInstance>,
    /// Polled compilation state of the three compute pipelines.
    pub find_vertices_state: CachedPipelineState,
    pub connect_vertices_state: CachedPipelineState,
    pub prepare_indirect_state: CachedPipelineState,
}

/// Everything one frame orders the host to do, in phase order.
pub struct FrameOutput {
    /// Buffer creations and uploads from the preparation phase.
    pub prepared: PreparedBuffers,
    /// Which bind group pairs were (re)built.
    pub rebuilt_bind_groups: Vec<u64>,
    /// The compute pass recorded by the node.
    pub node: NodeRun,
    /// Tasks retired after the node dispatched them.
    pub retired: Vec<u64>,
    /// Tasks retired because their asset vanished; their buffer sets and
    /// bind groups were released.
    pub released: Vec<u64>,
}

/// Drop the buffer sets and bind groups of the given asset ids.  Used
/// when a task's asset vanished before completion: without this, the
/// orphaned task would pin its GPU storage forever.
pub fn release_buffer_sets(
    ids: &Vec<u64>,
    calculate_buffers: &mut IsosurfaceBuffersCollection,
    indirect_buffers: &mut IndirectBuffersCollection,
    calculate_bind_groups: &mut CalculateIsosurfaceBindGroups,
    indirect_bind_groups: &mut BuildIndirectBufferBindGroups,
)
    requires
        old(calculate_buffers).wf(),
        old(indirect_buffers).wf(),
        old(calculate_bind_groups).wf(),
        old(indirect_bind_groups).wf(),
        old(calculate_buffers).table@.dom() == old(indirect_buffers).table@.dom(),
        old(calculate_bind_groups).table@.dom() == old(indirect_bind_groups).table@.dom(),
    ensures
        final(calculate_buffers).wf(),
        final(indirect_buffers).wf(),
        final(calculate_bind_groups).wf(),
        final(indirect_bind_groups).wf(),
        final(calculate_buffers).table@.dom() == final(indirect_buffers).table@.dom(),
        final(calculate_bind_groups).table@.dom() == final(indirect_bind_groups).table@.dom(),
        forall|k: u64| #[trigger] final(calculate_buffers).table@.dom().contains(k)
            <==> old(calculate_buffers).table@.dom().contains(k) && !ids@.contains(k),
        forall|k: u64| #[trigger] final(calculate_bind_groups).table@.dom().contains(k)
            <==> old(calculate_bind_groups).table@.dom().contains(k) && !ids@.contains(k),
        forall|k: u64| #[trigger] final(calculate_buffers).table@.dom().contains(k)
            ==> final(calculate_buffers).table@[k] == old(calculate_buffers).table@[k] && final(
                indirect_buffers
            ).table@[k] == old(indirect_buffers).table@[k],
        forall|k: u64| #[trigger] final(calculate_bind_groups).table@.dom().contains(k)
            ==> final(calculate_bind_groups).table@[k] == old(calculate_bind_groups).table@[k]
                && final(indirect_bind_groups).table@[k] == old(indirect_bind_groups).table@[k],
{
    let n = ids.len();
    let mut i: usize = 0;
    while i < n
        invariant
            calculate_buffers.wf(),
            indirect_buffers.wf(),
            calculate_bind_groups.wf(),
            indirect_bind_groups.wf(),
            calculate_buffers.table@.dom() == indirect_buffers.table@.dom(),
            calculate_bind_groups.table@.dom() == indirect_bind_groups.table@.dom(),
            n == ids@.len(),
            i <= n,
            forall|k: u64| #[trigger] calculate_buffers.table@.dom().contains(k)
                <==> old(calculate_buffers).table@.dom().contains(k) && !ids@.take(
                    i as int,
                ).contains(k),
            forall|k: u64| #[trigger] calculate_bind_groups.table@.dom().contains(k)
                <==> old(calculate_bind_groups).table@.dom().contains(k) && !ids@.take(
                    i as int,
                ).contains(k),
            forall|k: u64| #[trigger] calculate_buffers.table@.dom().contains(k)
                ==> calculate_buffers.table@[k] == old(calculate_buffers).table@[k]
                    && indirect_buffers.table@[k] == old(indirect_buffers).table@[k],
            forall|k: u64| #[trigger] calculate_bind_groups.table@.dom().contains(k)
                ==> calculate_bind_groups.table@[k] == old(calculate_bind_groups).table@[k]
                    && indirect_bind_groups.table@[k] == old(indirect_bind_groups).table@[k],
        decreases n - i,
    {
        let id = ids[i];
        calculate_buffers.table.remove(id);
        indirect_buffers.table.remove(id);
        calculate_bind_groups.table.remove(id);
        indirect_bind_groups.table.remove(id);
        proof {
            assert(calculate_buffers.table@.dom() =~= indirect_buffers.table@.dom());
            assert(calculate_bind_groups.table@.dom() =~= indirect_bind_groups.table@.dom());
            let next = ids@.take(i + 1 as int);
            assert(next[i as int] == ids@[i as int]);
            assert forall|k: u64| next.contains(k) implies !calculate_buffers.table@.dom()
                .contains(k) && !calculate_bind_groups.table@.dom().contains(k) by {
                let j = choose|j: int| 0 <= j < next.len() && #[trigger] next[j] == k;
                if j < i {
                    assert(ids@.take(i as int)[j] == k);
                    assert(ids@.take(i as int).contains(k));
                }
            }
            assert forall|k: u64| !next.contains(k) && old(calculate_buffers).table@.dom()
                .contains(k) implies calculate_buffers.table@.dom().contains(k) by {
                if ids@.take(i as int).contains(k) {
                    let j = choose|j: int|
                        0 <= j < i && #[trigger] ids@.take(i as int)[j] == k;
                    assert(next[j] == k);
                }
            }
            assert forall|k: u64| !next.contains(k) && old(calculate_bind_groups).table@.dom()
                .contains(k) implies calculate_bind_groups.table@.dom().contains(k) by {
                if ids@.take(i as int).contains(k) {
                    let j = choose|j: int|
                        0 <= j < i && #[trigger] ids@.take(i as int)[j] == k;
                    assert(next[j] == k);
                }
            }
        }
        i = i + 1;
    }
    proof {
        assert(ids@.take(n as int) =~= ids@);
    }
}

/// Readiness ordering: a task that leaves the table after the node ran
/// was observed ready by the node, and its readiness was set in an
/// earlier phase of the same frame than its retirement -- marking runs
/// strictly before the node, retirement strictly after it, so dispatch
/// always falls between the two.
pub proof fn lemma_readiness_ordering(
    tasks_at_node: CalculateIsosurfaceTasks,
    pipelines_compiled: bool,
    completed: Seq<u64>,
    tasks_after: CalculateIsosurfaceTasks,
)
    requires
        // the marking phase ran before the node: with the pipelines
        // compiled, every pending task carries the ready flag
        forall|k: u64| #[trigger] tasks_at_node.table@.dom().contains(k) ==> (pipelines_compiled
            ==> tasks_at_node.table@[k].ready),
        // the node covered pending tasks only, and only once compiled
        forall|k: u64| #[trigger] completed.contains(k) ==> pipelines_compiled
            && tasks_at_node.table@.dom().contains(k),
        // the retirement phase removed exactly the covered tasks
        forall|k: u64| #[trigger] tasks_after.table@.dom().contains(k)
            <==> tasks_at_node.table@.dom().contains(k) && !completed.contains(k),
    ensures
        forall|k: u64|
            tasks_at_node.table@.dom().contains(k) && !(#[trigger] tasks_after.table@.dom()
                .contains(k)) ==> completed.contains(k) && tasks_at_node.table@[k].ready,
{
}

/// Run one frame of the subsystem, in the host scheduler's phase order:
/// extract and prepare assets, rebuild the instance set, queue tasks,
/// prepare buffers, prepare bind groups, poll pipeline compilation, mark
/// ready tasks, record the compute pass (read-only), and finally retire
/// what the node covered and release what lost its asset.
///
/// The returned output carries every order for the host GPU abstraction;
/// the library never blocks on the device.
pub fn run_frame(world: &mut RenderWorld, input: &FrameInput) -> (out: FrameOutput)
    requires
        old(world).wf(),
        input.main_assets.wf(),
        forall|i: int, j: int|
            0 <= i < j < input.scene_instances@.len() ==> input.scene_instances@[i].entity
                != input.scene_instances@[j].entity,
        old(world).allocator.next_handle + 6 * (old(world).tasks.table.key_seq().len()
            + input.asset_events@.len()) <= u64::MAX,
    ensures
        final(world).wf(),
        // the asset store followed this frame's events
        final(world).assets.table@ == apply_updates(
            old(world).assets.table@,
            extracted_updates(input.asset_events@, input.main_assets@),
        ),
        // the pipeline-ready flag is sticky and tracks the poll
        final(world).pipelines_ready.0 == (old(world).pipelines_ready.0 || (
        input.find_vertices_state == CachedPipelineState::Compiled
            && input.connect_vertices_state == CachedPipelineState::Compiled
            && input.prepare_indirect_state == CachedPipelineState::Compiled)),
        // retirement: exactly the tasks the node covered leave that way,
        // only with the pipelines ready, and they are really gone
        out.retired@ == out.node.completed@,
        forall|id: u64| #[trigger] out.retired@.contains(id) ==> final(world).pipelines_ready.0
            && !final(world).tasks.table@.dom().contains(id),
        !final(world).pipelines_ready.0 ==> out.node.steps@ == Seq::<PassStep>::empty()
            && out.node.completed@ == Seq::<u64>::empty(),
        // the task table afterwards: pending before or queued this frame,
        // not covered by the node, and the asset still present
        forall|id: u64| #[trigger] final(world).tasks.table@.dom().contains(id)
            <==> (old(world).tasks.table@.dom().contains(id) || upsert_in(
            extracted_updates(input.asset_events@, input.main_assets@),
            id,
        )) && !out.node.completed@.contains(id) && final(world).assets.table@.dom().contains(id),
        // every still-pending task has storage, bind groups over exactly
        // that storage, and this frame's uploads from the latest snapshot
        forall|id: u64| #[trigger] final(world).tasks.table@.dom().contains(id) ==> {
            &&& final(world).buffers.table@.dom().contains(id)
            &&& final(world).calculate_bind_groups.table@.dom().contains(id)
            &&& final(world).calculate_bind_groups.table@[id] == calc_group_of(
                final(world).buffers.table@[id],
            )
            &&& final(world).indirect_bind_groups.table@[id] == indirect_group_of(
                final(world).indirect_buffers.table@[id],
            )
            &&& has_upload(
                out.prepared.writes@,
                final(world).buffers.table@[id].uniform_buffer,
                task_uniform_words(final(world).assets.table@[id]),
            )
            &&& has_upload(
                out.prepared.writes@,
                final(world).buffers.table@[id].atomics_buffer,
                seq![0u32, 0u32],
            )
        },
        // readiness: every still-pending task's flag reflects this
        // frame's marking (set before the node, sticky per task)
        forall|id: u64| #[trigger] final(world).tasks.table@.dom().contains(id)
            ==> final(world).tasks.table@[id].ready == ((old(world).tasks.table@.dom().contains(
            id,
        ) && old(world).tasks.table@[id].ready) || final(world).pipelines_ready.0),
        // a task the node skipped for a missing dependency stays pending
        // and is retried next frame, as long as its asset is there
        forall|id: u64|
            #[trigger] out.node.skipped@.contains(id) && final(world).assets.table@.dom().contains(
                id,
            ) ==> final(world).tasks.table@.dom().contains(id),
        // a pending task whose asset vanished is reported, skipped, and
        // the rest of the pass still ran
        forall|id: u64| #[trigger] out.prepared.missing_assets@.contains(id)
            <==> (old(world).tasks.table@.dom().contains(id) || upsert_in(
            extracted_updates(input.asset_events@, input.main_assets@),
            id,
        )) && !final(world).assets.table@.dom().contains(id),
        // buffer identity is stable across the frame for every surviving
        // set
        forall|id: u64|
            #[trigger] old(world).buffers.table@.dom().contains(id) && !out.released@.contains(
                id,
            ) ==> final(world).buffers.table@.dom().contains(id) && final(
                world
            ).buffers.table@[id] == old(world).buffers.table@[id],
        // released: orphaned tasks lose their task entry and storage
        forall|id: u64| #[trigger] out.released@.contains(id)
            ==> !final(world).tasks.table@.dom().contains(id) && !final(
                world
            ).buffers.table@.dom().contains(id),
        // no recorded dispatch carries a zero workgroup count
        forall|w: int|
            0 <= w < out.node.steps@.len() ==> match #[trigger] out.node.steps@[w] {
                PassStep::Dispatch { x, y, z } => x > 0 && y > 0 && z > 0,
                _ => true,
            },
{
    // extraction: capture this frame's asset changes and scene instances
    let extracted = extract_isosurface_asset(&input.asset_events, &input.main_assets);
    prepare_isosurface_assets(&extracted, &mut world.assets);
    extract_isosurface_instances(&mut world.instances, &input.scene_instances);

    // queue: one task per added or modified asset, keyed by asset id
    let added = upserted_ids(&extracted);
    proof {
        crate::assets::lemma_extracted_updates_len(input.asset_events@, input.main_assets@);
    }
    schedule_isosurface_tasks(&mut world.tasks, &added);
    let ghost tasks_sched = world.tasks;

    // prepare resources, then bind groups, for every pending task
    let prepared = prepare_buffers(
        &mut world.allocator,
        &world.assets,
        &world.tasks,
        &mut world.buffers,
        &mut world.indirect_buffers,
    );
    let ghost buffers_prep = world.buffers;
    let ghost indirect_prep = world.indirect_buffers;
    let bind_out = prepare_bind_groups(
        &world.tasks,
        &world.buffers,
        &world.indirect_buffers,
        &mut world.calculate_bind_groups,
        &mut world.indirect_bind_groups,
    );

    let ghost cbg_bind = world.calculate_bind_groups;
    let ghost ibg_bind = world.indirect_bind_groups;

    // poll compilation, then mark -- strictly before the node
    check_pipeline_for_readiness(
        input.find_vertices_state,
        input.connect_vertices_state,
        input.prepare_indirect_state,
        &mut world.pipelines_ready,
    );
    mark_ready_tasks(&mut world.tasks, world.pipelines_ready.0);

    // the node: read-only access, records the compute pass
    let node = IsosurfaceComputeNode;
    let node_run = node.run(
        world.pipelines_ready.0,
        &world.tasks,
        &world.assets,
        &world.calculate_bind_groups,
        &world.indirect_bind_groups,
    );

    // retirement -- strictly after the node: drop covered tasks, then
    // orphaned ones together with their storage
    let ghost tasks_at_node = world.tasks;
    clear_finished_tasks(&mut world.tasks, &node_run.completed);
    let released = retire_orphaned_tasks(&mut world.tasks, &world.assets.table);
    release_buffer_sets(
        &released,
        &mut world.buffers,
        &mut world.indirect_buffers,
        &mut world.calculate_bind_groups,
        &mut world.indirect_bind_groups,
    );

    proof {
        assert forall|id: u64| #[trigger] world.tasks.table@.dom().contains(id) implies {
            &&& world.buffers.table@.dom().contains(id)
            &&& world.calculate_bind_groups.table@.dom().contains(id)
            &&& world.calculate_bind_groups.table@[id] == calc_group_of(
                world.buffers.table@[id],
            )
            &&& world.indirect_bind_groups.table@[id] == indirect_group_of(
                world.indirect_buffers.table@[id],
            )
            &&& has_upload(
                prepared.writes@,
                world.buffers.table@[id].uniform_buffer,
                task_uniform_words(world.assets.table@[id]),
            )
            &&& has_upload(
                prepared.writes@,
                world.buffers.table@[id].atomics_buffer,
                seq![0u32, 0u32],
            )
        } by {
            assert(tasks_at_node.table@.dom().contains(id));
            assert(tasks_sched.table@.dom().contains(id));
            assert(world.assets.table@.dom().contains(id));
            assert(!released@.contains(id));
            assert(buffers_prep.table@.dom().contains(id));
            assert(cbg_bind.table@[id] == calc_group_of(buffers_prep.table@[id]));
            assert(world.buffers.table@.dom().contains(id));
            assert(world.calculate_bind_groups.table@.dom().contains(id));
            assert(world.buffers.table@[id] == buffers_prep.table@[id]);
            assert(world.indirect_buffers.table@[id] == indirect_prep.table@[id]);
            assert(world.calculate_bind_groups.table@[id] == cbg_bind.table@[id]);
            assert(world.indirect_bind_groups.table@[id] == ibg_bind.table@[id]);
        }
    }

    proof {
        assert forall|id: u64|
            #[trigger] old(world).buffers.table@.dom().contains(id) && !released@.contains(
                id,
            ) implies world.buffers.table@.dom().contains(id) && world.buffers.table@[id] == old(
            world,
        ).buffers.table@[id] by {
            assert(buffers_prep.table@.dom().contains(id));
            assert(buffers_prep.table@[id] == old(world).buffers.table@[id]);
            assert(world.buffers.table@.dom().contains(id));
        }
    }

    let mut retired: Vec<u64> = Vec::new();
    let mut ri: usize = 0;
    let rn = node_run.completed.len();
    while ri < rn
        invariant
            rn == node_run.completed@.len(),
            ri <= rn,
            retired@ == node_run.completed@.take(ri as int),
        decreases rn - ri,
    {
        retired.push(node_run.completed[ri]);
        proof {
            assert(retired@ =~= node_run.completed@.take(ri + 1 as int));
        }
        ri = ri + 1;
    }
    proof {
        assert(node_run.completed@.take(rn as int) =~= node_run.completed@);
    }

    FrameOutput {
        prepared,
        rebuilt_bind_groups: bind_out.rebuilt,
        node: node_run,
        retired,
        released,
    }
}

} // verus!
