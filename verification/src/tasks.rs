use vstd::prelude::*;

use crate::instances::{instances_reference_asset, IsosurfaceInstances};
use crate::table::AssetTable;

verus! {

/// One scheduled unit of GPU work: (re)generate the mesh of one asset.
///
/// `ready` is the two-phase retirement marker: a system running strictly
/// before the compute node sets it once the compute pipelines are
/// compiled, and a system running strictly after the node retires the
/// task.  The node itself never writes the table.
#[derive(Clone, Copy, Debug, PartialEq, Eq, Structural)]
pub struct CalculateIsosurface {
    pub ready: bool,
}

/// The task table, keyed by asset id.  Keying by asset id (never by
/// instance) is what keeps the table at no more than one live task per
/// asset, however many instances share the asset and however often the
/// asset changes while a task is in flight.
pub struct CalculateIsosurfaceTasks {
    pub table: AssetTable<CalculateIsosurface>,
}

impl CalculateIsosurfaceTasks {
    pub open spec fn wf(&self) -> bool {
        self.table.wf()
    }

    pub fn new() -> (r: Self)
        ensures
            r.wf(),
            r.table@ == Map::<u64, CalculateIsosurface>::empty(),
    {
        CalculateIsosurfaceTasks { table: AssetTable::new() }
    }
}

/// Marker kept per newly extracted asset until some instance picks it up:
/// `true` once a task was queued for the asset.
#[derive(Clone, Copy, Debug, PartialEq, Eq, Structural)]
pub struct AssetHandled(pub bool);

/// The render world's set of assets extracted this session that no task
/// has covered yet, keyed by asset id.
pub struct NewIsosurfaceAssets {
    pub table: AssetTable<AssetHandled>,
}

impl NewIsosurfaceAssets {
    pub open spec fn wf(&self) -> bool {
        self.table.wf()
    }

    pub fn new() -> (r: Self)
        ensures
            r.wf(),
            r.table@ == Map::<u64, AssetHandled>::empty(),
    {
        NewIsosurfaceAssets { table: AssetTable::new() }
    }
}

/// Queue a task for every asset id in this frame's added set.  An id whose
/// task is still in flight keeps its single entry and its readiness; a
/// fresh id enters as not ready.
pub fn schedule_isosurface_tasks(tasks: &mut CalculateIsosurfaceTasks, added: &Vec<u64>)
    requires
        old(tasks).wf(),
    ensures
        final(tasks).wf(),
        forall|k: u64| #[trigger] final(tasks).table@.dom().contains(k)
            <==> old(tasks).table@.dom().contains(k) || added@.contains(k),
        forall|k: u64| #[trigger] old(tasks).table@.dom().contains(k)
            ==> final(tasks).table@[k] == old(tasks).table@[k],
        forall|k: u64|
            #[trigger] final(tasks).table@.dom().contains(k)
                && !old(tasks).table@.dom().contains(k) ==> final(tasks).table@[k]
                == (CalculateIsosurface { ready: false }),
        final(tasks).table.key_seq().len() <= old(tasks).table.key_seq().len() + added@.len(),
{
    let n = added.len();
    let mut i: usize = 0;
    while i < n
        invariant
            tasks.wf(),
            n == added@.len(),
            i <= n,
            tasks.table.key_seq().len() <= old(tasks).table.key_seq().len() + i,
            forall|k: u64| #[trigger] tasks.table@.dom().contains(k)
                <==> old(tasks).table@.dom().contains(k) || added@.take(i as int).contains(k),
            forall|k: u64| #[trigger] old(tasks).table@.dom().contains(k)
                ==> tasks.table@[k] == old(tasks).table@[k],
            forall|k: u64|
                #[trigger] tasks.table@.dom().contains(k)
                    && !old(tasks).table@.dom().contains(k) ==> tasks.table@[k]
                    == (CalculateIsosurface { ready: false }),
        decreases n - i,
    {
        let id = added[i];
        if !tasks.table.contains(id) {
            tasks.table.insert(id, CalculateIsosurface { ready: false });
        }
        proof {
            assert forall|k: u64| added@.take(i + 1 as int).contains(k) implies
                tasks.table@.dom().contains(k) by {
                let j = choose|j: int|
                    0 <= j < i + 1 && #[trigger] added@.take(i + 1 as int)[j] == k;
                if j < i {
                    assert(added@.take(i as int)[j] == k);
                    assert(added@.take(i as int).contains(k));
                }
            }
            assert forall|k: u64| #[trigger] tasks.table@.dom().contains(k)
                && !old(tasks).table@.dom().contains(k) implies
                added@.take(i + 1 as int).contains(k) by {
                if added@.take(i as int).contains(k) {
                    let j = choose|j: int| 0 <= j < i && #[trigger] added@.take(i as int)[j] == k;
                    assert(added@.take(i + 1 as int)[j] == k);
                } else {
                    assert(k == id);
                    assert(added@.take(i + 1 as int)[i as int] == k);
                }
            }
        }
        i = i + 1;
    }
    proof {
        assert(added@.take(n as int) =~= added@);
    }
}

/// Queue a task for every live instance whose asset is newly extracted,
/// and mark the asset handled so later frames do not queue it again.
pub fn queue_isosurface_calculations(
    calculate_tasks: &mut CalculateIsosurfaceTasks,
    new_assets: &mut NewIsosurfaceAssets,
    isosurface_instances: &IsosurfaceInstances,
)
    requires
        old(calculate_tasks).wf(),
        old(new_assets).wf(),
        isosurface_instances.wf(),
    ensures
        final(calculate_tasks).wf(),
        final(new_assets).wf(),
        // tasks gained exactly the asset ids of instances that were new
        forall|k: u64| #[trigger] final(calculate_tasks).table@.dom().contains(k)
            <==> old(calculate_tasks).table@.dom().contains(k) || (instances_reference_asset(
            *isosurface_instances,
            k,
        ) && old(new_assets).table@.dom().contains(k)),
        forall|k: u64| #[trigger] old(calculate_tasks).table@.dom().contains(k)
            ==> final(calculate_tasks).table@[k] == old(calculate_tasks).table@[k],
        forall|k: u64|
            #[trigger] final(calculate_tasks).table@.dom().contains(k)
                && !old(calculate_tasks).table@.dom().contains(k)
                ==> final(calculate_tasks).table@[k] == (CalculateIsosurface { ready: false }),
        // the new-asset set keeps its keys; picked-up assets become handled
        final(new_assets).table@.dom() == old(new_assets).table@.dom(),
        forall|k: u64| #[trigger] final(new_assets).table@.dom().contains(k)
            ==> final(new_assets).table@[k] == if instances_reference_asset(
                *isosurface_instances,
                k,
            ) {
                AssetHandled(true)
            } else {
                old(new_assets).table@[k]
            },
{
    let n = isosurface_instances.table.len();
    let mut i: usize = 0;
    while i < n
        invariant
            calculate_tasks.wf(),
            new_assets.wf(),
            isosurface_instances.wf(),
            n == isosurface_instances.table.key_seq().len(),
            i <= n,
            forall|k: u64| #[trigger] calculate_tasks.table@.dom().contains(k)
                <==> old(calculate_tasks).table@.dom().contains(k) || ((exists|j: int|
                    0 <= j < i && isosurface_instances.table@[
                        #[trigger] isosurface_instances.table.key_seq()[j]
                    ].asset_id == k) && old(new_assets).table@.dom().contains(k)),
            forall|k: u64| #[trigger] old(calculate_tasks).table@.dom().contains(k)
                ==> calculate_tasks.table@[k] == old(calculate_tasks).table@[k],
            forall|k: u64|
                #[trigger] calculate_tasks.table@.dom().contains(k)
                    && !old(calculate_tasks).table@.dom().contains(k)
                    ==> calculate_tasks.table@[k] == (CalculateIsosurface { ready: false }),
            new_assets.table@.dom() == old(new_assets).table@.dom(),
            forall|k: u64| #[trigger] new_assets.table@.dom().contains(k)
                ==> new_assets.table@[k] == if (exists|j: int|
                    0 <= j < i && isosurface_instances.table@[
                        #[trigger] isosurface_instances.table.key_seq()[j]
                    ].asset_id == k) {
                    AssetHandled(true)
                } else {
                    old(new_assets).table@[k]
                },
        decreases n - i,
    {
        let instance = isosurface_instances.table.val_at(i);
        let asset_id = instance.asset_id;
        proof {
            isosurface_instances.table.lemma_view_at(i as int);
            assert(isosurface_instances.table@[
                isosurface_instances.table.key_seq()[i as int]
            ].asset_id == asset_id);
        }
        if new_assets.table.contains(asset_id) {
            if !calculate_tasks.table.contains(asset_id) {
                calculate_tasks.table.insert(asset_id, CalculateIsosurface { ready: false });
            }
            new_assets.table.insert(asset_id, AssetHandled(true));
            proof {
                assert(new_assets.table@.dom() =~= old(new_assets).table@.dom());
            }
        }
        i = i + 1;
    }
    proof {
        let tbl = &isosurface_instances.table;
        tbl.lemma_dom();
        assert forall|j: int| 0 <= j < n implies tbl@.dom().contains(
            #[trigger] tbl.key_seq()[j],
        ) by {
            tbl.lemma_view_at(j);
        }
        assert forall|k: u64|
            instances_reference_asset(*isosurface_instances, k) == (exists|j: int|
                0 <= j < n && tbl@[#[trigger] tbl.key_seq()[j]].asset_id == k) by {
            if instances_reference_asset(*isosurface_instances, k) {
                let e = choose|e: u64|
                    #[trigger] tbl@.dom().contains(e) && tbl@[e].asset_id == k;
                assert(tbl.key_seq().contains(e));
                let j = choose|j: int|
                    0 <= j < tbl.key_seq().len() && #[trigger] tbl.key_seq()[j] == e;
                assert(tbl@[tbl.key_seq()[j]].asset_id == k);
            }
            if exists|j: int| 0 <= j < n && tbl@[#[trigger] tbl.key_seq()[j]].asset_id == k {
                let j = choose|j: int|
                    0 <= j < n && tbl@[#[trigger] tbl.key_seq()[j]].asset_id == k;
                assert(tbl@.dom().contains(tbl.key_seq()[j]));
            }
        }
    }
}

/// Mark every pending task ready once all compute pipelines are compiled.
/// Runs strictly before the compute node; readiness is never cleared, so
/// the node and the retirement system read the same observation.
pub fn mark_ready_tasks(tasks: &mut CalculateIsosurfaceTasks, pipelines_ready: bool)
    requires
        old(tasks).wf(),
    ensures
        final(tasks).wf(),
        final(tasks).table@.dom() == old(tasks).table@.dom(),
        final(tasks).table.key_seq() == old(tasks).table.key_seq(),
        forall|k: u64| #[trigger] final(tasks).table@.dom().contains(k)
            ==> final(tasks).table@[k].ready == (old(tasks).table@[k].ready || pipelines_ready),
{
    if !pipelines_ready {
        return ;
    }
    let n = tasks.table.len();
    let mut i: usize = 0;
    while i < n
        invariant
            tasks.wf(),
            n == tasks.table.key_seq().len(),
            i <= n,
            tasks.table.key_seq() == old(tasks).table.key_seq(),
            tasks.table@.dom() == old(tasks).table@.dom(),
            forall|j: int|
                0 <= j < i ==> tasks.table@[#[trigger] tasks.table.key_seq()[j]].ready,
            forall|j: int|
                i <= j < n ==> tasks.table@[#[trigger] tasks.table.key_seq()[j]] == old(
                    tasks,
                ).table@[tasks.table.key_seq()[j]],
        decreases n - i,
    {
        tasks.table.set_val_at(i, CalculateIsosurface { ready: true });
        proof {
            tasks.table.lemma_dom();
            old(tasks).table.lemma_dom();
            assert(tasks.table@.dom() =~= old(tasks).table@.dom());
            assert forall|j: int| 0 <= j < i + 1 implies tasks.table@[
                #[trigger] tasks.table.key_seq()[j]
            ].ready by {
                if j < i {
                    assert(tasks.table.key_seq()[j] != tasks.table.key_seq()[i as int]);
                }
            }
            assert forall|j: int| i + 1 <= j < n implies tasks.table@[
                #[trigger] tasks.table.key_seq()[j]
            ] == old(tasks).table@[tasks.table.key_seq()[j]] by {
                assert(tasks.table.key_seq()[j] != tasks.table.key_seq()[i as int]);
            }
        }
        i = i + 1;
    }
    proof {
        tasks.table.lemma_dom();
        assert forall|k: u64| #[trigger] tasks.table@.dom().contains(k) implies tasks.table@[
            k
        ].ready == (old(tasks).table@[k].ready || true) by {
            assert(tasks.table.key_seq().contains(k));
            let j = choose|j: int|
                0 <= j < tasks.table.key_seq().len() && #[trigger] tasks.table.key_seq()[j] == k;
            assert(tasks.table.key_seq()[j] == k);
        }
    }
}

/// Uniqueness: however many frames have run, a well-formed task table
/// holds at most one entry per asset id -- two distinct positions of the
/// walk always carry distinct ids.  Every operation of this module both
/// requires and preserves well-formedness, so this holds of every frame.
pub proof fn lemma_task_uniqueness(tasks: CalculateIsosurfaceTasks, i: int, j: int)
    requires
        tasks.wf(),
        0 <= i < j < tasks.table.key_seq().len(),
    ensures
        tasks.table.key_seq()[i] != tasks.table.key_seq()[j],
{
}

/// Retire the tasks the compute node finished dispatching this frame.
/// Runs strictly after the node, so retirement is always at least one
/// phase behind the readiness marking that let the node dispatch.
pub fn clear_finished_tasks(tasks: &mut CalculateIsosurfaceTasks, finished: &Vec<u64>)
    requires
        old(tasks).wf(),
    ensures
        final(tasks).wf(),
        forall|k: u64| #[trigger] final(tasks).table@.dom().contains(k)
            <==> old(tasks).table@.dom().contains(k) && !finished@.contains(k),
        forall|k: u64| #[trigger] final(tasks).table@.dom().contains(k)
            ==> final(tasks).table@[k] == old(tasks).table@[k],
{
    let n = finished.len();
    let mut i: usize = 0;
    while i < n
        invariant
            tasks.wf(),
            n == finished@.len(),
            i <= n,
            forall|k: u64| #[trigger] tasks.table@.dom().contains(k)
                <==> old(tasks).table@.dom().contains(k) && !finished@.take(i as int).contains(k),
            forall|k: u64| #[trigger] tasks.table@.dom().contains(k)
                ==> tasks.table@[k] == old(tasks).table@[k],
        decreases n - i,
    {
        tasks.table.remove(finished[i]);
        proof {
            let next = finished@.take(i + 1 as int);
            assert forall|k: u64| next.contains(k) implies !tasks.table@.dom().contains(k) by {
                let j = choose|j: int| 0 <= j < next.len() && #[trigger] next[j] == k;
                if j < i {
                    assert(finished@.take(i as int)[j] == k);
                    assert(finished@.take(i as int).contains(k));
                }
            }
            assert forall|k: u64| !next.contains(k) && old(tasks).table@.dom().contains(k)
                implies tasks.table@.dom().contains(k) by {
                assert(next[i as int] == finished@[i as int]);
                if finished@.take(i as int).contains(k) {
                    let j = choose|j: int|
                        0 <= j < i && #[trigger] finished@.take(i as int)[j] == k;
                    assert(next[j] == k);
                }
            }
        }
        i = i + 1;
    }
    proof {
        assert(finished@.take(n as int) =~= finished@);
    }
}

/// Retire every task whose asset has vanished from the render-side store,
/// and report those ids so the caller can release their buffer sets.
/// Without this, a task whose asset was removed mid-flight would sit in
/// the table forever, pinning its GPU buffers.
pub fn retire_orphaned_tasks(
    tasks: &mut CalculateIsosurfaceTasks,
    asset_ids: &AssetTable<crate::assets::RenderIsosurface>,
) -> (orphaned: Vec<u64>)
    requires
        old(tasks).wf(),
        asset_ids.wf(),
    ensures
        final(tasks).wf(),
        forall|k: u64| #[trigger] final(tasks).table@.dom().contains(k)
            <==> old(tasks).table@.dom().contains(k) && asset_ids@.dom().contains(k),
        forall|k: u64| #[trigger] final(tasks).table@.dom().contains(k)
            ==> final(tasks).table@[k] == old(tasks).table@[k],
        forall|k: u64| #[trigger] orphaned@.contains(k)
            <==> old(tasks).table@.dom().contains(k) && !asset_ids@.dom().contains(k),
{
    let mut orphaned: Vec<u64> = Vec::new();
    let n = tasks.table.len();
    let mut i: usize = 0;
    while i < n
        invariant
            tasks.wf(),
            asset_ids.wf(),
            n == old(tasks).table.key_seq().len(),
            i <= n,
            tasks.table@ == old(tasks).table@,
            tasks.table.key_seq() == old(tasks).table.key_seq(),
            forall|k: u64| #[trigger] orphaned@.contains(k)
                ==> tasks.table@.dom().contains(k) && !asset_ids@.dom().contains(k),
            forall|j: int|
                0 <= j < i && !asset_ids@.dom().contains(
                    #[trigger] tasks.table.key_seq()[j],
                ) ==> orphaned@.contains(tasks.table.key_seq()[j]),
        decreases n - i,
    {
        let id = tasks.table.key_at(i);
        if !asset_ids.contains(id) {
            let ghost prior = orphaned@;
            orphaned.push(id);
            proof {
                broadcast use vstd::seq_lib::lemma_seq_contains_after_push;

                assert(orphaned@ == prior.push(id));
            }
        }
        i = i + 1;
    }
    proof {
        tasks.table.lemma_dom();
        assert forall|k: u64| old(tasks).table@.dom().contains(k) && !asset_ids@.dom().contains(
            k,
        ) implies orphaned@.contains(k) by {
            assert(tasks.table.key_seq().contains(k));
            let j = choose|j: int|
                0 <= j < tasks.table.key_seq().len() && #[trigger] tasks.table.key_seq()[j] == k;
            assert(tasks.table.key_seq()[j] == k);
        }
    }
    clear_finished_tasks(tasks, &orphaned);
    orphaned
}

} // verus!
