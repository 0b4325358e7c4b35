use vstd::prelude::*;

use crate::assets::{GridDensity, IsosurfaceAssets, RenderIsosurface};
use crate::bind_groups::{
    BuildIndirectBufferBindGroups, CalculateIsosurfaceBindGroups, CalculationBindGroup,
    IndirectBindGroup,
};
use crate::pipeline::ComputeKernel;
use crate::tasks::CalculateIsosurfaceTasks;

verus! {

/// One recorded command of the frame's single compute pass, in the order
/// the host must replay them.
#[derive(Clone, Copy, Debug, PartialEq, Eq, Structural)]
pub enum PassStep {
    /// Bind a task's calculation bind group at group index 0.
    SetCalculationBindGroup { asset_id: u64, group: CalculationBindGroup },
    /// Bind a task's indirect bind group at group index 1.
    SetIndirectBindGroup { asset_id: u64, group: IndirectBindGroup },
    /// Switch to one of the three compute pipelines.
    SetPipeline { kernel: ComputeKernel },
    /// Dispatch with these workgroup counts; every count is positive.
    Dispatch { x: u32, y: u32, z: u32 },
}

/// A task can be dispatched when its asset snapshot and both bind groups
/// are present.
pub open spec fn spec_task_dispatchable(
    id: u64,
    assets: Map<u64, RenderIsosurface>,
    calc_groups: Map<u64, CalculationBindGroup>,
    indirect_groups: Map<u64, IndirectBindGroup>,
) -> bool {
    assets.dom().contains(id) && calc_groups.dom().contains(id) && indirect_groups.dom().contains(
        id,
    )
}

/// The grid has cells on every axis.
pub open spec fn spec_density_positive(d: GridDensity) -> bool {
    d.x > 0 && d.y > 0 && d.z > 0
}

/// The pass commands of one dispatchable task: bind group 0, find
/// vertices over one workgroup per coarse block, connect them over the
/// same grid, then bind group 1 and write the draw arguments with a
/// single workgroup.  A grid that is empty on some axis records nothing:
/// the GPU API rejects a zero workgroup count, and the zero-initialized
/// argument buffer already encodes the empty mesh.
pub open spec fn task_pass_steps(
    id: u64,
    asset: RenderIsosurface,
    group: CalculationBindGroup,
    indirect_group: IndirectBindGroup,
) -> Seq<PassStep> {
    if spec_density_positive(asset.grid_density) {
        seq![
            PassStep::SetCalculationBindGroup { asset_id: id, group },
            PassStep::SetPipeline { kernel: ComputeKernel::FindVertices },
            PassStep::Dispatch {
                x: asset.grid_density.x,
                y: asset.grid_density.y,
                z: asset.grid_density.z,
            },
            PassStep::SetPipeline { kernel: ComputeKernel::ConnectVertices },
            PassStep::Dispatch {
                x: asset.grid_density.x,
                y: asset.grid_density.y,
                z: asset.grid_density.z,
            },
            PassStep::SetIndirectBindGroup { asset_id: id, group: indirect_group },
            PassStep::SetPipeline { kernel: ComputeKernel::PrepareIndirectBuffer },
            PassStep::Dispatch { x: 1, y: 1, z: 1 },
        ]
    } else {
        Seq::empty()
    }
}

/// The whole pass: the steps of every dispatchable task among `keys`, in
/// table walk order.  Tasks write disjoint buffer sets, so their relative
/// order carries no meaning; within one task the order is fixed.
pub open spec fn plan_steps(
    keys: Seq<u64>,
    assets: Map<u64, RenderIsosurface>,
    calc_groups: Map<u64, CalculationBindGroup>,
    indirect_groups: Map<u64, IndirectBindGroup>,
) -> Seq<PassStep>
    decreases keys.len(),
{
    if keys.len() == 0 {
        Seq::empty()
    } else {
        plan_steps(keys.drop_last(), assets, calc_groups, indirect_groups) + (
        if spec_task_dispatchable(keys.last(), assets, calc_groups, indirect_groups) {
            task_pass_steps(
                keys.last(),
                assets[keys.last()],
                calc_groups[keys.last()],
                indirect_groups[keys.last()],
            )
        } else {
            Seq::empty()
        })
    }
}

/// What one node run recorded: the pass commands, the tasks they cover,
/// and the tasks skipped for a missing dependency (retried next frame).
pub struct NodeRun {
    pub steps: Vec<PassStep>,
    pub completed: Vec<u64>,
    pub skipped: Vec<u64>,
}

/// The render-graph node that records the compute pass.
pub struct IsosurfaceComputeNode;

impl IsosurfaceComputeNode {
    /// Record this frame's compute pass.
    ///
    /// The node holds only read access to the shared tables: it mutates
    /// nothing, it returns the commands to replay and the ids it covered.
    /// While the pipelines are still compiling the node is a no-op for
    /// the frame — an expected state, not an error.  A task whose asset
    /// or bind groups are missing is skipped and stays pending; the
    /// remaining tasks are still recorded.
    pub fn run(
        &self,
        pipelines_compiled: bool,
        tasks: &CalculateIsosurfaceTasks,
        assets: &IsosurfaceAssets,
        calculate_bind_groups: &CalculateIsosurfaceBindGroups,
        build_indirect_buffer_bind_groups: &BuildIndirectBufferBindGroups,
    ) -> (out: NodeRun)
        requires
            tasks.wf(),
            assets.wf(),
            calculate_bind_groups.wf(),
            build_indirect_buffer_bind_groups.wf(),
        ensures
            !pipelines_compiled ==> out.steps@ == Seq::<PassStep>::empty() && out.completed@
                == Seq::<u64>::empty() && out.skipped@ == Seq::<u64>::empty(),
            pipelines_compiled ==> out.steps@ == plan_steps(
                tasks.table.key_seq(),
                assets.table@,
                calculate_bind_groups.table@,
                build_indirect_buffer_bind_groups.table@,
            ),
            pipelines_compiled ==> forall|id: u64| #[trigger] out.completed@.contains(id)
                <==> tasks.table@.dom().contains(id) && spec_task_dispatchable(
                id,
                assets.table@,
                calculate_bind_groups.table@,
                build_indirect_buffer_bind_groups.table@,
            ),
            pipelines_compiled ==> forall|id: u64| #[trigger] out.skipped@.contains(id)
                <==> tasks.table@.dom().contains(id) && !spec_task_dispatchable(
                id,
                assets.table@,
                calculate_bind_groups.table@,
                build_indirect_buffer_bind_groups.table@,
            ),
            // no recorded dispatch has a workgroup count of zero
            forall|w: int|
                0 <= w < out.steps@.len() ==> match #[trigger] out.steps@[w] {
                    PassStep::Dispatch { x, y, z } => x > 0 && y > 0 && z > 0,
                    _ => true,
                },
    {
        let mut steps: Vec<PassStep> = Vec::new();
        let mut completed: Vec<u64> = Vec::new();
        let mut skipped: Vec<u64> = Vec::new();
        if !pipelines_compiled {
            return NodeRun { steps, completed, skipped };
        }
        let ghost amap = assets.table@;
        let ghost cmap = calculate_bind_groups.table@;
        let ghost imap = build_indirect_buffer_bind_groups.table@;
        let n = tasks.table.len();
        let mut ti: usize = 0;
        while ti < n
            invariant
                tasks.wf(),
                assets.wf(),
                calculate_bind_groups.wf(),
                build_indirect_buffer_bind_groups.wf(),
                amap == assets.table@,
                cmap == calculate_bind_groups.table@,
                imap == build_indirect_buffer_bind_groups.table@,
                n == tasks.table.key_seq().len(),
                ti <= n,
                steps@ == plan_steps(tasks.table.key_seq().take(ti as int), amap, cmap, imap),
                forall|id: u64| #[trigger] completed@.contains(id)
                    <==> tasks.table.key_in_prefix(id, ti as int) && spec_task_dispatchable(
                    id,
                    amap,
                    cmap,
                    imap,
                ),
                forall|id: u64| #[trigger] skipped@.contains(id)
                    <==> tasks.table.key_in_prefix(id, ti as int) && !spec_task_dispatchable(
                    id,
                    amap,
                    cmap,
                    imap,
                ),
                forall|w: int|
                    0 <= w < steps@.len() ==> match #[trigger] steps@[w] {
                        PassStep::Dispatch { x, y, z } => x > 0 && y > 0 && z > 0,
                        _ => true,
                    },
            decreases n - ti,
        {
            let asset_id = tasks.table.key_at(ti);
            let ghost keys_prefix = tasks.table.key_seq().take(ti as int);
            let ghost steps_before = steps@;
            proof {
                tasks.table.lemma_prefix_step(ti as int);
                broadcast use vstd::seq_lib::lemma_seq_contains_after_push;

            }
            let dispatchable = match (
                assets.table.get(asset_id),
                calculate_bind_groups.table.get(asset_id),
                build_indirect_buffer_bind_groups.table.get(asset_id),
            ) {
                (Some(asset), Some(calc_group), Some(indirect_group)) => {
                    let density = asset.grid_density;
                    if density.x > 0 && density.y > 0 && density.z > 0 {
                        steps.push(PassStep::SetCalculationBindGroup {
                            asset_id,
                            group: *calc_group,
                        });
                        steps.push(PassStep::SetPipeline {
                            kernel: ComputeKernel::FindVertices,
                        });
                        steps.push(PassStep::Dispatch {
                            x: density.x,
                            y: density.y,
                            z: density.z,
                        });
                        steps.push(PassStep::SetPipeline {
                            kernel: ComputeKernel::ConnectVertices,
                        });
                        steps.push(PassStep::Dispatch {
                            x: density.x,
                            y: density.y,
                            z: density.z,
                        });
                        steps.push(PassStep::SetIndirectBindGroup {
                            asset_id,
                            group: *indirect_group,
                        });
                        steps.push(PassStep::SetPipeline {
                            kernel: ComputeKernel::PrepareIndirectBuffer,
                        });
                        steps.push(PassStep::Dispatch { x: 1, y: 1, z: 1 });
                    }
                    true
                },
                _ => false,
            };
            if dispatchable {
                completed.push(asset_id);
            } else {
                skipped.push(asset_id);
            }
            proof {
                let next = tasks.table.key_seq().take(ti + 1 as int);
                assert(next.drop_last() =~= keys_prefix);
                assert(next.last() == tasks.table.key_seq()[ti as int]);
                if spec_task_dispatchable(asset_id, amap, cmap, imap) {
                    assert(steps@ =~= steps_before + task_pass_steps(
                        asset_id,
                        amap[asset_id],
                        cmap[asset_id],
                        imap[asset_id],
                    ));
                } else {
                    assert(steps@ =~= steps_before + Seq::<PassStep>::empty());
                }
            }
            ti = ti + 1;
        }
        proof {
            assert(tasks.table.key_seq().take(n as int) =~= tasks.table.key_seq());
            tasks.table.lemma_prefix_complete();
        }
        NodeRun { steps, completed, skipped }
    }
}

} // verus!
