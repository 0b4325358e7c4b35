use vstd::prelude::*;

use crate::assets::Vec3Bits;

verus! {

/// The three compute kernels, in dispatch order: find vertices per cell,
/// connect them into triangles, then write the indirect draw arguments
/// from the final counters.
#[derive(Clone, Copy, Debug, PartialEq, Eq, Structural)]
pub enum ComputeKernel {
    FindVertices,
    ConnectVertices,
    PrepareIndirectBuffer,
}

/// Shader entry point of a kernel: the fixed binding contract with the
/// compiled compute shader.
pub fn kernel_entry_point(kernel: ComputeKernel) -> (r: &'static str)
    ensures
        kernel == ComputeKernel::FindVertices ==> r@ == "find_vertices"@,
        kernel == ComputeKernel::ConnectVertices ==> r@ == "connect_vertices"@,
        kernel == ComputeKernel::PrepareIndirectBuffer ==> r@ == "prepare_indirect_buffer"@,
{
    match kernel {
        ComputeKernel::FindVertices => "find_vertices",
        ComputeKernel::ConnectVertices => "connect_vertices",
        ComputeKernel::PrepareIndirectBuffer => "prepare_indirect_buffer",
    }
}

/// How a binding is exposed to the kernels.
#[derive(Clone, Copy, Debug, PartialEq, Eq, Structural)]
pub enum BindingType {
    Uniform,
    Storage,
}

/// One slot of a bind group layout: slot index, binding class, and the
/// minimum buffer size the layout demands, if any.
#[derive(Clone, Copy, Debug, PartialEq, Eq, Structural)]
pub struct BindingLayout {
    pub binding: u32,
    pub ty: BindingType,
    pub min_size: Option<u64>,
}

/// Size in bytes of the uniform record [`IsosurfaceUniforms`]: two
/// 16-byte-aligned vec3 fields, each padded to 16 bytes.
pub const UNIFORM_BUFFER_SIZE: u64 = 32;

/// Size in bytes of the indirect draw-argument record
/// [`DrawIndexedIndirect`]: five 4-byte fields.
pub const INDIRECT_BUFFER_SIZE: u64 = 20;

/// The layout of the "calculation" bind group (group 0): uniforms, vertex
/// storage, index storage, per-cell scratch, and the append counters, in
/// slots 0 through 4.
pub open spec fn spec_calculation_bind_group_layout() -> Seq<BindingLayout> {
    seq![
        BindingLayout { binding: 0, ty: BindingType::Uniform, min_size: Some(UNIFORM_BUFFER_SIZE) },
        BindingLayout { binding: 1, ty: BindingType::Storage, min_size: Some(1024) },
        BindingLayout { binding: 2, ty: BindingType::Storage, min_size: Some(1024) },
        BindingLayout { binding: 3, ty: BindingType::Storage, min_size: Some(1024) },
        BindingLayout { binding: 4, ty: BindingType::Storage, min_size: None },
    ]
}

/// The layout of the "indirect" bind group (group 1): the draw-argument
/// buffer alone, in slot 0.
pub open spec fn spec_indirect_bind_group_layout() -> Seq<BindingLayout> {
    seq![
        BindingLayout {
            binding: 0,
            ty: BindingType::Storage,
            min_size: Some(INDIRECT_BUFFER_SIZE),
        },
    ]
}

/// Build the calculation bind group layout.
pub fn calculation_bind_group_layout() -> (r: Vec<BindingLayout>)
    ensures
        r@ == spec_calculation_bind_group_layout(),
{
    let mut r: Vec<BindingLayout> = Vec::new();
    r.push(BindingLayout { binding: 0, ty: BindingType::Uniform, min_size: Some(UNIFORM_BUFFER_SIZE) });
    r.push(BindingLayout { binding: 1, ty: BindingType::Storage, min_size: Some(1024) });
    r.push(BindingLayout { binding: 2, ty: BindingType::Storage, min_size: Some(1024) });
    r.push(BindingLayout { binding: 3, ty: BindingType::Storage, min_size: Some(1024) });
    r.push(BindingLayout { binding: 4, ty: BindingType::Storage, min_size: None });
    proof {
        assert(r@ =~= spec_calculation_bind_group_layout());
    }
    r
}

/// Build the indirect bind group layout.
pub fn indirect_bind_group_layout() -> (r: Vec<BindingLayout>)
    ensures
        r@ == spec_indirect_bind_group_layout(),
{
    let mut r: Vec<BindingLayout> = Vec::new();
    r.push(BindingLayout { binding: 0, ty: BindingType::Storage, min_size: Some(INDIRECT_BUFFER_SIZE) });
    proof {
        assert(r@ =~= spec_indirect_bind_group_layout());
    }
    r
}

/// Which of the two bind group layouts a pipeline consumes.
#[derive(Clone, Copy, Debug, PartialEq, Eq, Structural)]
pub enum LayoutRef {
    Calculation,
    Indirect,
}

/// Everything the GPU abstraction needs to queue one compute pipeline:
/// which kernel entry point, over which bind group layouts.
#[derive(Clone, Debug, PartialEq)]
pub struct ComputePipelineDescriptorInfo {
    pub entry_point: ComputeKernel,
    pub layouts: Vec<LayoutRef>,
}

/// The three pipeline descriptors: the two grid kernels see the
/// calculation group alone; the argument-preparation kernel sees the
/// calculation group at index 0 and the indirect group at index 1.
pub fn compute_pipeline_descriptors() -> (r: Vec<ComputePipelineDescriptorInfo>)
    ensures
        r@.len() == 3,
        r@[0].entry_point == ComputeKernel::FindVertices,
        r@[0].layouts@ == seq![LayoutRef::Calculation],
        r@[1].entry_point == ComputeKernel::ConnectVertices,
        r@[1].layouts@ == seq![LayoutRef::Calculation],
        r@[2].entry_point == ComputeKernel::PrepareIndirectBuffer,
        r@[2].layouts@ == seq![LayoutRef::Calculation, LayoutRef::Indirect],
{
    let mut calculation_only: Vec<LayoutRef> = Vec::new();
    calculation_only.push(LayoutRef::Calculation);
    let mut calculation_only2: Vec<LayoutRef> = Vec::new();
    calculation_only2.push(LayoutRef::Calculation);
    let mut both: Vec<LayoutRef> = Vec::new();
    both.push(LayoutRef::Calculation);
    both.push(LayoutRef::Indirect);
    let mut r: Vec<ComputePipelineDescriptorInfo> = Vec::new();
    r.push(ComputePipelineDescriptorInfo {
        entry_point: ComputeKernel::FindVertices,
        layouts: calculation_only,
    });
    r.push(ComputePipelineDescriptorInfo {
        entry_point: ComputeKernel::ConnectVertices,
        layouts: calculation_only2,
    });
    r.push(ComputePipelineDescriptorInfo {
        entry_point: ComputeKernel::PrepareIndirectBuffer,
        layouts: both,
    });
    proof {
        assert(r@[0].layouts@ =~= seq![LayoutRef::Calculation]);
        assert(r@[1].layouts@ =~= seq![LayoutRef::Calculation]);
        assert(r@[2].layouts@ =~= seq![LayoutRef::Calculation, LayoutRef::Indirect]);
    }
    r
}

/// The cache ids of the three queued compute pipelines.  The ids are
/// handed out by the host pipeline cache when the descriptors are queued;
/// compilation itself is asynchronous and polled.
#[derive(Clone, Copy, Debug, PartialEq, Eq, Structural)]
pub struct IsosurfaceComputePipelines {
    pub find_vertices_pipeline: u64,
    pub connect_vertices_pipeline: u64,
    pub prepare_indirect_buffer_pipeline: u64,
}

/// Compilation state of one cached pipeline, as the host cache reports it
/// each frame.
#[derive(Clone, Copy, Debug, PartialEq, Eq, Structural)]
pub enum CachedPipelineState {
    Queued,
    Creating,
    Compiled,
    Failed,
}

/// Sticky flag: all three compute pipelines have been observed compiled.
#[derive(Clone, Copy, Debug, PartialEq, Eq, Structural)]
pub struct PipelinesReady(pub bool);

/// Poll the three pipelines' compilation state.  The flag goes up when
/// all three are compiled and never comes back down; while any pipeline
/// is still compiling this is a no-op, not an error.
pub fn check_pipeline_for_readiness(
    find_vertices: CachedPipelineState,
    connect_vertices: CachedPipelineState,
    prepare_indirect_buffer: CachedPipelineState,
    is_ready: &mut PipelinesReady,
)
    ensures
        final(is_ready).0 == (old(is_ready).0 || (find_vertices == CachedPipelineState::Compiled
            && connect_vertices == CachedPipelineState::Compiled && prepare_indirect_buffer
            == CachedPipelineState::Compiled)),
{
    match (find_vertices, connect_vertices, prepare_indirect_buffer) {
        (
            CachedPipelineState::Compiled,
            CachedPipelineState::Compiled,
            CachedPipelineState::Compiled,
        ) => {
            is_ready.0 = true;
        },
        _ => {},
    }
}

/// The uniform record the compute kernels read: grid extent and origin as
/// binary32 bit patterns, each vec3 padded to 16 bytes.  This layout is a
/// wire contract with the shader; the field order must not change.
#[derive(Clone, Copy, Debug, PartialEq, Eq, Structural)]
pub struct IsosurfaceUniforms {
    pub grid_size: Vec3Bits,
    pub padding0: u32,
    pub grid_origin: Vec3Bits,
    pub padding1: u32,
}

/// The eight 32-bit words of the uniform record, in memory order.
pub open spec fn uniform_words(u: IsosurfaceUniforms) -> Seq<u32> {
    seq![
        u.grid_size.x,
        u.grid_size.y,
        u.grid_size.z,
        u.padding0,
        u.grid_origin.x,
        u.grid_origin.y,
        u.grid_origin.z,
        u.padding1,
    ]
}

impl IsosurfaceUniforms {
    pub fn new(grid_size: Vec3Bits, grid_origin: Vec3Bits) -> (r: Self)
        ensures
            r.grid_size == grid_size,
            r.grid_origin == grid_origin,
            r.padding0 == 0,
            r.padding1 == 0,
    {
        IsosurfaceUniforms { grid_size, padding0: 0, grid_origin, padding1: 0 }
    }

    /// The record as the words uploaded to the uniform buffer.
    pub fn to_words(&self) -> (r: Vec<u32>)
        ensures
            r@ == uniform_words(*self),
    {
        let mut r: Vec<u32> = Vec::new();
        r.push(self.grid_size.x);
        r.push(self.grid_size.y);
        r.push(self.grid_size.z);
        r.push(self.padding0);
        r.push(self.grid_origin.x);
        r.push(self.grid_origin.y);
        r.push(self.grid_origin.z);
        r.push(self.padding1);
        proof {
            assert(r@ =~= uniform_words(*self));
        }
        r
    }
}

/// The indirect draw-argument record, written entirely by the GPU.  The
/// host only uses its size and its all-zero default: a task that never
/// dispatched draws zero primitives instead of garbage.
#[derive(Clone, Copy, Debug, PartialEq, Eq, Structural)]
pub struct DrawIndexedIndirect {
    pub index_count: u32,
    pub instance_count: u32,
    pub first_index: u32,
    pub vertex_offset: i32,
    pub first_instance: u32,
}

impl Default for DrawIndexedIndirect {
    /// The fail-safe zero record: a zero-area draw.
    fn default() -> (r: Self)
        ensures
            r == (DrawIndexedIndirect {
                index_count: 0,
                instance_count: 0,
                first_index: 0,
                vertex_offset: 0,
                first_instance: 0,
            }),
    {
        DrawIndexedIndirect {
            index_count: 0,
            instance_count: 0,
            first_index: 0,
            vertex_offset: 0,
            first_instance: 0,
        }
    }
}

/// Position of one instance batch in the shared instance buffer; read by
/// the argument-preparation kernel.
#[derive(Clone, Copy, Debug, PartialEq, Eq, Structural)]
pub struct Indices {
    pub first_instance: u32,
    pub instance_count: u32,
}

impl Indices {
    /// The record as the words uploaded before argument preparation.
    pub fn to_words(&self) -> (r: Vec<u32>)
        ensures
            r@ == seq![self.first_instance, self.instance_count],
    {
        let mut r: Vec<u32> = Vec::new();
        r.push(self.first_instance);
        r.push(self.instance_count);
        proof {
            assert(r@ =~= seq![self.first_instance, self.instance_count]);
        }
        r
    }
}

/// One pending argument-preparation step: which render entity's batch
/// range feeds which asset's indirect record.
#[derive(Clone, Copy, Debug, PartialEq, Eq, Structural)]
pub struct PrepareIndirect {
    pub entity: u64,
    pub asset_id: u64,
    pub indices: Indices,
}

/// The argument-preparation steps queued for this frame.
pub struct PrepareIndirects(pub Vec<PrepareIndirect>);

} // verus!
