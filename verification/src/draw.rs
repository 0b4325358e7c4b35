use vstd::prelude::*;

use crate::buffers::{IndirectBuffersCollection, IsosurfaceBuffersCollection};

verus! {

/// Element width of an index buffer binding.
#[derive(Clone, Copy, Debug, PartialEq, Eq, Structural)]
pub enum IndexFormat {
    Uint16,
    Uint32,
}

/// One GPU-driven draw, ready for the host render pass: bind the vertex
/// buffer at slot 0, bind the index buffer, and read the primitive
/// counts from the indirect record — the host never knows them.
#[derive(Clone, Copy, Debug, PartialEq, Eq, Structural)]
pub struct DrawCall {
    pub vertex_buffer: u64,
    pub index_buffer: u64,
    pub index_format: IndexFormat,
    pub indirect_buffer: u64,
    pub indirect_offset: u64,
}

/// The render command that draws one isosurface instance through the
/// compute-generated buffers.
pub struct DrawIsosurface;

impl DrawIsosurface {
    /// Resolve the draw for one instance's asset.  An asset without a
    /// buffer set yet — its first compute pass has not completed — is
    /// skipped, not an error: the instance simply draws nothing this
    /// frame.  The counts come from the GPU-written indirect record, so
    /// a frame drawn before the first dispatch reads the zero-initialized
    /// record and draws zero primitives.
    pub fn render(
        asset_id: u64,
        buffers: &IsosurfaceBuffersCollection,
        indirect_buffers: &IndirectBuffersCollection,
    ) -> (r: Option<DrawCall>)
        requires
            buffers.wf(),
            indirect_buffers.wf(),
        ensures
            match r {
                Some(call) => buffers.table@.dom().contains(asset_id)
                    && indirect_buffers.table@.dom().contains(asset_id) && call == (DrawCall {
                    vertex_buffer: buffers.table@[asset_id].vertex_buffer,
                    index_buffer: buffers.table@[asset_id].index_buffer,
                    index_format: IndexFormat::Uint32,
                    indirect_buffer: indirect_buffers.table@[asset_id].indirect_buffer,
                    indirect_offset: 0,
                }),
                None => !buffers.table@.dom().contains(asset_id)
                    || !indirect_buffers.table@.dom().contains(asset_id),
            },
    {
        match (buffers.table.get(asset_id), indirect_buffers.table.get(asset_id)) {
            (Some(data_buffers), Some(indirect)) => Some(
                DrawCall {
                    vertex_buffer: data_buffers.vertex_buffer,
                    index_buffer: data_buffers.index_buffer,
                    index_format: IndexFormat::Uint32,
                    indirect_buffer: indirect.indirect_buffer,
                    indirect_offset: 0,
                },
            ),
            _ => None,
        }
    }
}

/// The per-draw bind group the draw commands expect to have been built
/// during bind-group preparation; `model_only` carries its handle.
#[derive(Clone, Copy, Debug, PartialEq, Eq, Structural)]
pub struct DrawBindGroupLayout {
    pub model_only: Option<u64>,
}

impl DrawBindGroupLayout {
    /// Drop the cached bind group, forcing the next preparation to build
    /// a fresh one.
    pub fn reset(&mut self)
        ensures
            final(self).model_only is None,
    {
        self.model_only = None;
    }
}

/// An order to the render pass: bind this group at this index, with no
/// dynamic offsets.
#[derive(Clone, Copy, Debug, PartialEq, Eq, Structural)]
pub struct SetBindGroupCall {
    pub index: u32,
    pub bind_group: u64,
}

/// The render command that binds the isosurface model bind group.
pub struct SetIsosurfaceBindGroup;

impl SetIsosurfaceBindGroup {
    /// Resolve the binding.  A missing group is a hard failure of the
    /// draw: it should have been built during bind-group preparation.
    pub fn render(bind_groups: &DrawBindGroupLayout, index: u32) -> (r: Option<SetBindGroupCall>)
        ensures
            match r {
                Some(call) => bind_groups.model_only == Some(call.bind_group) && call.index
                    == index,
                None => bind_groups.model_only is None,
            },
    {
        match bind_groups.model_only {
            Some(bind_group) => Some(SetBindGroupCall { index, bind_group }),
            None => None,
        }
    }
}

} // verus!
