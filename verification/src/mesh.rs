//! The device part of a mesh: a vertex buffer and an index buffer that are
//! filled through one staging buffer.

use crate::buffer::{after_create_buffer, created_buffer, AllocatedBuffer, BufferModel};
use crate::deletion::DeletionQueue;
use crate::device::{DeviceOp, Handle, OpModel};
use crate::memory::{defined, lemma_perform_push, perform_all, Memory};
use crate::pod::{append_words, words_bytes};
use crate::submit::{Cleanup, CleanupModel, ContextModel, SubmitContext};
use crate::usage::{
    AllocUsage, BUFFER_USAGE_INDEX_BUFFER, BUFFER_USAGE_SHADER_DEVICE_ADDRESS,
    BUFFER_USAGE_STORAGE_BUFFER, BUFFER_USAGE_TRANSFER_DST, BUFFER_USAGE_TRANSFER_SRC,
};
use vstd::prelude::*;

verus! {

/// The usage bits of a vertex buffer: shaders read it through its address.
pub const VERTEX_BUFFER_USAGE: u32 = BUFFER_USAGE_STORAGE_BUFFER | BUFFER_USAGE_TRANSFER_DST
    | BUFFER_USAGE_SHADER_DEVICE_ADDRESS;

/// The usage bits of an index buffer.
pub const INDEX_BUFFER_USAGE: u32 = BUFFER_USAGE_INDEX_BUFFER | BUFFER_USAGE_TRANSFER_DST;

/// The mathematical value of a [`GpuMesh`].
pub struct MeshModel {
    pub index_buffer: BufferModel,
    pub vertex_buffer: BufferModel,
    pub vertex_address: u64,
}

/// The buffers of the mesh that a context uploads next: the vertex buffer,
/// the index buffer and the staging buffer, in the order they are created.
pub open spec fn uploaded_buffers(ctx: ContextModel, vertices: Seq<u8>, indices: Seq<u32>) -> (
    BufferModel,
    BufferModel,
    BufferModel,
) {
    let vertex_size = vertices.len() as u64;
    let index_size = (4 * indices.len()) as u64;
    let vertex_buffer = created_buffer(
        ctx,
        VERTEX_BUFFER_USAGE,
        AllocUsage::GpuOnly,
        vertex_size,
        Some("Vertex Buffer"@),
    );
    let second = after_create_buffer(
        ctx,
        VERTEX_BUFFER_USAGE,
        AllocUsage::GpuOnly,
        vertex_size,
        Some("Vertex Buffer"@),
    );
    let index_buffer = created_buffer(
        second,
        INDEX_BUFFER_USAGE,
        AllocUsage::GpuOnly,
        index_size,
        Some("Index Buffer"@),
    );
    let third = after_create_buffer(
        second,
        INDEX_BUFFER_USAGE,
        AllocUsage::GpuOnly,
        index_size,
        Some("Index Buffer"@),
    );
    let staging = created_buffer(
        third,
        BUFFER_USAGE_TRANSFER_SRC,
        AllocUsage::Shared,
        (vertex_size + index_size) as u64,
        Some("Mesh Staging Buffer"@),
    );
    (vertex_buffer, index_buffer, staging)
}

/// The context after a mesh has been uploaded.
///
/// The upload creates the three buffers, puts the vertices and behind them
/// the indices into the staging buffer, and records one copy into the vertex
/// buffer and one into the index buffer. The staging buffer is not
/// destroyed: its destruction joins the cleanups.
pub open spec fn after_upload(ctx: ContextModel, vertices: Seq<u8>, indices: Seq<u32>) -> ContextModel {
    let vertex_size = vertices.len() as u64;
    let index_size = (4 * indices.len()) as u64;
    let (vertex_buffer, index_buffer, staging) = uploaded_buffers(ctx, vertices, indices);
    let created = after_create_buffer(
        after_create_buffer(
            after_create_buffer(
                ctx,
                VERTEX_BUFFER_USAGE,
                AllocUsage::GpuOnly,
                vertex_size,
                Some("Vertex Buffer"@),
            ),
            INDEX_BUFFER_USAGE,
            AllocUsage::GpuOnly,
            index_size,
            Some("Index Buffer"@),
        ),
        BUFFER_USAGE_TRANSFER_SRC,
        AllocUsage::Shared,
        (vertex_size + index_size) as u64,
        Some("Mesh Staging Buffer"@),
    );
    ContextModel {
        work: created.work.push(
            OpModel::Upload { buffer: staging.handle, data: vertices + words_bytes(indices) },
        ).push(
            OpModel::CopyBuffer {
                src: staging.handle,
                dst: vertex_buffer.handle,
                src_offset: 0,
                dst_offset: 0,
                size: vertex_size,
            },
        ).push(
            OpModel::CopyBuffer {
                src: staging.handle,
                dst: index_buffer.handle,
                src_offset: vertex_size,
                dst_offset: 0,
                size: index_size,
            },
        ),
        cleanup: created.cleanup.push(CleanupModel::Buffer(staging)),
        ..created
    }
}

/// The buffers of a mesh on the device.
#[derive(Debug)]
pub struct GpuMesh {
    index_buffer: AllocatedBuffer,
    vertex_buffer: AllocatedBuffer,
    vertex_address: u64,
}

impl View for GpuMesh {
    type V = MeshModel;

    closed spec fn view(&self) -> MeshModel {
        MeshModel {
            index_buffer: self.index_buffer@,
            vertex_buffer: self.vertex_buffer@,
            vertex_address: self.vertex_address,
        }
    }
}

impl GpuMesh {
    /// Uploads a mesh: `vertices` holds the vertices as they lie in device
    /// memory, `indices` the indices of its triangles. A mesh without
    /// vertices or without indices has nothing to upload.
    pub fn upload(vertices: &[u8], indices: &[u32], ctx: &mut SubmitContext) -> (mesh: Self)
        requires
            vertices@.len() > 0,
            indices@.len() > 0,
            vertices@.len() + 4 * indices@.len() <= u64::MAX,
            old(ctx)@.can_allocate(3),
        ensures
            mesh@.vertex_buffer == uploaded_buffers(old(ctx)@, vertices@, indices@).0,
            mesh@.index_buffer == uploaded_buffers(old(ctx)@, vertices@, indices@).1,
            mesh@.vertex_address == mesh@.vertex_buffer.handle,
            mesh@.vertex_address != 0,
            final(ctx)@ == after_upload(old(ctx)@, vertices@, indices@),
    {
        let vertex_buffer_size = vertices.len() as u64;
        let index_buffer_size = indices.len() as u64 * 4;
        let vertex_buffer = AllocatedBuffer::new(
            ctx,
            VERTEX_BUFFER_USAGE,
            AllocUsage::GpuOnly,
            vertex_buffer_size,
            Some("Vertex Buffer".to_owned()),
        );
        proof {
            crate::buffer::lemma_created_usage_device_address(VERTEX_BUFFER_USAGE);
            assert((0x20u32 | 0x2u32 | 0x20000u32) & 0x20000u32 == 0x20000u32) by (bit_vector);
        }
        let buffer_device_address = vertex_buffer.device_address();
        let index_buffer = AllocatedBuffer::new(
            ctx,
            INDEX_BUFFER_USAGE,
            AllocUsage::GpuOnly,
            index_buffer_size,
            Some("Index Buffer".to_owned()),
        );
        let staging = AllocatedBuffer::new(
            ctx,
            BUFFER_USAGE_TRANSFER_SRC,
            AllocUsage::Shared,
            vertex_buffer_size + index_buffer_size,
            Some("Mesh Staging Buffer".to_owned()),
        );
        let mut data = crate::buffer::copy_bytes(vertices);
        append_words(indices, &mut data);
        ctx.record(DeviceOp::Upload { buffer: staging.handle(), data });
        ctx.record(
            DeviceOp::CopyBuffer {
                src: staging.handle(),
                dst: vertex_buffer.handle(),
                src_offset: 0,
                dst_offset: 0,
                size: vertex_buffer_size,
            },
        );
        ctx.record(
            DeviceOp::CopyBuffer {
                src: staging.handle(),
                dst: index_buffer.handle(),
                src_offset: vertex_buffer_size,
                dst_offset: 0,
                size: index_buffer_size,
            },
        );
        ctx.add_cleanup(Cleanup::Buffer(staging));
        GpuMesh { index_buffer, vertex_buffer, vertex_address: buffer_device_address }
    }

    /// The address of the vertex buffer for shaders.
    pub fn vertex_buffer_address(&self) -> (address: u64)
        ensures
            address == self@.vertex_address,
    {
        self.vertex_address
    }

    /// The handle of the index buffer.
    pub fn index_buffer(&self) -> (buffer: Handle)
        ensures
            buffer == self@.index_buffer.handle,
    {
        self.index_buffer.handle()
    }

    /// Hands both buffers to `queue`, the vertex buffer first.
    pub fn destroy(self, queue: &mut DeletionQueue)
        ensures
            final(queue)@ == old(queue)@.push(CleanupModel::Buffer(self@.vertex_buffer)).push(
                CleanupModel::Buffer(self@.index_buffer),
            ),
    {
        let GpuMesh { index_buffer, vertex_buffer, vertex_address: _ } = self;
        queue.push(Cleanup::Buffer(vertex_buffer));
        queue.push(Cleanup::Buffer(index_buffer));
    }
}

/// An upload fills both buffers.
///
/// Take any memory. After the work of an upload, the vertex buffer holds
/// exactly the vertices, the index buffer holds exactly the indices, four
/// bytes each with the lowest first, and the staging buffer is still live:
/// its destruction is the last of the context's cleanups.
pub proof fn lemma_upload_fills_buffers(
    memory: Memory,
    ctx: ContextModel,
    vertices: Seq<u8>,
    indices: Seq<u32>,
)
    requires
        vertices.len() > 0,
        indices.len() > 0,
        vertices.len() + 4 * indices.len() <= u64::MAX,
        ctx.can_allocate(3),
    ensures
        ({
            let after = perform_all(memory, after_upload(ctx, vertices, indices).work);
            let (vertex_buffer, index_buffer, staging) = uploaded_buffers(ctx, vertices, indices);
            &&& after.dom().contains(vertex_buffer.handle)
            &&& after[vertex_buffer.handle] == defined(vertices)
            &&& after.dom().contains(index_buffer.handle)
            &&& after[index_buffer.handle] == defined(words_bytes(indices))
            &&& after.dom().contains(staging.handle)
            &&& after_upload(ctx, vertices, indices).cleanup == ctx.cleanup.push(
                CleanupModel::Buffer(staging),
            )
        }),
{
    let vertex_size = vertices.len() as u64;
    let index_size = (4 * indices.len()) as u64;
    let (vertex_buffer, index_buffer, staging) = uploaded_buffers(ctx, vertices, indices);
    let create_vertices = OpModel::CreateBuffer {
        buffer: vertex_buffer.handle,
        size: vertex_buffer.size,
        usage: vertex_buffer.usage,
        memory: vertex_buffer.memory,
        label: vertex_buffer.label,
    };
    let create_indices = OpModel::CreateBuffer {
        buffer: index_buffer.handle,
        size: index_buffer.size,
        usage: index_buffer.usage,
        memory: index_buffer.memory,
        label: index_buffer.label,
    };
    let create_staging = OpModel::CreateBuffer {
        buffer: staging.handle,
        size: staging.size,
        usage: staging.usage,
        memory: staging.memory,
        label: staging.label,
    };
    let data = vertices + words_bytes(indices);
    let upload = OpModel::Upload { buffer: staging.handle, data };
    let copy_vertices = OpModel::CopyBuffer {
        src: staging.handle,
        dst: vertex_buffer.handle,
        src_offset: 0,
        dst_offset: 0,
        size: vertex_size,
    };
    let copy_indices = OpModel::CopyBuffer {
        src: staging.handle,
        dst: index_buffer.handle,
        src_offset: vertex_size,
        dst_offset: 0,
        size: index_size,
    };
    crate::pod::lemma_words_bytes_len(indices);
    let w0 = ctx.work;
    let w1 = w0.push(create_vertices);
    let w2 = w1.push(create_indices);
    let w3 = w2.push(create_staging);
    let w4 = w3.push(upload);
    let w5 = w4.push(copy_vertices);
    lemma_perform_push(memory, w0, create_vertices);
    lemma_perform_push(memory, w1, create_indices);
    lemma_perform_push(memory, w2, create_staging);
    lemma_perform_push(memory, w3, upload);
    lemma_perform_push(memory, w4, copy_vertices);
    lemma_perform_push(memory, w5, copy_indices);
}

} // verus!
