//! Buffers that own their device memory: creation, staged writes, and
//! resizing that keeps the old contents.

use crate::device::{clone_label, label_model, DeviceOp, Handle, OpModel};
use crate::memory::{defined, lemma_perform_push, overwritten, perform_all, Memory};
use crate::submit::{
    lemma_script_shape, steps_model, Cleanup, CleanupModel, ContextModel, StepModel,
    SubmitContext, Submission,
};
use crate::usage::{
    AllocUsage, BUFFER_USAGE_SHADER_DEVICE_ADDRESS, BUFFER_USAGE_TRANSFER_DST,
    BUFFER_USAGE_TRANSFER_SRC,
};
use vstd::prelude::*;
use vstd::string::*;

verus! {

/// The mathematical value of an [`AllocatedBuffer`].
pub struct BufferModel {
    pub handle: Handle,
    /// Size in bytes.
    pub size: u64,
    /// Buffer usage bits the buffer was created with.
    pub usage: u32,
    pub memory: AllocUsage,
    pub label: Option<Seq<char>>,
}

impl BufferModel {
    /// Whether the buffer was created with the device-address capability.
    pub open spec fn has_device_address(self) -> bool {
        self.usage & BUFFER_USAGE_SHADER_DEVICE_ADDRESS == BUFFER_USAGE_SHADER_DEVICE_ADDRESS
    }
}

/// The usage bits a buffer is created with: what the caller asked for, and
/// both transfer directions, so that every buffer can be written and resized.
pub open spec fn created_usage(usage: u32) -> u32 {
    usage | BUFFER_USAGE_TRANSFER_SRC | BUFFER_USAGE_TRANSFER_DST
}

/// The buffer that a context creates next.
pub open spec fn created_buffer(
    ctx: ContextModel,
    usage: u32,
    memory: AllocUsage,
    size: u64,
    label: Option<Seq<char>>,
) -> BufferModel {
    BufferModel {
        handle: (ctx.last_handle + 1) as u64,
        size,
        usage: created_usage(usage),
        memory,
        label,
    }
}

/// The context after it has created a buffer: one handle is used up and one
/// creation is recorded.
pub open spec fn after_create_buffer(
    ctx: ContextModel,
    usage: u32,
    memory: AllocUsage,
    size: u64,
    label: Option<Seq<char>>,
) -> ContextModel {
    let buffer = created_buffer(ctx, usage, memory, size, label);
    ContextModel {
        last_handle: buffer.handle,
        work: ctx.work.push(
            OpModel::CreateBuffer {
                buffer: buffer.handle,
                size: buffer.size,
                usage: buffer.usage,
                memory: buffer.memory,
                label: buffer.label,
            },
        ),
        ..ctx
    }
}

/// The label of the staging buffer of a write into a buffer labelled `label`.
pub open spec fn staging_label(label: Option<Seq<char>>) -> Seq<char> {
    "Staging Buffer for AllocatedBuffer "@ + match label {
        Some(text) => text,
        None => Seq::empty(),
    }
}

/// The staging buffer of a write of `len` bytes: host-visible, exactly as
/// large as the data, and created by the context that records the write.
pub open spec fn staging_buffer(ctx: ContextModel, target: BufferModel, len: u64) -> BufferModel {
    created_buffer(
        ctx,
        BUFFER_USAGE_TRANSFER_SRC,
        AllocUsage::Shared,
        len,
        Some(staging_label(target.label)),
    )
}

/// The context after a write of `data` to byte `offset` of `target`.
///
/// The write creates a staging buffer, uploads the data into it, and records
/// a copy from it into the target. The staging buffer is not destroyed: its
/// destruction joins the cleanups.
pub open spec fn after_write(
    ctx: ContextModel,
    target: BufferModel,
    data: Seq<u8>,
    offset: u64,
) -> ContextModel {
    let len = data.len() as u64;
    let staging = staging_buffer(ctx, target, len);
    let created = after_create_buffer(
        ctx,
        BUFFER_USAGE_TRANSFER_SRC,
        AllocUsage::Shared,
        len,
        Some(staging_label(target.label)),
    );
    ContextModel {
        work: created.work.push(OpModel::Upload { buffer: staging.handle, data }).push(
            OpModel::CopyBuffer {
                src: staging.handle,
                dst: target.handle,
                src_offset: 0,
                dst_offset: offset,
                size: len,
            },
        ),
        cleanup: created.cleanup.push(CleanupModel::Buffer(staging)),
        ..created
    }
}

/// The smaller of two sizes.
pub open spec fn min_size(a: u64, b: u64) -> u64 {
    if a < b {
        a
    } else {
        b
    }
}

/// The buffer that takes the place of `buffer` when it is resized.
pub open spec fn resized_buffer(ctx: ContextModel, buffer: BufferModel, new_size: u64) -> BufferModel {
    created_buffer(ctx, buffer.usage, buffer.memory, new_size, buffer.label)
}

/// The context after `buffer` has been resized to `new_size` bytes.
///
/// The resize creates the replacement and records a copy of as many bytes as
/// both buffers hold, from the start of the old one to the start of the new
/// one. The old buffer is not destroyed: its destruction joins the cleanups.
pub open spec fn after_resize(ctx: ContextModel, buffer: BufferModel, new_size: u64) -> ContextModel {
    let replacement = resized_buffer(ctx, buffer, new_size);
    let created = after_create_buffer(ctx, buffer.usage, buffer.memory, new_size, buffer.label);
    ContextModel {
        work: created.work.push(
            OpModel::CopyBuffer {
                src: buffer.handle,
                dst: replacement.handle,
                src_offset: 0,
                dst_offset: 0,
                size: min_size(buffer.size, new_size),
            },
        ),
        cleanup: created.cleanup.push(CleanupModel::Buffer(buffer)),
        ..created
    }
}

/// A device buffer together with the memory bound to it.
///
/// A buffer is never empty and its handle is never zero. It is destroyed by
/// moving it into a [`Cleanup`], which can happen only once.
#[derive(Debug)]
pub struct AllocatedBuffer {
    buffer: Handle,
    size: u64,
    label: Option<String>,
    flags: u32,
    alloc_flags: AllocUsage,
}

impl View for AllocatedBuffer {
    type V = BufferModel;

    closed spec fn view(&self) -> BufferModel {
        BufferModel {
            handle: self.buffer,
            size: self.size,
            usage: self.flags,
            memory: self.alloc_flags,
            label: label_model(self.label),
        }
    }
}

/// A copy of the bytes of a slice.
pub fn copy_bytes(data: &[u8]) -> (copy: Vec<u8>)
    ensures
        copy@ == data@,
{
    let mut copy: Vec<u8> = Vec::new();
    let mut i: usize = 0;
    while i < data.len()
        invariant
            i <= data@.len(),
            copy@ == data@.subrange(0, i as int),
        decreases data@.len() - i,
    {
        copy.push(data[i]);
        i += 1;
    }
    copy
}

/// The label of the staging buffer of a write into a buffer labelled `label`.
fn staging_label_for(label: &Option<String>) -> (text: String)
    ensures
        text@ == staging_label(label_model(*label)),
{
    let prefix = "Staging Buffer for AllocatedBuffer ".to_owned();
    match label {
        Some(name) => prefix.concat(name.as_str()),
        None => {
            prefix
        },
    }
}

impl AllocatedBuffer {
    #[verifier::type_invariant]
    spec fn inv(self) -> bool {
        self.size > 0 && self.buffer != 0
    }

    /// Creates a buffer of `size` bytes in memory of class `alloc_usages`.
    ///
    /// The buffer gets the usage bits asked for and both transfer
    /// directions. An empty buffer cannot be created.
    pub fn new(
        ctx: &mut SubmitContext,
        buffer_usages: u32,
        alloc_usages: AllocUsage,
        size: u64,
        label: Option<String>,
    ) -> (buffer: Self)
        requires
            size > 0,
            old(ctx)@.can_allocate(1),
        ensures
            buffer@ == created_buffer(
                old(ctx)@,
                buffer_usages,
                alloc_usages,
                size,
                label_model(label),
            ),
            final(ctx)@ == after_create_buffer(
                old(ctx)@,
                buffer_usages,
                alloc_usages,
                size,
                label_model(label),
            ),
    {
        let usage_flags = buffer_usages | BUFFER_USAGE_TRANSFER_SRC | BUFFER_USAGE_TRANSFER_DST;
        let handle = ctx.fresh_handle();
        ctx.record(
            DeviceOp::CreateBuffer {
                buffer: handle,
                size,
                usage: usage_flags,
                memory: alloc_usages,
                label: clone_label(&label),
            },
        );
        AllocatedBuffer { buffer: handle, size, label, flags: usage_flags, alloc_flags: alloc_usages }
    }

    /// The handle of the buffer.
    pub fn handle(&self) -> (handle: Handle)
        ensures
            handle == self@.handle,
            handle != 0,
    {
        proof {
            use_type_invariant(self);
        }
        self.buffer
    }

    /// The size of the buffer in bytes.
    pub fn size(&self) -> (size: u64)
        ensures
            size == self@.size,
            size > 0,
    {
        proof {
            use_type_invariant(self);
        }
        self.size
    }

    /// The usage bits the buffer was created with.
    pub fn usage(&self) -> (usage: u32)
        ensures
            usage == self@.usage,
    {
        self.flags
    }

    /// The memory class of the buffer.
    pub fn alloc_usage(&self) -> (memory: AllocUsage)
        ensures
            memory == self@.memory,
    {
        self.alloc_flags
    }

    /// The label of the buffer.
    pub fn label(&self) -> (label: &Option<String>)
        ensures
            label_model(*label) == self@.label,
    {
        &self.label
    }

    /// Whether the buffer was created with the device-address capability.
    pub fn has_device_address(&self) -> (capable: bool)
        ensures
            capable == self@.has_device_address(),
    {
        self.flags & BUFFER_USAGE_SHADER_DEVICE_ADDRESS == BUFFER_USAGE_SHADER_DEVICE_ADDRESS
    }

    /// The destruction of the buffer, for a context or a deletion queue to
    /// run when the device is done with the buffer.
    pub fn destroy(self) -> (cleanup: Cleanup)
        ensures
            cleanup@ == CleanupModel::Buffer(self@),
    {
        Cleanup::Buffer(self)
    }

    /// Writes `data` to the buffer, starting at byte `offset`.
    ///
    /// The data goes through a staging buffer that lives until the batch has
    /// run on the device. Empty data is not accepted, and the data must fit
    /// into the buffer.
    pub fn write(&mut self, data: &[u8], offset: u64, ctx: &mut SubmitContext)
        requires
            data@.len() > 0,
            offset + data@.len() <= old(self)@.size,
            old(ctx)@.can_allocate(1),
        ensures
            final(self)@ == old(self)@,
            final(ctx)@ == after_write(old(ctx)@, old(self)@, data@, offset),
    {
        let size = data.len() as u64;
        let staging = AllocatedBuffer::new(
            ctx,
            BUFFER_USAGE_TRANSFER_SRC,
            AllocUsage::Shared,
            size,
            Some(staging_label_for(&self.label)),
        );
        ctx.record(DeviceOp::Upload { buffer: staging.buffer, data: copy_bytes(data) });
        ctx.record(
            DeviceOp::CopyBuffer {
                src: staging.buffer,
                dst: self.buffer,
                src_offset: 0,
                dst_offset: offset,
                size,
            },
        );
        ctx.add_cleanup(Cleanup::Buffer(staging));
    }

    /// The device address of the buffer, as the handle that stands for it.
    ///
    /// Only a buffer that was created with the device-address capability has
    /// an address.
    pub fn device_address(&self) -> (address: u64)
        requires
            self@.has_device_address(),
        ensures
            address == self@.handle,
            address != 0,
    {
        proof {
            use_type_invariant(self);
        }
        self.buffer
    }

    /// Replaces the buffer by one of `new_size` bytes with the same usage,
    /// memory class and label, and records a copy of the old contents, as far
    /// as they fit, into the new buffer.
    ///
    /// The old buffer is handed to the context's cleanups, because work that
    /// is still in flight may read it.
    pub fn resize(&mut self, ctx: &mut SubmitContext, new_size: u64)
        requires
            new_size > 0,
            old(ctx)@.can_allocate(1),
        ensures
            final(self)@ == resized_buffer(old(ctx)@, old(self)@, new_size),
            final(ctx)@ == after_resize(old(ctx)@, old(self)@, new_size),
    {
        let mut other = AllocatedBuffer::new(
            ctx,
            self.flags,
            self.alloc_flags,
            new_size,
            clone_label(&self.label),
        );
        let copied = if self.size < new_size {
            self.size
        } else {
            new_size
        };
        ctx.record(
            DeviceOp::CopyBuffer {
                src: self.buffer,
                dst: other.buffer,
                src_offset: 0,
                dst_offset: 0,
                size: copied,
            },
        );
        core::mem::swap(self, &mut other);
        ctx.add_cleanup(Cleanup::Buffer(other));
    }
}

/// A buffer has the device-address capability exactly if it was asked for
/// when the buffer was created.
pub proof fn lemma_created_usage_device_address(usage: u32)
    ensures
        created_usage(usage) & BUFFER_USAGE_SHADER_DEVICE_ADDRESS
            == BUFFER_USAGE_SHADER_DEVICE_ADDRESS <==> usage & BUFFER_USAGE_SHADER_DEVICE_ADDRESS
            == BUFFER_USAGE_SHADER_DEVICE_ADDRESS,
        created_usage(created_usage(usage)) == created_usage(usage),
{
    assert((usage | 0x1u32 | 0x2u32) & 0x20000u32 == 0x20000u32 <==> usage & 0x20000u32
        == 0x20000u32) by (bit_vector);
    assert((usage | 0x1u32 | 0x2u32) | 0x1u32 | 0x2u32 == usage | 0x1u32 | 0x2u32)
        by (bit_vector);
}

/// A resize keeps the contents of the buffer as far as they fit.
///
/// Take any memory in which the buffer is live with its full size. After the
/// work of the resize, the replacement has the new size, and its first bytes,
/// as many as the smaller of the two sizes, are the first bytes of the old
/// buffer; what lies behind them in a larger replacement is undefined. The
/// old buffer is still live and unchanged: its destruction is the last of
/// the context's cleanups, and no work destroys it.
pub proof fn lemma_resize_preserves_prefix(
    memory: Memory,
    ctx: ContextModel,
    buffer: BufferModel,
    new_size: u64,
)
    requires
        ctx.can_allocate(1),
        buffer.handle <= ctx.last_handle,
        perform_all(memory, ctx.work).dom().contains(buffer.handle),
        perform_all(memory, ctx.work)[buffer.handle].len() == buffer.size,
    ensures
        ({
            let before = perform_all(memory, ctx.work);
            let after = perform_all(memory, after_resize(ctx, buffer, new_size).work);
            let replacement = resized_buffer(ctx, buffer, new_size);
            let kept = min_size(buffer.size, new_size);
            &&& replacement.handle != buffer.handle
            &&& after.dom().contains(replacement.handle)
            &&& after[replacement.handle].len() == new_size
            &&& forall|i: int|
                0 <= i < kept ==> after[replacement.handle][i] == before[buffer.handle][i]
            &&& forall|i: int| kept <= i < new_size ==> after[replacement.handle][i] is None
            &&& after.dom().contains(buffer.handle)
            &&& after[buffer.handle] == before[buffer.handle]
            &&& after_resize(ctx, buffer, new_size).cleanup == ctx.cleanup.push(
                CleanupModel::Buffer(buffer),
            )
        }),
{
    let replacement = resized_buffer(ctx, buffer, new_size);
    let create = OpModel::CreateBuffer {
        buffer: replacement.handle,
        size: replacement.size,
        usage: replacement.usage,
        memory: replacement.memory,
        label: replacement.label,
    };
    let copy = OpModel::CopyBuffer {
        src: buffer.handle,
        dst: replacement.handle,
        src_offset: 0,
        dst_offset: 0,
        size: min_size(buffer.size, new_size),
    };
    lemma_perform_push(memory, ctx.work, create);
    lemma_perform_push(memory, ctx.work.push(create), copy);
}

/// A write puts the data into the buffer and touches nothing else.
///
/// Take any memory in which the target is live with its full size. After the
/// work of the write, the target holds the data from `offset` on and is
/// unchanged elsewhere, every other buffer that was live is unchanged, and
/// the staging buffer is still live: its destruction is the last of the
/// context's cleanups.
pub proof fn lemma_write_stores_data(
    memory: Memory,
    ctx: ContextModel,
    target: BufferModel,
    data: Seq<u8>,
    offset: u64,
)
    requires
        0 < data.len(),
        offset + data.len() <= target.size,
        ctx.can_allocate(1),
        target.handle <= ctx.last_handle,
        perform_all(memory, ctx.work).dom().contains(target.handle),
        perform_all(memory, ctx.work)[target.handle].len() == target.size,
    ensures
        ({
            let before = perform_all(memory, ctx.work);
            let after = perform_all(memory, after_write(ctx, target, data, offset).work);
            let staging = staging_buffer(ctx, target, data.len() as u64);
            &&& after.dom().contains(target.handle)
            &&& after[target.handle] == overwritten(
                before[target.handle],
                offset as int,
                defined(data),
            )
            &&& after.dom().contains(staging.handle)
            &&& forall|other: Handle|
                other != target.handle && other != staging.handle ==> (after.dom().contains(other)
                    <==> before.dom().contains(other)) && after[other] == before[other]
            &&& after_write(ctx, target, data, offset).cleanup == ctx.cleanup.push(
                CleanupModel::Buffer(staging),
            )
        }),
{
    let len = data.len() as u64;
    let staging = staging_buffer(ctx, target, len);
    let create = OpModel::CreateBuffer {
        buffer: staging.handle,
        size: staging.size,
        usage: staging.usage,
        memory: staging.memory,
        label: staging.label,
    };
    let upload = OpModel::Upload { buffer: staging.handle, data };
    let copy = OpModel::CopyBuffer {
        src: staging.handle,
        dst: target.handle,
        src_offset: 0,
        dst_offset: offset,
        size: len,
    };
    lemma_perform_push(memory, ctx.work, create);
    lemma_perform_push(memory, ctx.work.push(create), upload);
    lemma_perform_push(memory, ctx.work.push(create).push(upload), copy);
}

/// One write of a batch: the buffer written to, the data, and the byte
/// offset in the buffer.
pub struct WriteModel {
    pub target: BufferModel,
    pub data: Seq<u8>,
    pub offset: u64,
}

/// The context after a batch of writes, recorded one after the other.
pub open spec fn after_writes(ctx: ContextModel, writes: Seq<WriteModel>) -> ContextModel
    decreases writes.len(),
{
    if writes.len() == 0 {
        ctx
    } else {
        let write = writes.last();
        after_write(
            after_writes(ctx, writes.drop_last()),
            write.target,
            write.data,
            write.offset,
        )
    }
}

/// The staging buffer of the `k`-th write of a batch, counting from zero.
pub open spec fn staging_of(ctx: ContextModel, writes: Seq<WriteModel>, k: int) -> BufferModel {
    staging_buffer(
        after_writes(ctx, writes.subrange(0, k)),
        writes[k].target,
        writes[k].data.len() as u64,
    )
}

/// Staging buffers outlive their batch.
///
/// After any batch of writes, the context's cleanups are those it had before
/// followed by the destruction of each write's staging buffer, in the order
/// of the writes. In the script of the submission each of these destructions
/// stands behind the wait for the fence, and no destruction stands before it.
pub proof fn lemma_staging_outlives_batch(ctx: ContextModel, writes: Seq<WriteModel>)
    ensures
        ({
            let batch = after_writes(ctx, writes);
            let script = batch.script();
            let wait = (5 + batch.work.len()) as int;
            &&& batch.cleanup.len() == ctx.cleanup.len() + writes.len()
            &&& batch.cleanup.subrange(0, ctx.cleanup.len() as int) == ctx.cleanup
            &&& forall|k: int|
                0 <= k < writes.len() ==> batch.cleanup[ctx.cleanup.len() + k]
                    == CleanupModel::Buffer(staging_of(ctx, writes, k))
            &&& forall|k: int|
                0 <= k < writes.len() ==> script[wait + 1 + ctx.cleanup.len() + k]
                    == StepModel::Destroy(CleanupModel::Buffer(staging_of(ctx, writes, k)))
            &&& forall|i: int| 0 <= i <= wait ==> !(script[i] is Destroy)
        }),
    decreases writes.len(),
{
    let batch = after_writes(ctx, writes);
    lemma_script_shape(batch);
    if writes.len() > 0 {
        let earlier = writes.drop_last();
        lemma_staging_outlives_batch(ctx, earlier);
        assert forall|k: int| 0 <= k < writes.len() implies batch.cleanup[ctx.cleanup.len() + k]
            == CleanupModel::Buffer(staging_of(ctx, writes, k)) by {
            if k < earlier.len() {
                assert(earlier.subrange(0, k) =~= writes.subrange(0, k));
                assert(staging_of(ctx, earlier, k) == staging_of(ctx, writes, k));
            }
        }
    }
}

/// Plain data that lies in device memory byte for byte.
pub trait GpuData {
    /// The bytes of the value as they lie in device memory.
    spec fn gpu_bytes(&self) -> Seq<u8>;

    /// The bytes of the value as they lie in device memory.
    fn to_gpu_bytes(&self) -> (bytes: Vec<u8>)
        ensures
            bytes@ == self.gpu_bytes(),
    ;
}

/// A value on the host together with the buffer that holds it on the
/// device.
pub struct WrappedBuffer<T: GpuData> {
    /// Whether the host value has changed since it was written last.
    pub dirty: bool,
    pub buffer: AllocatedBuffer,
    pub data: T,
}

impl<T: GpuData> WrappedBuffer<T> {
    /// Writes the host value to the start of the buffer.
    pub fn write(&mut self, ctx: &mut SubmitContext)
        requires
            0 < old(self).data.gpu_bytes().len() <= old(self).buffer@.size,
            old(ctx)@.can_allocate(1),
        ensures
            final(self).dirty == old(self).dirty,
            final(self).data == old(self).data,
            final(self).buffer@ == old(self).buffer@,
            final(ctx)@ == after_write(
                old(ctx)@,
                old(self).buffer@,
                old(self).data.gpu_bytes(),
                0,
            ),
    {
        let bytes = self.data.to_gpu_bytes();
        self.buffer.write(bytes.as_slice(), 0, ctx);
    }

    /// Brings the buffer up to date: if the host value has changed, writes
    /// it in a submission of its own and clears the flag.
    pub fn flush(&mut self, ctx: SubmitContext) -> (submission: Option<Submission>)
        requires
            old(self).dirty ==> 0 < old(self).data.gpu_bytes().len() <= old(self).buffer@.size
                && ctx@.can_allocate(1),
        ensures
            !final(self).dirty,
            final(self).data == old(self).data,
            final(self).buffer@ == old(self).buffer@,
            match submission {
                Some(written) => {
                    &&& old(self).dirty
                    &&& steps_model(written.steps@) == after_write(
                        ctx@,
                        old(self).buffer@,
                        old(self).data.gpu_bytes(),
                        0,
                    ).script()
                    &&& written.last_handle == ctx@.last_handle + 1
                },
                None => !old(self).dirty,
            },
    {
        if self.dirty {
            let mut ctx = ctx;
            self.write(&mut ctx);
            self.dirty = false;
            Some(ctx.submit())
        } else {
            None
        }
    }
}

} // verus!
