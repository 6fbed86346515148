//! A mathematical model of buffer memory on the device, and what the
//! recorded work does to it.
//!
//! A byte of a buffer is either undefined or holds a value. A new buffer is
//! undefined throughout. The model follows the device: an upload or a copy
//! that does not fit its buffers is not valid work, and the model leaves the
//! memory as it is.

use crate::device::{Handle, OpModel};
use crate::submit::CleanupModel;
use vstd::prelude::*;

verus! {

/// The contents of one buffer. `None` is a byte that was never written.
pub type Contents = Seq<Option<u8>>;

/// The contents of every live buffer.
pub type Memory = Map<Handle, Contents>;

/// Bytes that all hold a value.
pub open spec fn defined(data: Seq<u8>) -> Contents {
    data.map_values(|byte: u8| Some(byte))
}

/// `target` with `data` written over the bytes from `at` on.
pub open spec fn overwritten(target: Contents, at: int, data: Contents) -> Contents {
    Seq::new(
        target.len(),
        |i: int|
            if at <= i < at + data.len() {
                data[i - at]
            } else {
                target[i]
            },
    )
}

/// The memory after one piece of work. Work on images, samplers and
/// descriptor sets leaves buffer memory alone.
pub open spec fn perform(memory: Memory, op: OpModel) -> Memory {
    match op {
        OpModel::CreateBuffer { buffer, size, .. } => memory.insert(
            buffer,
            Seq::new(size as nat, |i: int| None::<u8>),
        ),
        OpModel::Upload { buffer, data } => if memory.dom().contains(buffer) && data.len()
            <= memory[buffer].len() {
            memory.insert(buffer, overwritten(memory[buffer], 0, defined(data)))
        } else {
            memory
        },
        OpModel::CopyBuffer { src, dst, src_offset, dst_offset, size } => if memory.dom().contains(
            src,
        ) && memory.dom().contains(dst) && src_offset + size <= memory[src].len() && dst_offset
            + size <= memory[dst].len() {
            memory.insert(
                dst,
                overwritten(
                    memory[dst],
                    dst_offset as int,
                    memory[src].subrange(src_offset as int, src_offset + size),
                ),
            )
        } else {
            memory
        },
        _ => memory,
    }
}

/// The memory after a list of work, performed in order.
pub open spec fn perform_all(memory: Memory, work: Seq<OpModel>) -> Memory
    decreases work.len(),
{
    if work.len() == 0 {
        memory
    } else {
        perform(perform_all(memory, work.drop_last()), work.last())
    }
}

/// The memory after one destruction has run.
pub open spec fn destroy(memory: Memory, cleanup: CleanupModel) -> Memory {
    match cleanup {
        CleanupModel::Buffer(buffer) => memory.remove(buffer.handle),
        _ => memory,
    }
}

/// Performing one more piece of work after a list is performing the longer
/// list.
pub proof fn lemma_perform_push(memory: Memory, work: Seq<OpModel>, op: OpModel)
    ensures
        perform_all(memory, work.push(op)) == perform(perform_all(memory, work), op),
{
    assert(work.push(op).drop_last() =~= work);
}

/// No work destroys a buffer: whatever is live before a piece of work is
/// live after it.
pub proof fn lemma_perform_keeps_buffers(memory: Memory, op: OpModel, buffer: Handle)
    requires
        memory.dom().contains(buffer),
    ensures
        perform(memory, op).dom().contains(buffer),
{
}

/// No list of work destroys a buffer.
pub proof fn lemma_perform_all_keeps_buffers(memory: Memory, work: Seq<OpModel>, buffer: Handle)
    requires
        memory.dom().contains(buffer),
    ensures
        perform_all(memory, work).dom().contains(buffer),
    decreases work.len(),
{
    if work.len() > 0 {
        lemma_perform_all_keeps_buffers(memory, work.drop_last(), buffer);
        lemma_perform_keeps_buffers(perform_all(memory, work.drop_last()), work.last(), buffer);
    }
}

} // verus!
