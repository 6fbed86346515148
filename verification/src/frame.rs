//! The state of one frame in flight, and what is reclaimed when its turn
//! comes round again.

use crate::buffer::AllocatedBuffer;
use crate::deletion::DeletionQueue;
use crate::descriptor::{AllocatorModel, DescriptorAllocator};
use crate::device::Handle;
use crate::submit::{
    destroy_all, steps_model, Cleanup, CleanupModel, DeviceStep, StepModel,
    FENCE_TIMEOUT_NS,
};
use vstd::prelude::*;

verus! {

/// The number of frames whose work may be in flight on the device at once.
pub const FRAME_OVERLAP: usize = 2;

/// The frame slot that frame number `current_frame` uses. Both slots take
/// turns, so a slot comes round again after [`FRAME_OVERLAP`] frames.
pub fn frame_slot(current_frame: u32) -> (slot: usize)
    ensures
        slot == current_frame as int % FRAME_OVERLAP as int,
        slot < FRAME_OVERLAP,
{
    (current_frame % 2) as usize
}

/// Frame slots take turns.
///
/// A frame and the frame after it use different slots, and a slot comes
/// round again [`FRAME_OVERLAP`] frames later: what a frame owns is
/// reclaimed no earlier than that.
pub proof fn lemma_slots_take_turns(frame: nat)
    ensures
        frame % (FRAME_OVERLAP as nat) != (frame + 1) % (FRAME_OVERLAP as nat),
        frame % (FRAME_OVERLAP as nat) == (frame + FRAME_OVERLAP as nat) % (FRAME_OVERLAP as nat),
{
}

/// What one frame in flight owns.
pub struct FrameData {
    pub command_pool: Handle,
    pub command_buffer: Handle,
    pub swapchain_semaphore: Handle,
    pub render_semaphore: Handle,
    /// Signals when the device has finished the frame.
    pub render_fence: Handle,
    /// Destructions that wait for the frame's fence.
    pub deletion_queue: DeletionQueue,
    /// The allocator of the frame's descriptor sets.
    pub descriptor_allocator: DescriptorAllocator,
    /// Buffers that the frame was the last to use.
    pub stale_buffers: Vec<AllocatedBuffer>,
}

/// The destructions of a list of buffers, in order.
pub open spec fn buffer_cleanups(buffers: Seq<AllocatedBuffer>) -> Seq<CleanupModel> {
    buffers.map_values(|buffer: AllocatedBuffer| CleanupModel::Buffer(buffer@))
}

/// The script that reclaims what a frame owns: wait for the frame's fence,
/// run the queued destructions first in first out, reset the descriptor
/// pools, destroy the stale buffers, and reset the fence for the next use of
/// the slot. Nothing is reclaimed before the fence has signalled.
pub open spec fn reclaim_script(
    render_fence: Handle,
    queued: Seq<CleanupModel>,
    allocator: AllocatorModel,
    stale: Seq<CleanupModel>,
) -> Seq<StepModel> {
    seq![StepModel::WaitForFence { fence: render_fence, timeout_ns: FENCE_TIMEOUT_NS }]
        + queued.map_values(|cleanup: CleanupModel| StepModel::Destroy(cleanup)) + (
    allocator.ready_pools + allocator.full_pools).map_values(
        |pool: Handle| StepModel::ResetDescriptorPool { pool },
    ) + stale.map_values(|cleanup: CleanupModel| StepModel::Destroy(cleanup))
        + seq![StepModel::ResetFence { fence: render_fence }]
}

impl FrameData {
    /// Reclaims what the frame owns when its slot comes round again.
    ///
    /// The queue and the stale buffers are emptied into the script, so that
    /// nothing is destroyed twice. The descriptor pools stay with the
    /// allocator.
    pub fn reclaim(&mut self) -> (script: Vec<DeviceStep>)
        ensures
            steps_model(script@) == reclaim_script(
                old(self).render_fence,
                old(self).deletion_queue@,
                old(self).descriptor_allocator@,
                buffer_cleanups(old(self).stale_buffers@),
            ),
            final(self).deletion_queue@ == Seq::<CleanupModel>::empty(),
            final(self).stale_buffers@ == Seq::<AllocatedBuffer>::empty(),
            final(self).descriptor_allocator@ == old(self).descriptor_allocator@,
            final(self).render_fence == old(self).render_fence,
            final(self).command_pool == old(self).command_pool,
            final(self).command_buffer == old(self).command_buffer,
            final(self).swapchain_semaphore == old(self).swapchain_semaphore,
            final(self).render_semaphore == old(self).render_semaphore,
    {
        let mut script: Vec<DeviceStep> = Vec::new();
        script.push(
            DeviceStep::WaitForFence { fence: self.render_fence, timeout_ns: FENCE_TIMEOUT_NS },
        );
        assert(steps_model(script@) =~= seq![
            StepModel::WaitForFence { fence: self.render_fence, timeout_ns: FENCE_TIMEOUT_NS },
        ]);
        let queued = self.deletion_queue.flush();
        destroy_all(queued, &mut script);
        let pools = self.descriptor_allocator.clear_pools();
        let ghost destroyed = steps_model(script@);
        let mut i: usize = 0;
        while i < pools.len()
            invariant
                i <= pools@.len(),
                steps_model(script@) == destroyed + pools@.subrange(0, i as int).map_values(
                    |pool: Handle| StepModel::ResetDescriptorPool { pool },
                ),
            decreases pools@.len() - i,
        {
            let ghost before = script@;
            script.push(DeviceStep::ResetDescriptorPool { pool: pools[i] });
            i += 1;
            assert(steps_model(script@) =~= steps_model(before).push(
                StepModel::ResetDescriptorPool { pool: pools@[i - 1] },
            ));
        }
        assert(pools@.subrange(0, i as int) =~= pools@);
        let mut stale: Vec<AllocatedBuffer> = Vec::new();
        core::mem::swap(&mut self.stale_buffers, &mut stale);
        let ghost buffers = stale@;
        let mut rest = crate::submit::reversed(stale);
        let ghost turned = rest@;
        let ghost reset = steps_model(script@);
        while rest.len() > 0
            invariant
                rest@.len() <= buffers.len(),
                turned.len() == buffers.len(),
                rest@ == turned.subrange(0, rest@.len() as int),
                forall|k: int| 0 <= k < buffers.len() ==> turned[k] == buffers[buffers.len() - 1 - k],
                steps_model(script@) == reset + buffer_cleanups(
                    buffers.subrange(0, buffers.len() - rest@.len()),
                ).map_values(|cleanup: CleanupModel| StepModel::Destroy(cleanup)),
            decreases rest.len(),
        {
            let ghost before = script@;
            let buffer = rest.pop().unwrap();
            script.push(DeviceStep::Destroy(Cleanup::Buffer(buffer)));
            proof {
                assert(steps_model(script@) =~= steps_model(before).push(
                    StepModel::Destroy(CleanupModel::Buffer(buffer@)),
                ));
            }
        }
        assert(buffers.subrange(0, buffers.len() as int) =~= buffers);
        script.push(DeviceStep::ResetFence { fence: self.render_fence });
        script
    }
}

} // verus!
