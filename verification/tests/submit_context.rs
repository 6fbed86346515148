use gpu_resources::buffer::AllocatedBuffer;
use gpu_resources::device::DeviceOp;
use gpu_resources::submit::{Cleanup, DeviceStep, ObjectKind, SubmitContext, FENCE_TIMEOUT_NS};
use gpu_resources::usage::{AllocUsage, BUFFER_USAGE_STORAGE_BUFFER};

fn wait_position(steps: &[DeviceStep]) -> Vec<usize> {
    steps
        .iter()
        .enumerate()
        .filter(|(_, step)| matches!(step, DeviceStep::WaitForFence { .. }))
        .map(|(i, _)| i)
        .collect()
}

fn destroyed_buffers(steps: &[DeviceStep]) -> Vec<(usize, u64)> {
    steps
        .iter()
        .enumerate()
        .filter_map(|(i, step)| match step {
            DeviceStep::Destroy(Cleanup::Buffer(buffer)) => Some((i, buffer.handle())),
            _ => None,
        })
        .collect()
}

#[test]
fn new_context_is_empty() {
    let ctx = SubmitContext::new(7, 8, 9, 100);
    assert_eq!(ctx.fence(), 7);
    assert_eq!(ctx.cmd_buffer(), 8);
    assert_eq!(ctx.queue(), 9);
    assert_eq!(ctx.last_handle(), 100);
    assert!(ctx.recorded().is_empty());
    assert!(ctx.pending().is_empty());
}

#[test]
fn fresh_handles_go_up_and_are_never_zero() {
    let mut ctx = SubmitContext::new(1, 2, 3, 0);
    assert_eq!(ctx.fresh_handle(), 1);
    assert_eq!(ctx.fresh_handle(), 2);
    assert_eq!(ctx.last_handle(), 2);
    assert!(ctx.can_allocate(u64::MAX - 2));
    assert!(!ctx.can_allocate(u64::MAX - 1));
}

#[test]
fn empty_submission_resets_begins_ends_submits_and_waits() {
    let ctx = SubmitContext::new(7, 8, 9, 0);
    let submission = ctx.submit();
    assert_eq!(submission.last_handle, 0);
    assert_eq!(submission.steps.len(), 6);
    assert!(matches!(submission.steps[0], DeviceStep::ResetFence { fence: 7 }));
    assert!(matches!(submission.steps[1], DeviceStep::ResetCommandBuffer { cmd_buffer: 8 }));
    assert!(matches!(submission.steps[2], DeviceStep::BeginCommandBuffer { cmd_buffer: 8 }));
    assert!(matches!(submission.steps[3], DeviceStep::EndCommandBuffer { cmd_buffer: 8 }));
    assert!(matches!(
        submission.steps[4],
        DeviceStep::QueueSubmit { queue: 9, cmd_buffer: 8, fence: 7 }
    ));
    assert!(matches!(
        submission.steps[5],
        DeviceStep::WaitForFence { fence: 7, timeout_ns: 1_000_000_000 }
    ));
    assert_eq!(FENCE_TIMEOUT_NS, 1_000_000_000);
}

#[test]
fn immediate_submit_returns_the_result_of_the_work() {
    let ctx = SubmitContext::new(1, 2, 3, 0);
    let (value, submission) = ctx.immediate_submit(|ctx: &mut SubmitContext| {
        ctx.add_cleanup(Cleanup::Object { kind: ObjectKind::Sampler, handle: 55 });
        41 + 1
    });
    assert_eq!(value, 42);
    assert_eq!(submission.steps.len(), 7);
    assert!(matches!(
        submission.steps[6],
        DeviceStep::Destroy(Cleanup::Object { kind: ObjectKind::Sampler, handle: 55 })
    ));
}

#[test]
fn staging_buffers_are_destroyed_only_after_the_wait() {
    let ctx = SubmitContext::new(1, 2, 3, 0);
    let (staging, submission) = ctx.immediate_submit(|ctx: &mut SubmitContext| {
        let mut buffer =
            AllocatedBuffer::new(ctx, BUFFER_USAGE_STORAGE_BUFFER, AllocUsage::GpuOnly, 64, None);
        buffer.write(&[1, 2, 3, 4], 0, ctx);
        buffer.write(&[5, 6], 8, ctx);
        buffer.write(&[7], 63, ctx);
        // Nothing has been destroyed while the batch is recorded.
        assert_eq!(ctx.pending().len(), 3);
        assert!(ctx.recorded().iter().all(|op| !matches!(op, DeviceOp::CreateSampler { .. })));
        ctx.pending()
            .iter()
            .map(|cleanup| match cleanup {
                Cleanup::Buffer(buffer) => buffer.handle(),
                _ => 0,
            })
            .collect::<Vec<u64>>()
    });
    assert_eq!(staging, vec![2, 3, 4]);
    let waits = wait_position(&submission.steps);
    assert_eq!(waits.len(), 1);
    let destroyed = destroyed_buffers(&submission.steps);
    assert_eq!(destroyed.iter().map(|(_, handle)| *handle).collect::<Vec<u64>>(), vec![2, 3, 4]);
    assert!(destroyed.iter().all(|(at, _)| *at > waits[0]));
    assert!(submission.steps[..=waits[0]]
        .iter()
        .all(|step| !matches!(step, DeviceStep::Destroy(_))));
    assert_eq!(submission.last_handle, 4);
}

#[test]
fn nesting_aggregates_cleanups_in_insertion_order_with_one_wait() {
    let ctx = SubmitContext::new(1, 2, 3, 0);
    let (_, submission) = ctx.immediate_submit(|ctx: &mut SubmitContext| {
        ctx.add_cleanup(Cleanup::Object { kind: ObjectKind::Fence, handle: 10 });
        for k in 0..3u64 {
            let made = ctx.nest(|child: &mut SubmitContext| {
                assert!(child.pending().is_empty());
                assert!(child.recorded().is_empty());
                assert_eq!(child.fence(), 1);
                assert_eq!(child.cmd_buffer(), 2);
                assert_eq!(child.queue(), 3);
                child.add_cleanup(Cleanup::Object { kind: ObjectKind::Sampler, handle: 100 + k });
                child.add_cleanup(Cleanup::Object { kind: ObjectKind::Pipeline, handle: 200 + k });
                child.fresh_handle()
            });
            assert_eq!(made, k + 1);
            assert_eq!(ctx.pending().len() as u64, 1 + 2 * (k + 1));
        }
    });
    assert_eq!(wait_position(&submission.steps), vec![5]);
    let order: Vec<u64> = submission
        .steps
        .iter()
        .filter_map(|step| match step {
            DeviceStep::Destroy(Cleanup::Object { handle, .. }) => Some(*handle),
            _ => None,
        })
        .collect();
    assert_eq!(order, vec![10, 100, 200, 101, 201, 102, 202]);
    assert_eq!(submission.steps.len(), 6 + 7);
    assert_eq!(submission.last_handle, 3);
}

#[test]
fn nested_work_follows_the_work_of_the_parent() {
    let mut ctx = SubmitContext::new(1, 2, 3, 0);
    let first =
        AllocatedBuffer::new(&mut ctx, BUFFER_USAGE_STORAGE_BUFFER, AllocUsage::GpuOnly, 16, None);
    let second = ctx.nest(|child: &mut SubmitContext| {
        AllocatedBuffer::new(child, BUFFER_USAGE_STORAGE_BUFFER, AllocUsage::Shared, 32, None)
    });
    assert_eq!(first.handle(), 1);
    assert_eq!(second.handle(), 2);
    let sizes: Vec<u64> = ctx
        .recorded()
        .iter()
        .map(|op| match op {
            DeviceOp::CreateBuffer { size, .. } => *size,
            _ => 0,
        })
        .collect();
    assert_eq!(sizes, vec![16, 32]);
}
