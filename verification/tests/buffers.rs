use gpu_resources::buffer::{copy_bytes, AllocatedBuffer};
use gpu_resources::device::DeviceOp;
use gpu_resources::submit::{Cleanup, SubmitContext};
use gpu_resources::usage::{
    AllocUsage, BUFFER_USAGE_SHADER_DEVICE_ADDRESS, BUFFER_USAGE_STORAGE_BUFFER,
    BUFFER_USAGE_TRANSFER_DST, BUFFER_USAGE_TRANSFER_SRC,
};
use std::collections::HashMap;

/// Buffer memory as the device would keep it: `None` is a byte that was
/// never written.
fn run(memory: &mut HashMap<u64, Vec<Option<u8>>>, work: &[DeviceOp]) {
    for op in work {
        match op {
            DeviceOp::CreateBuffer { buffer, size, .. } => {
                memory.insert(*buffer, vec![None; *size as usize]);
            }
            DeviceOp::Upload { buffer, data } => {
                let target = memory.get_mut(buffer).unwrap();
                assert!(data.len() <= target.len());
                for (i, byte) in data.iter().enumerate() {
                    target[i] = Some(*byte);
                }
            }
            DeviceOp::CopyBuffer { src, dst, src_offset, dst_offset, size } => {
                let from = memory[src].clone();
                let target = memory.get_mut(dst).unwrap();
                assert!(src_offset + size <= from.len() as u64);
                assert!(dst_offset + size <= target.len() as u64);
                for i in 0..*size as usize {
                    target[*dst_offset as usize + i] = from[*src_offset as usize + i];
                }
            }
            _ => {}
        }
    }
}

fn defined(bytes: &[u8]) -> Vec<Option<u8>> {
    bytes.iter().map(|byte| Some(*byte)).collect()
}

#[test]
fn device_address_needs_the_capability() {
    let mut ctx = SubmitContext::new(1, 2, 3, 0);
    let capable = AllocatedBuffer::new(
        &mut ctx,
        BUFFER_USAGE_SHADER_DEVICE_ADDRESS,
        AllocUsage::GpuOnly,
        64,
        None,
    );
    assert!(capable.has_device_address());
    assert_ne!(capable.device_address(), 0);
    assert_eq!(capable.device_address(), capable.handle());

    let plain =
        AllocatedBuffer::new(&mut ctx, BUFFER_USAGE_STORAGE_BUFFER, AllocUsage::GpuOnly, 64, None);
    // The precondition of `device_address` does not hold of this buffer.
    assert!(!plain.has_device_address());
}

#[test]
fn new_buffer_can_always_be_transferred_from_and_to() {
    let mut ctx = SubmitContext::new(1, 2, 3, 10);
    let buffer = AllocatedBuffer::new(
        &mut ctx,
        BUFFER_USAGE_STORAGE_BUFFER,
        AllocUsage::Shared,
        48,
        Some("scene".to_string()),
    );
    assert_eq!(buffer.handle(), 11);
    assert_eq!(buffer.size(), 48);
    assert_eq!(
        buffer.usage(),
        BUFFER_USAGE_STORAGE_BUFFER | BUFFER_USAGE_TRANSFER_SRC | BUFFER_USAGE_TRANSFER_DST
    );
    assert_eq!(buffer.usage(), 0x23);
    assert_eq!(buffer.alloc_usage(), AllocUsage::Shared);
    assert_eq!(buffer.label(), &Some("scene".to_string()));
    assert_eq!(
        ctx.recorded()[..],
        [DeviceOp::CreateBuffer {
            buffer: 11,
            size: 48,
            usage: 0x23,
            memory: AllocUsage::Shared,
            label: Some("scene".to_string()),
        }]
    );
    assert_eq!(ctx.last_handle(), 11);
    assert!(ctx.pending().is_empty());
}

#[test]
fn write_goes_through_a_staging_buffer_of_the_size_of_the_data() {
    let mut ctx = SubmitContext::new(1, 2, 3, 0);
    let mut buffer = AllocatedBuffer::new(
        &mut ctx,
        BUFFER_USAGE_STORAGE_BUFFER,
        AllocUsage::GpuOnly,
        16,
        Some("target".to_string()),
    );
    buffer.write(&[9, 8, 7], 5, &mut ctx);
    assert_eq!(
        ctx.recorded()[1..],
        [
            DeviceOp::CreateBuffer {
                buffer: 2,
                size: 3,
                usage: BUFFER_USAGE_TRANSFER_SRC | BUFFER_USAGE_TRANSFER_DST,
                memory: AllocUsage::Shared,
                label: Some("Staging Buffer for AllocatedBuffer target".to_string()),
            },
            DeviceOp::Upload { buffer: 2, data: vec![9, 8, 7] },
            DeviceOp::CopyBuffer { src: 2, dst: 1, src_offset: 0, dst_offset: 5, size: 3 },
        ]
    );
    assert_eq!(ctx.pending().len(), 1);
    match &ctx.pending()[0] {
        Cleanup::Buffer(staging) => {
            assert_eq!(staging.handle(), 2);
            assert_eq!(staging.size(), 3);
            assert_eq!(staging.alloc_usage(), AllocUsage::Shared);
        }
        other => panic!("unexpected cleanup {:?}", other),
    }
    let mut memory = HashMap::new();
    run(&mut memory, ctx.recorded());
    let mut expected = vec![None; 16];
    expected[5] = Some(9);
    expected[6] = Some(8);
    expected[7] = Some(7);
    assert_eq!(memory[&1], expected);
    // The staging buffer is still live after the work.
    assert!(memory.contains_key(&2));
}

#[test]
fn staging_label_of_an_unlabelled_buffer_ends_with_the_prefix() {
    let mut ctx = SubmitContext::new(1, 2, 3, 0);
    let mut buffer =
        AllocatedBuffer::new(&mut ctx, BUFFER_USAGE_STORAGE_BUFFER, AllocUsage::GpuOnly, 4, None);
    buffer.write(&[1], 0, &mut ctx);
    match &ctx.pending()[0] {
        Cleanup::Buffer(staging) => {
            assert_eq!(
                staging.label(),
                &Some("Staging Buffer for AllocatedBuffer ".to_string())
            );
        }
        other => panic!("unexpected cleanup {:?}", other),
    }
}

#[test]
fn growing_resize_preserves_all_old_bytes() {
    let mut ctx = SubmitContext::new(1, 2, 3, 0);
    let mut buffer = AllocatedBuffer::new(
        &mut ctx,
        BUFFER_USAGE_STORAGE_BUFFER | BUFFER_USAGE_SHADER_DEVICE_ADDRESS,
        AllocUsage::GpuOnly,
        4,
        Some("grow".to_string()),
    );
    buffer.write(&[1, 2, 3, 4], 0, &mut ctx);
    let usage = buffer.usage();
    buffer.resize(&mut ctx, 10);
    assert_eq!(buffer.handle(), 3);
    assert_eq!(buffer.size(), 10);
    assert_eq!(buffer.usage(), usage);
    assert_eq!(buffer.alloc_usage(), AllocUsage::GpuOnly);
    assert_eq!(buffer.label(), &Some("grow".to_string()));
    assert!(buffer.has_device_address());
    assert_eq!(
        ctx.recorded()[4..],
        [
            DeviceOp::CreateBuffer {
                buffer: 3,
                size: 10,
                usage,
                memory: AllocUsage::GpuOnly,
                label: Some("grow".to_string()),
            },
            DeviceOp::CopyBuffer { src: 1, dst: 3, src_offset: 0, dst_offset: 0, size: 4 },
        ]
    );
    let mut memory = HashMap::new();
    run(&mut memory, ctx.recorded());
    assert_eq!(memory[&3][..4], defined(&[1, 2, 3, 4])[..]);
    assert!(memory[&3][4..].iter().all(|byte| byte.is_none()));
    // The old buffer is scheduled for deletion, not destroyed.
    assert_eq!(memory[&1], defined(&[1, 2, 3, 4]));
    match ctx.pending().last() {
        Some(Cleanup::Buffer(old)) => {
            assert_eq!(old.handle(), 1);
            assert_eq!(old.size(), 4);
        }
        other => panic!("unexpected cleanup {:?}", other),
    }
}

#[test]
fn shrinking_resize_preserves_the_first_bytes() {
    let mut ctx = SubmitContext::new(1, 2, 3, 0);
    let mut buffer =
        AllocatedBuffer::new(&mut ctx, BUFFER_USAGE_TRANSFER_DST, AllocUsage::GpuOnly, 8, None);
    buffer.write(&[1, 2, 3, 4, 5, 6, 7, 8], 0, &mut ctx);
    buffer.resize(&mut ctx, 3);
    assert_eq!(buffer.size(), 3);
    assert_eq!(
        ctx.recorded().last(),
        Some(&DeviceOp::CopyBuffer { src: 1, dst: 3, src_offset: 0, dst_offset: 0, size: 3 })
    );
    let mut memory = HashMap::new();
    run(&mut memory, ctx.recorded());
    assert_eq!(memory[&3], defined(&[1, 2, 3]));
}

#[test]
fn resize_to_the_same_size_copies_everything() {
    let mut ctx = SubmitContext::new(1, 2, 3, 0);
    let mut buffer =
        AllocatedBuffer::new(&mut ctx, BUFFER_USAGE_TRANSFER_DST, AllocUsage::GpuOnly, 5, None);
    buffer.resize(&mut ctx, 5);
    assert_eq!(
        ctx.recorded().last(),
        Some(&DeviceOp::CopyBuffer { src: 1, dst: 2, src_offset: 0, dst_offset: 0, size: 5 })
    );
}

#[test]
fn destroy_hands_the_buffer_to_a_cleanup() {
    let mut ctx = SubmitContext::new(1, 2, 3, 0);
    let buffer =
        AllocatedBuffer::new(&mut ctx, BUFFER_USAGE_TRANSFER_DST, AllocUsage::GpuOnly, 5, None);
    match buffer.destroy() {
        Cleanup::Buffer(owned) => assert_eq!(owned.handle(), 1),
        other => panic!("unexpected cleanup {:?}", other),
    }
}

#[test]
fn copy_bytes_copies() {
    assert_eq!(copy_bytes(&[]), Vec::<u8>::new());
    assert_eq!(copy_bytes(&[3, 1, 2]), vec![3, 1, 2]);
}
