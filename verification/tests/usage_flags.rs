use gpu_resources::usage::AllocUsage;

#[test]
fn gpu_only_asks_for_fast_device_access() {
    assert_eq!(AllocUsage::GpuOnly.flags(), gpu_alloc::UsageFlags::FAST_DEVICE_ACCESS);
    assert_eq!(AllocUsage::GpuOnly.bits(), 0x01);
}

#[test]
fn shared_asks_for_host_and_device_access() {
    assert_eq!(
        AllocUsage::Shared.flags(),
        gpu_alloc::UsageFlags::HOST_ACCESS
            | gpu_alloc::UsageFlags::FAST_DEVICE_ACCESS
            | gpu_alloc::UsageFlags::DOWNLOAD
            | gpu_alloc::UsageFlags::UPLOAD
    );
    assert_eq!(AllocUsage::Shared.bits(), 0x0f);
}

#[test]
fn upload_to_host_asks_for_both_transfer_directions() {
    assert_eq!(
        AllocUsage::UploadToHost.flags(),
        gpu_alloc::UsageFlags::DOWNLOAD | gpu_alloc::UsageFlags::UPLOAD
    );
    assert_eq!(AllocUsage::UploadToHost.bits(), 0x0c);
}

#[test]
fn request_masks_the_alignment_and_carries_the_usage() {
    let request = AllocUsage::Shared.request(256, 64, 0b101);
    assert_eq!(
        request,
        gpu_alloc::Request {
            size: 256,
            align_mask: 63,
            usage: gpu_alloc::UsageFlags::HOST_ACCESS
                | gpu_alloc::UsageFlags::FAST_DEVICE_ACCESS
                | gpu_alloc::UsageFlags::DOWNLOAD
                | gpu_alloc::UsageFlags::UPLOAD,
            memory_types: 0b101,
        }
    );
    let request = AllocUsage::GpuOnly.request(1, 1, u32::MAX);
    assert_eq!(request.align_mask, 0);
    assert_eq!(request.usage, gpu_alloc::UsageFlags::FAST_DEVICE_ACCESS);
    assert_eq!(request.size, 1);
    assert_eq!(request.memory_types, u32::MAX);
}
