use ash::vk;
use gpu_resources::usage::{
    BUFFER_USAGE_INDEX_BUFFER, BUFFER_USAGE_SHADER_DEVICE_ADDRESS, BUFFER_USAGE_STORAGE_BUFFER,
    BUFFER_USAGE_TRANSFER_DST, BUFFER_USAGE_TRANSFER_SRC, IMAGE_ASPECT_COLOR, IMAGE_ASPECT_DEPTH,
    IMAGE_USAGE_DEPTH_STENCIL_ATTACHMENT, IMAGE_USAGE_SAMPLED, IMAGE_USAGE_TRANSFER_DST,
    IMAGE_USAGE_TRANSFER_SRC, MEMORY_DOWNLOAD, MEMORY_FAST_DEVICE_ACCESS, MEMORY_HOST_ACCESS,
    MEMORY_UPLOAD,
};

#[test]
fn buffer_usage_bits_are_the_vulkan_bits() {
    assert_eq!(BUFFER_USAGE_TRANSFER_SRC, vk::BufferUsageFlags::TRANSFER_SRC.as_raw());
    assert_eq!(BUFFER_USAGE_TRANSFER_DST, vk::BufferUsageFlags::TRANSFER_DST.as_raw());
    assert_eq!(BUFFER_USAGE_STORAGE_BUFFER, vk::BufferUsageFlags::STORAGE_BUFFER.as_raw());
    assert_eq!(BUFFER_USAGE_INDEX_BUFFER, vk::BufferUsageFlags::INDEX_BUFFER.as_raw());
    assert_eq!(
        BUFFER_USAGE_SHADER_DEVICE_ADDRESS,
        vk::BufferUsageFlags::SHADER_DEVICE_ADDRESS.as_raw()
    );
}

#[test]
fn image_usage_bits_are_the_vulkan_bits() {
    assert_eq!(IMAGE_USAGE_TRANSFER_SRC, vk::ImageUsageFlags::TRANSFER_SRC.as_raw());
    assert_eq!(IMAGE_USAGE_TRANSFER_DST, vk::ImageUsageFlags::TRANSFER_DST.as_raw());
    assert_eq!(IMAGE_USAGE_SAMPLED, vk::ImageUsageFlags::SAMPLED.as_raw());
    assert_eq!(
        IMAGE_USAGE_DEPTH_STENCIL_ATTACHMENT,
        vk::ImageUsageFlags::DEPTH_STENCIL_ATTACHMENT.as_raw()
    );
}

#[test]
fn image_aspect_bits_are_the_vulkan_bits() {
    assert_eq!(IMAGE_ASPECT_COLOR, vk::ImageAspectFlags::COLOR.as_raw());
    assert_eq!(IMAGE_ASPECT_DEPTH, vk::ImageAspectFlags::DEPTH.as_raw());
}

#[test]
fn memory_hint_bits_are_the_allocator_bits() {
    assert_eq!(MEMORY_FAST_DEVICE_ACCESS, gpu_alloc::UsageFlags::FAST_DEVICE_ACCESS.bits());
    assert_eq!(MEMORY_HOST_ACCESS, gpu_alloc::UsageFlags::HOST_ACCESS.bits());
    assert_eq!(MEMORY_DOWNLOAD, gpu_alloc::UsageFlags::DOWNLOAD.bits());
    assert_eq!(MEMORY_UPLOAD, gpu_alloc::UsageFlags::UPLOAD.bits());
}
