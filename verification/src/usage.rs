//! Memory-usage classes of an allocation, and the Vulkan flag bits the core
//! works with.

use vstd::prelude::*;

verus! {

/// Buffer usage bit: source of a transfer.
pub const BUFFER_USAGE_TRANSFER_SRC: u32 = 0x1;

/// Buffer usage bit: destination of a transfer.
pub const BUFFER_USAGE_TRANSFER_DST: u32 = 0x2;

/// Buffer usage bit: storage buffer.
pub const BUFFER_USAGE_STORAGE_BUFFER: u32 = 0x20;

/// Buffer usage bit: index buffer.
pub const BUFFER_USAGE_INDEX_BUFFER: u32 = 0x40;

/// Buffer usage bit: the buffer's device address may be queried.
pub const BUFFER_USAGE_SHADER_DEVICE_ADDRESS: u32 = 0x20000;

/// Image usage bit: source of a transfer.
pub const IMAGE_USAGE_TRANSFER_SRC: u32 = 0x1;

/// Image usage bit: destination of a transfer.
pub const IMAGE_USAGE_TRANSFER_DST: u32 = 0x2;

/// Image usage bit: sampled in shaders.
pub const IMAGE_USAGE_SAMPLED: u32 = 0x4;

/// Image usage bit: depth/stencil attachment.
pub const IMAGE_USAGE_DEPTH_STENCIL_ATTACHMENT: u32 = 0x20;

/// Image aspect bit: colour.
pub const IMAGE_ASPECT_COLOR: u32 = 0x1;

/// Image aspect bit: depth.
pub const IMAGE_ASPECT_DEPTH: u32 = 0x2;

/// Allocator hint bit: fast device access.
pub const MEMORY_FAST_DEVICE_ACCESS: u8 = 0x01;

/// Allocator hint bit: the host accesses the memory.
pub const MEMORY_HOST_ACCESS: u8 = 0x02;

/// Allocator hint bit: the host reads data back.
pub const MEMORY_DOWNLOAD: u8 = 0x04;

/// Allocator hint bit: the host uploads data.
pub const MEMORY_UPLOAD: u8 = 0x08;

/// `gpu_alloc::UsageFlags`, carried through as an opaque value.
#[verifier::external_type_specification]
#[verifier::external_body]
pub struct ExUsageFlags(gpu_alloc::UsageFlags);

/// The flag set that `gpu_alloc::UsageFlags::from_bits_truncate` builds from
/// a bit pattern.
pub uninterp spec fn usage_flags_of(bits: u8) -> gpu_alloc::UsageFlags;

/// Calls `gpu_alloc::UsageFlags::from_bits_truncate`. The contract only gives
/// the result its name: the same bits always give the same flag set.
#[verifier::external_body]
fn usage_flags_from_bits(bits: u8) -> (flags: gpu_alloc::UsageFlags)
    ensures
        flags == usage_flags_of(bits),
{
    gpu_alloc::UsageFlags::from_bits_truncate(bits)
}

/// `gpu_alloc::Request`, carried through as an opaque value.
#[verifier::external_type_specification]
#[verifier::external_body]
pub struct ExRequest(gpu_alloc::Request);

/// The `gpu_alloc::Request` with the given size, alignment mask and memory
/// types, whose usage is the flag set that
/// `gpu_alloc::UsageFlags::from_bits_truncate` builds from `usage_bits`.
pub uninterp spec fn request_of(
    size: u64,
    align_mask: u64,
    usage_bits: u8,
    memory_types: u32,
) -> gpu_alloc::Request;

/// Builds a `gpu_alloc::Request` from its four fields, the usage through
/// `gpu_alloc::UsageFlags::from_bits_truncate`. The contract only gives the
/// result its name: the same fields always give the same request.
#[verifier::external_body]
fn make_request(size: u64, align_mask: u64, usage_bits: u8, memory_types: u32) -> (request:
    gpu_alloc::Request)
    ensures
        request == request_of(size, align_mask, usage_bits, memory_types),
{
    let usage = gpu_alloc::UsageFlags::from_bits_truncate(usage_bits);
    gpu_alloc::Request { size, align_mask, usage, memory_types }
}

/// How an allocation is going to be used, which decides the kind of memory
/// the allocator looks for.
#[derive(Debug, Copy, Clone, PartialEq, Eq, Structural)]
pub enum AllocUsage {
    /// Device-local memory the host never touches.
    GpuOnly,
    /// Memory both the host and the device read and write.
    Shared,
    /// Host-visible memory used to move data to or from the device.
    UploadToHost,
}

impl AllocUsage {
    /// The allocator hint bits of this usage class.
    pub open spec fn spec_bits(self) -> u8 {
        match self {
            AllocUsage::GpuOnly => MEMORY_FAST_DEVICE_ACCESS,
            AllocUsage::Shared => MEMORY_HOST_ACCESS | MEMORY_FAST_DEVICE_ACCESS | MEMORY_DOWNLOAD
                | MEMORY_UPLOAD,
            AllocUsage::UploadToHost => MEMORY_DOWNLOAD | MEMORY_UPLOAD,
        }
    }

    /// The allocator hint bits of this usage class.
    pub fn bits(&self) -> (bits: u8)
        ensures
            bits == self.spec_bits(),
    {
        match self {
            AllocUsage::GpuOnly => MEMORY_FAST_DEVICE_ACCESS,
            AllocUsage::Shared => MEMORY_HOST_ACCESS | MEMORY_FAST_DEVICE_ACCESS | MEMORY_DOWNLOAD
                | MEMORY_UPLOAD,
            AllocUsage::UploadToHost => MEMORY_DOWNLOAD | MEMORY_UPLOAD,
        }
    }

    /// The allocator's flag set for this usage class.
    pub fn flags(&self) -> (flags: gpu_alloc::UsageFlags)
        ensures
            flags == usage_flags_of(self.spec_bits()),
    {
        usage_flags_from_bits(self.bits())
    }

    /// The request to the allocator for memory of this usage class that
    /// meets what the device requires of a resource: `size` bytes, aligned
    /// to `alignment`, which is a power of two, in one of the memory types
    /// of `memory_type_bits`.
    pub fn request(&self, size: u64, alignment: u64, memory_type_bits: u32) -> (request:
        gpu_alloc::Request)
        requires
            alignment > 0,
        ensures
            request == request_of(
                size,
                (alignment - 1) as u64,
                self.spec_bits(),
                memory_type_bits,
            ),
    {
        make_request(size, alignment - 1, self.bits(), memory_type_bits)
    }
}

/// The three usage classes ask for the hint bits 0x01, 0x0f and 0x0c.
pub proof fn lemma_alloc_usage_bits()
    ensures
        AllocUsage::GpuOnly.spec_bits() == 0x01,
        AllocUsage::Shared.spec_bits() == 0x0f,
        AllocUsage::UploadToHost.spec_bits() == 0x0c,
{
    assert(0x02u8 | 0x01u8 | 0x04u8 | 0x08u8 == 0x0fu8) by (bit_vector);
    assert(0x04u8 | 0x08u8 == 0x0cu8) by (bit_vector);
}

} // verus!
