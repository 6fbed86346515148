//! The device work the core asks for, as plain data.

use crate::usage::AllocUsage;
use vstd::prelude::*;

verus! {

/// A handle of a device resource. Handles are handed out by a submission
/// context, never reused, and never zero.
pub type Handle = u64;

/// Size of a surface in texels.
#[derive(Debug, Copy, Clone, PartialEq, Eq, Structural)]
pub struct Extent2D {
    pub width: u32,
    pub height: u32,
}

/// Size of an image in texels.
#[derive(Debug, Copy, Clone, PartialEq, Eq, Structural)]
pub struct Extent3D {
    pub width: u32,
    pub height: u32,
    pub depth: u32,
}

/// The image layouts the core moves images between.
#[derive(Debug, Copy, Clone, PartialEq, Eq, Structural)]
pub enum ImageLayout {
    Undefined,
    TransferSrcOptimal,
    TransferDstOptimal,
    ShaderReadOnlyOptimal,
    DepthAttachmentOptimal,
}

/// The texel formats the core creates images in.
#[derive(Debug, Copy, Clone, PartialEq, Eq, Structural)]
pub enum ImageFormat {
    /// Four 8-bit channels, sRGB encoded, red first.
    R8G8B8A8Srgb,
    /// Four 8-bit channels, sRGB encoded, blue first.
    B8G8R8A8Srgb,
    /// One 32-bit float depth channel.
    D32Sfloat,
}

/// How a sampler or a blit filters texels.
#[derive(Debug, Copy, Clone, PartialEq, Eq, Structural)]
pub enum Filter {
    Nearest,
    Linear,
}

/// The kinds of descriptor the core writes.
#[derive(Debug, Copy, Clone, PartialEq, Eq, Structural)]
pub enum DescriptorType {
    CombinedImageSampler,
    StorageImage,
    UniformBuffer,
    StorageBuffer,
}

/// One buffer entry of a descriptor-set update: `size` bytes of `buffer`
/// from `offset` on, written to element `array_index` of `binding`.
#[derive(Debug, Copy, Clone, PartialEq, Eq, Structural)]
pub struct DescriptorBufferWriteInfo {
    pub binding: u32,
    pub array_index: u32,
    pub buffer: Handle,
    pub size: u64,
    pub offset: u64,
    pub ty: DescriptorType,
}

/// One image entry of a descriptor-set update: the image view and sampler
/// written to element `array_index` of `binding`.
#[derive(Debug, Copy, Clone, PartialEq, Eq, Structural)]
pub struct DescriptorImageWriteInfo {
    pub binding: u32,
    pub array_index: u32,
    pub image_view: Handle,
    pub sampler: Handle,
    pub layout: ImageLayout,
    pub ty: DescriptorType,
}

/// One piece of device work, in the order it was asked for.
#[derive(Debug, PartialEq, Eq)]
pub enum DeviceOp {
    /// Create a buffer of `size` bytes and bind freshly allocated memory.
    CreateBuffer { buffer: Handle, size: u64, usage: u32, memory: AllocUsage, label: Option<String> },
    /// Create a 2D image with one mip level and one layer, bind memory, and
    /// create the view `view` onto it.
    CreateImage {
        image: Handle,
        view: Handle,
        extent: Extent3D,
        format: ImageFormat,
        usage: u32,
        memory: AllocUsage,
        aspect: u32,
        flags: u32,
        label: Option<String>,
    },
    /// Create a sampler that repeats in every direction.
    CreateSampler { sampler: Handle, filter: Filter },
    /// Map a host-visible buffer and copy `data` to its start.
    Upload { buffer: Handle, data: Vec<u8> },
    /// Record a buffer-to-buffer copy.
    CopyBuffer { src: Handle, dst: Handle, src_offset: u64, dst_offset: u64, size: u64 },
    /// Record a layout transition of the given aspect of an image.
    TransitionImage { image: Handle, old_layout: ImageLayout, new_layout: ImageLayout, aspect: u32 },
    /// Record a copy of a tightly packed buffer into the whole colour image.
    CopyBufferToImage { buffer: Handle, image: Handle, extent: Extent3D },
    /// Record a blit of the whole source image, `width` by `height` texels,
    /// onto the rectangle of the destination that starts at `dst_x`,
    /// `dst_y` and is `dst_width` by `dst_height` texels large.
    BlitImage {
        src: Handle,
        dst: Handle,
        width: i32,
        height: i32,
        dst_x: i32,
        dst_y: i32,
        dst_width: i32,
        dst_height: i32,
        aspect: u32,
        filter: Filter,
    },
    /// Update a descriptor set in one call: the buffer writes first, then
    /// the image writes, each in order.
    UpdateDescriptorSet {
        set: Handle,
        buffer_writes: Vec<DescriptorBufferWriteInfo>,
        image_writes: Vec<DescriptorImageWriteInfo>,
    },
}

/// The mathematical value of a [`DeviceOp`].
pub enum OpModel {
    CreateBuffer {
        buffer: Handle,
        size: u64,
        usage: u32,
        memory: AllocUsage,
        label: Option<Seq<char>>,
    },
    CreateImage {
        image: Handle,
        view: Handle,
        extent: Extent3D,
        format: ImageFormat,
        usage: u32,
        memory: AllocUsage,
        aspect: u32,
        flags: u32,
        label: Option<Seq<char>>,
    },
    CreateSampler { sampler: Handle, filter: Filter },
    Upload { buffer: Handle, data: Seq<u8> },
    CopyBuffer { src: Handle, dst: Handle, src_offset: u64, dst_offset: u64, size: u64 },
    TransitionImage { image: Handle, old_layout: ImageLayout, new_layout: ImageLayout, aspect: u32 },
    CopyBufferToImage { buffer: Handle, image: Handle, extent: Extent3D },
    BlitImage {
        src: Handle,
        dst: Handle,
        width: i32,
        height: i32,
        dst_x: i32,
        dst_y: i32,
        dst_width: i32,
        dst_height: i32,
        aspect: u32,
        filter: Filter,
    },
    UpdateDescriptorSet {
        set: Handle,
        buffer_writes: Seq<DescriptorBufferWriteInfo>,
        image_writes: Seq<DescriptorImageWriteInfo>,
    },
}

/// The mathematical value of an optional label.
pub open spec fn label_model(label: Option<String>) -> Option<Seq<char>> {
    match label {
        Some(text) => Some(text@),
        None => None,
    }
}

impl View for DeviceOp {
    type V = OpModel;

    open spec fn view(&self) -> OpModel {
        match *self {
            DeviceOp::CreateBuffer { buffer, size, usage, memory, label } => OpModel::CreateBuffer {
                buffer,
                size,
                usage,
                memory,
                label: label_model(label),
            },
            DeviceOp::CreateImage {
                image,
                view,
                extent,
                format,
                usage,
                memory,
                aspect,
                flags,
                label,
            } => OpModel::CreateImage {
                image,
                view,
                extent,
                format,
                usage,
                memory,
                aspect,
                flags,
                label: label_model(label),
            },
            DeviceOp::CreateSampler { sampler, filter } => OpModel::CreateSampler {
                sampler,
                filter,
            },
            DeviceOp::Upload { buffer, data } => OpModel::Upload { buffer, data: data@ },
            DeviceOp::CopyBuffer { src, dst, src_offset, dst_offset, size } => OpModel::CopyBuffer {
                src,
                dst,
                src_offset,
                dst_offset,
                size,
            },
            DeviceOp::TransitionImage { image, old_layout, new_layout, aspect } => {
                OpModel::TransitionImage { image, old_layout, new_layout, aspect }
            },
            DeviceOp::CopyBufferToImage { buffer, image, extent } => OpModel::CopyBufferToImage {
                buffer,
                image,
                extent,
            },
            DeviceOp::BlitImage {
                src,
                dst,
                width,
                height,
                dst_x,
                dst_y,
                dst_width,
                dst_height,
                aspect,
                filter,
            } => OpModel::BlitImage {
                src,
                dst,
                width,
                height,
                dst_x,
                dst_y,
                dst_width,
                dst_height,
                aspect,
                filter,
            },
            DeviceOp::UpdateDescriptorSet { set, buffer_writes, image_writes } => {
                OpModel::UpdateDescriptorSet {
                    set,
                    buffer_writes: buffer_writes@,
                    image_writes: image_writes@,
                }
            },
        }
    }
}

/// The mathematical values of a list of device work, in order.
pub open spec fn ops_model(ops: Seq<DeviceOp>) -> Seq<OpModel> {
    ops.map_values(|op: DeviceOp| op@)
}

/// Appending one piece of work appends its value.
pub proof fn lemma_ops_model_push(ops: Seq<DeviceOp>, op: DeviceOp)
    ensures
        ops_model(ops.push(op)) == ops_model(ops).push(op@),
{
}

/// Concatenating two lists of work concatenates their values.
pub proof fn lemma_ops_model_concat(first: Seq<DeviceOp>, second: Seq<DeviceOp>)
    ensures
        ops_model(first + second) == ops_model(first) + ops_model(second),
{
}

/// A clone of an optional label with the same text.
pub fn clone_label(label: &Option<String>) -> (copy: Option<String>)
    ensures
        copy == *label,
{
    match label {
        Some(text) => Some(text.clone()),
        None => None,
    }
}

} // verus!
