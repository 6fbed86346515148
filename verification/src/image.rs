//! Images that own their device memory and their view: creation and staged
//! writes with the layout transitions around them.

use crate::buffer::{after_create_buffer, created_buffer, AllocatedBuffer, BufferModel};
use crate::device::{
    clone_label, label_model, DeviceOp, Extent2D, Extent3D, Filter, Handle, ImageFormat,
    ImageLayout, OpModel,
};
use crate::submit::{Cleanup, CleanupModel, ContextModel, SubmitContext};
use crate::usage::{
    AllocUsage, BUFFER_USAGE_TRANSFER_SRC, IMAGE_ASPECT_COLOR, IMAGE_ASPECT_DEPTH,
};
use vstd::prelude::*;
use vstd::string::*;

verus! {

/// The mathematical value of an [`AllocatedImage`].
pub struct ImageModel {
    pub image: Handle,
    pub view: Handle,
    pub extent: Extent3D,
    pub format: ImageFormat,
    pub label: Option<Seq<char>>,
}

/// The image that a context creates next. The image takes the next handle
/// and its view the one after.
pub open spec fn created_image(
    ctx: ContextModel,
    extent: Extent3D,
    format: ImageFormat,
    label: Option<Seq<char>>,
) -> ImageModel {
    ImageModel {
        image: (ctx.last_handle + 1) as u64,
        view: (ctx.last_handle + 2) as u64,
        extent,
        format,
        label,
    }
}

/// The context after it has created an image: two handles are used up and
/// one creation is recorded.
pub open spec fn after_create_image(
    ctx: ContextModel,
    extent: Extent3D,
    format: ImageFormat,
    usage: u32,
    memory: AllocUsage,
    aspect: u32,
    flags: u32,
    label: Option<Seq<char>>,
) -> ContextModel {
    let image = created_image(ctx, extent, format, label);
    ContextModel {
        last_handle: image.view,
        work: ctx.work.push(
            OpModel::CreateImage {
                image: image.image,
                view: image.view,
                extent,
                format,
                usage,
                memory,
                aspect,
                flags,
                label,
            },
        ),
        ..ctx
    }
}

/// The aspect a layout transition covers: depth when the image becomes a
/// depth attachment, colour otherwise.
pub open spec fn transition_aspect(new_layout: ImageLayout) -> u32 {
    if new_layout == ImageLayout::DepthAttachmentOptimal {
        IMAGE_ASPECT_DEPTH
    } else {
        IMAGE_ASPECT_COLOR
    }
}

/// The layout transition of `image` from `old_layout` to `new_layout`.
pub open spec fn transition_op(
    image: Handle,
    old_layout: ImageLayout,
    new_layout: ImageLayout,
) -> OpModel {
    OpModel::TransitionImage {
        image,
        old_layout,
        new_layout,
        aspect: transition_aspect(new_layout),
    }
}

/// Records a layout transition of `image`. The barrier makes every earlier
/// write visible to every later read and write.
pub fn transition_image(
    ctx: &mut SubmitContext,
    image: Handle,
    current_layout: ImageLayout,
    new_layout: ImageLayout,
)
    ensures
        final(ctx)@ == (ContextModel {
            work: old(ctx)@.work.push(transition_op(image, current_layout, new_layout)),
            ..old(ctx)@
        }),
{
    let aspect = match new_layout {
        ImageLayout::DepthAttachmentOptimal => IMAGE_ASPECT_DEPTH,
        _ => IMAGE_ASPECT_COLOR,
    };
    ctx.record(
        DeviceOp::TransitionImage { image, old_layout: current_layout, new_layout, aspect },
    );
}

/// Whether both sizes fit signed 32-bit offsets.
pub open spec fn blit_fits(src_extent: Extent2D, dst_extent: Extent2D) -> bool {
    &&& src_extent.width <= i32::MAX
    &&& src_extent.height <= i32::MAX
    &&& dst_extent.width <= i32::MAX
    &&& dst_extent.height <= i32::MAX
}

/// The blit of the whole of a colour image onto the whole of another, scaled
/// with linear filtering where the sizes differ.
pub open spec fn copy_op(
    source: Handle,
    destination: Handle,
    src_extent: Extent2D,
    dst_extent: Extent2D,
) -> OpModel {
    OpModel::BlitImage {
        src: source,
        dst: destination,
        width: src_extent.width as i32,
        height: src_extent.height as i32,
        dst_x: 0,
        dst_y: 0,
        dst_width: dst_extent.width as i32,
        dst_height: dst_extent.height as i32,
        aspect: IMAGE_ASPECT_COLOR,
        filter: Filter::Linear,
    }
}

/// Records a copy of the whole of one colour image onto the whole of
/// another. The source is in the transfer-source layout and the destination
/// in the transfer-destination layout.
pub fn copy_image_to_image(
    ctx: &mut SubmitContext,
    source: Handle,
    destination: Handle,
    src_extent: Extent2D,
    dst_extent: Extent2D,
)
    requires
        blit_fits(src_extent, dst_extent),
    ensures
        final(ctx)@ == (ContextModel {
            work: old(ctx)@.work.push(copy_op(source, destination, src_extent, dst_extent)),
            ..old(ctx)@
        }),
{
    ctx.record(
        DeviceOp::BlitImage {
            src: source,
            dst: destination,
            width: src_extent.width as i32,
            height: src_extent.height as i32,
            dst_x: 0,
            dst_y: 0,
            dst_width: dst_extent.width as i32,
            dst_height: dst_extent.height as i32,
            aspect: IMAGE_ASPECT_COLOR,
            filter: Filter::Linear,
        },
    );
}

/// The label of the staging buffer of a write into an image labelled `label`.
pub open spec fn image_staging_label(label: Option<Seq<char>>) -> Seq<char> {
    "Staging buffer for image '"@ + match label {
        Some(text) => text,
        None => Seq::empty(),
    } + "'"@
}

/// The staging buffer of a write of `len` bytes into `target`.
pub open spec fn image_staging_buffer(ctx: ContextModel, target: ImageModel, len: u64) -> BufferModel {
    created_buffer(
        ctx,
        BUFFER_USAGE_TRANSFER_SRC,
        AllocUsage::UploadToHost,
        len,
        Some(image_staging_label(target.label)),
    )
}

/// The context after a write of `data` into `target`.
///
/// The write creates a staging buffer and uploads the data into it, moves the
/// image into the transfer-destination layout, records the copy, and moves
/// the image into the shader-read-only layout. The staging buffer is not
/// destroyed: its destruction joins the cleanups.
pub open spec fn after_image_write(ctx: ContextModel, target: ImageModel, data: Seq<u8>) -> ContextModel {
    let len = data.len() as u64;
    let staging = image_staging_buffer(ctx, target, len);
    let created = after_create_buffer(
        ctx,
        BUFFER_USAGE_TRANSFER_SRC,
        AllocUsage::UploadToHost,
        len,
        Some(image_staging_label(target.label)),
    );
    ContextModel {
        work: created.work.push(OpModel::Upload { buffer: staging.handle, data }).push(
            transition_op(target.image, ImageLayout::Undefined, ImageLayout::TransferDstOptimal),
        ).push(
            OpModel::CopyBufferToImage {
                buffer: staging.handle,
                image: target.image,
                extent: target.extent,
            },
        ).push(
            transition_op(
                target.image,
                ImageLayout::TransferDstOptimal,
                ImageLayout::ShaderReadOnlyOptimal,
            ),
        ),
        cleanup: created.cleanup.push(CleanupModel::Buffer(staging)),
        ..created
    }
}

/// A device image together with its view and the memory bound to it.
///
/// Neither handle is ever zero. An image is destroyed by moving it into a
/// [`Cleanup`], which can happen only once.
#[derive(Debug)]
pub struct AllocatedImage {
    image: Handle,
    view: Handle,
    extent: Extent3D,
    format: ImageFormat,
    label: Option<String>,
}

impl View for AllocatedImage {
    type V = ImageModel;

    closed spec fn view(&self) -> ImageModel {
        ImageModel {
            image: self.image,
            view: self.view,
            extent: self.extent,
            format: self.format,
            label: label_model(self.label),
        }
    }
}

/// The label of the staging buffer of a write into an image labelled `label`.
fn image_staging_label_for(label: &Option<String>) -> (text: String)
    ensures
        text@ == image_staging_label(label_model(*label)),
{
    let prefix = "Staging buffer for image '".to_owned();
    match label {
        Some(name) => prefix.concat(name.as_str()).concat("'"),
        None => {
            prefix.concat("'")
        },
    }
}

impl AllocatedImage {
    #[verifier::type_invariant]
    spec fn inv(self) -> bool {
        self.image != 0 && self.view != 0
    }

    /// Creates a 2D image with one mip level and one layer in memory of class
    /// `alloc_usages`, and a view of the aspect `image_aspect` onto it.
    pub fn new(
        ctx: &mut SubmitContext,
        extent: Extent3D,
        format: ImageFormat,
        image_usages: u32,
        alloc_usages: AllocUsage,
        image_aspect: u32,
        flags: u32,
        label: Option<String>,
    ) -> (image: Self)
        requires
            old(ctx)@.can_allocate(2),
        ensures
            image@ == created_image(old(ctx)@, extent, format, label_model(label)),
            final(ctx)@ == after_create_image(
                old(ctx)@,
                extent,
                format,
                image_usages,
                alloc_usages,
                image_aspect,
                flags,
                label_model(label),
            ),
    {
        let image = ctx.fresh_handle();
        let view = ctx.fresh_handle();
        ctx.record(
            DeviceOp::CreateImage {
                image,
                view,
                extent,
                format,
                usage: image_usages,
                memory: alloc_usages,
                aspect: image_aspect,
                flags,
                label: clone_label(&label),
            },
        );
        AllocatedImage { image, view, extent, format, label }
    }

    /// The handle of the image.
    pub fn image(&self) -> (image: Handle)
        ensures
            image == self@.image,
            image != 0,
    {
        proof {
            use_type_invariant(self);
        }
        self.image
    }

    /// The handle of the view onto the image.
    pub fn view_handle(&self) -> (view: Handle)
        ensures
            view == self@.view,
            view != 0,
    {
        proof {
            use_type_invariant(self);
        }
        self.view
    }

    /// The size of the image.
    pub fn extent(&self) -> (extent: Extent3D)
        ensures
            extent == self@.extent,
    {
        self.extent
    }

    /// The texel format of the image.
    pub fn format(&self) -> (format: ImageFormat)
        ensures
            format == self@.format,
    {
        self.format
    }

    /// The label of the image.
    pub fn label(&self) -> (label: &Option<String>)
        ensures
            label_model(*label) == self@.label,
    {
        &self.label
    }

    /// The destruction of the image, for a context or a deletion queue to
    /// run when the device is done with the image.
    pub fn destroy(self) -> (cleanup: Cleanup)
        ensures
            cleanup@ == CleanupModel::Image(self@),
    {
        Cleanup::Image(self)
    }

    /// Writes `data` into the whole image and leaves the image readable by
    /// shaders.
    ///
    /// The data goes through a staging buffer that lives until the batch has
    /// run on the device. Empty data is not accepted.
    pub fn write(&self, data: &[u8], ctx: &mut SubmitContext)
        requires
            data@.len() > 0,
            old(ctx)@.can_allocate(1),
        ensures
            final(ctx)@ == after_image_write(old(ctx)@, self@, data@),
    {
        let staging = AllocatedBuffer::new(
            ctx,
            BUFFER_USAGE_TRANSFER_SRC,
            AllocUsage::UploadToHost,
            data.len() as u64,
            Some(image_staging_label_for(&self.label)),
        );
        ctx.record(
            DeviceOp::Upload { buffer: staging.handle(), data: crate::buffer::copy_bytes(data) },
        );
        transition_image(ctx, self.image, ImageLayout::Undefined, ImageLayout::TransferDstOptimal);
        ctx.record(
            DeviceOp::CopyBufferToImage {
                buffer: staging.handle(),
                image: self.image,
                extent: self.extent,
            },
        );
        transition_image(
            ctx,
            self.image,
            ImageLayout::TransferDstOptimal,
            ImageLayout::ShaderReadOnlyOptimal,
        );
        ctx.add_cleanup(Cleanup::Buffer(staging));
    }
}

} // verus!
