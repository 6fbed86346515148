//! Textures: sampled images with the sampler they are read through.

use crate::device::{
    label_model, DeviceOp, Extent3D, Filter, ImageFormat, ImageLayout, OpModel,
};
use crate::image::{
    after_create_image, after_image_write, created_image, transition_image, transition_op,
    AllocatedImage, ImageModel,
};
use crate::submit::{
    steps_model, Cleanup, CleanupModel, ContextModel, SubmitContext, Submission,
};
use crate::usage::{
    AllocUsage, IMAGE_ASPECT_COLOR, IMAGE_ASPECT_DEPTH, IMAGE_USAGE_DEPTH_STENCIL_ATTACHMENT,
    IMAGE_USAGE_SAMPLED, IMAGE_USAGE_TRANSFER_DST, IMAGE_USAGE_TRANSFER_SRC,
};
use vstd::prelude::*;

verus! {

/// Index of a sampler of the registry.
pub type SamplerId = usize;

/// Slot of a texture in the registry, which is also its index in shaders.
pub type TextureId = u32;

/// The format of colour textures.
pub const TEXTURE_IMAGE_FORMAT: ImageFormat = ImageFormat::R8G8B8A8Srgb;

/// The binding of the texture array in the bindless descriptor set.
pub const TEXTURE_BINDING: u32 = 2;

/// What a texture is used for.
#[derive(Debug, Copy, Clone, PartialEq, Eq, Structural)]
pub enum TextureKind {
    /// A colour texture that user interfaces list.
    Color,
    /// A colour texture that user interfaces do not list.
    ColorInternal,
    /// A depth texture, which is always internal.
    Depth,
}

/// The mathematical value of a [`Texture`].
pub struct TextureModel {
    pub id: TextureId,
    pub image: ImageModel,
    pub sampler: SamplerId,
    /// The pixels the texture was initialised with.
    pub data: Seq<u8>,
    pub kind: TextureKind,
}

/// The image usage bits of a texture of the given kind.
pub open spec fn texture_usage(kind: TextureKind) -> u32 {
    IMAGE_USAGE_TRANSFER_DST | IMAGE_USAGE_TRANSFER_SRC | IMAGE_USAGE_SAMPLED | if kind
        == TextureKind::Depth {
        IMAGE_USAGE_DEPTH_STENCIL_ATTACHMENT
    } else {
        0u32
    }
}

/// The image aspect of a texture of the given kind.
pub open spec fn texture_aspect(kind: TextureKind) -> u32 {
    if kind == TextureKind::Depth {
        IMAGE_ASPECT_DEPTH
    } else {
        IMAGE_ASPECT_COLOR
    }
}

/// The texture that a context creates next: not yet in a registry, so its
/// id is zero, and without pixels.
pub open spec fn created_texture(
    ctx: ContextModel,
    sampler: SamplerId,
    format: ImageFormat,
    label: Option<Seq<char>>,
    extent: Extent3D,
    kind: TextureKind,
) -> TextureModel {
    TextureModel {
        id: 0,
        image: created_image(ctx, extent, format, label),
        sampler,
        data: Seq::empty(),
        kind,
    }
}

/// The context after it has created a texture.
pub open spec fn after_create_texture(
    ctx: ContextModel,
    format: ImageFormat,
    label: Option<Seq<char>>,
    extent: Extent3D,
    kind: TextureKind,
) -> ContextModel {
    after_create_image(
        ctx,
        extent,
        format,
        texture_usage(kind),
        AllocUsage::GpuOnly,
        texture_aspect(kind),
        0,
        label,
    )
}

/// The context after it has created a texture and written `data` into it.
pub open spec fn after_create_texture_init(
    ctx: ContextModel,
    format: ImageFormat,
    label: Option<Seq<char>>,
    data: Seq<u8>,
    extent: Extent3D,
    kind: TextureKind,
) -> ContextModel {
    after_image_write(
        after_create_texture(ctx, format, label, extent, kind),
        created_image(ctx, extent, format, label),
        data,
    )
}

/// The context after the image of a texture of kind `kind` has been
/// replaced by a new one that holds `data`.
///
/// The new image is created and written. The old image is not destroyed: its
/// destruction joins the cleanups.
pub open spec fn after_replace_image(
    ctx: ContextModel,
    old_image: ImageModel,
    kind: TextureKind,
    label: Option<Seq<char>>,
    data: Seq<u8>,
    extent: Extent3D,
) -> ContextModel {
    let created = after_create_image(
        ctx,
        extent,
        TEXTURE_IMAGE_FORMAT,
        IMAGE_USAGE_TRANSFER_DST | IMAGE_USAGE_SAMPLED,
        AllocUsage::GpuOnly,
        texture_aspect(kind),
        0,
        label,
    );
    let written = after_image_write(
        created,
        created_image(ctx, extent, TEXTURE_IMAGE_FORMAT, label),
        data,
    );
    ContextModel { cleanup: written.cleanup.push(CleanupModel::Image(old_image)), ..written }
}

/// Whether the whole of `src` can be blitted to `pos` in another image
/// without leaving the range of signed 32-bit offsets.
pub open spec fn patch_fits(src: ImageModel, pos: (i32, i32)) -> bool {
    &&& src.extent.width <= i32::MAX
    &&& src.extent.height <= i32::MAX
    &&& i32::MIN <= src.extent.width + pos.0 <= i32::MAX
    &&& i32::MIN <= src.extent.height + pos.1 <= i32::MAX
}

/// The context after the whole of `src` has been blitted to `pos` in `dst`,
/// texel for texel.
///
/// Both images leave the shader-read-only layout for the blit and return to
/// it afterwards.
pub open spec fn after_patch(
    ctx: ContextModel,
    dst: TextureModel,
    src: TextureModel,
    pos: (i32, i32),
) -> ContextModel {
    ContextModel {
        work: ctx.work.push(
            transition_op(
                src.image.image,
                ImageLayout::ShaderReadOnlyOptimal,
                ImageLayout::TransferSrcOptimal,
            ),
        ).push(
            transition_op(
                dst.image.image,
                ImageLayout::ShaderReadOnlyOptimal,
                ImageLayout::TransferDstOptimal,
            ),
        ).push(
            OpModel::BlitImage {
                src: src.image.image,
                dst: dst.image.image,
                width: src.image.extent.width as i32,
                height: src.image.extent.height as i32,
                dst_x: pos.0,
                dst_y: pos.1,
                dst_width: src.image.extent.width as i32,
                dst_height: src.image.extent.height as i32,
                aspect: texture_aspect(dst.kind),
                filter: Filter::Nearest,
            },
        ).push(
            transition_op(
                src.image.image,
                ImageLayout::TransferSrcOptimal,
                ImageLayout::ShaderReadOnlyOptimal,
            ),
        ).push(
            transition_op(
                dst.image.image,
                ImageLayout::TransferDstOptimal,
                ImageLayout::ShaderReadOnlyOptimal,
            ),
        ),
        ..ctx
    }
}

/// A sampled image with the sampler it is read through and a copy of its
/// pixels.
#[derive(Debug)]
pub struct Texture {
    id: TextureId,
    image: AllocatedImage,
    sampler: SamplerId,
    data: Vec<u8>,
    kind: TextureKind,
}

impl View for Texture {
    type V = TextureModel;

    closed spec fn view(&self) -> TextureModel {
        TextureModel {
            id: self.id,
            image: self.image@,
            sampler: self.sampler,
            data: self.data@,
            kind: self.kind,
        }
    }
}

impl Texture {
    /// Creates a texture without pixels.
    ///
    /// A depth texture can also be rendered to as a depth attachment, and its
    /// view shows the depth aspect; every other texture shows colour.
    pub fn new(
        sampler: SamplerId,
        format: ImageFormat,
        ctx: &mut SubmitContext,
        label: Option<String>,
        extent: Extent3D,
        kind: TextureKind,
    ) -> (texture: Self)
        requires
            old(ctx)@.can_allocate(2),
        ensures
            texture@ == created_texture(
                old(ctx)@,
                sampler,
                format,
                label_model(label),
                extent,
                kind,
            ),
            final(ctx)@ == after_create_texture(
                old(ctx)@,
                format,
                label_model(label),
                extent,
                kind,
            ),
    {
        let depth = match kind {
            TextureKind::Depth => true,
            _ => false,
        };
        let image = AllocatedImage::new(
            ctx,
            extent,
            format,
            IMAGE_USAGE_TRANSFER_DST | IMAGE_USAGE_TRANSFER_SRC | IMAGE_USAGE_SAMPLED | if depth {
                IMAGE_USAGE_DEPTH_STENCIL_ATTACHMENT
            } else {
                0u32
            },
            AllocUsage::GpuOnly,
            if depth {
                IMAGE_ASPECT_DEPTH
            } else {
                IMAGE_ASPECT_COLOR
            },
            0,
            label,
        );
        Texture { id: 0, image, sampler, data: Vec::new(), kind }
    }

    /// Creates a texture and writes `data` into it. The texture keeps a copy
    /// of the pixels.
    pub fn new_init(
        sampler: SamplerId,
        format: ImageFormat,
        ctx: &mut SubmitContext,
        label: Option<String>,
        data: &[u8],
        extent: Extent3D,
        kind: TextureKind,
    ) -> (texture: Self)
        requires
            data@.len() > 0,
            old(ctx)@.can_allocate(3),
        ensures
            texture@ == (TextureModel {
                data: data@,
                ..created_texture(old(ctx)@, sampler, format, label_model(label), extent, kind)
            }),
            final(ctx)@ == after_create_texture_init(
                old(ctx)@,
                format,
                label_model(label),
                data@,
                extent,
                kind,
            ),
    {
        let mut texture = Texture::new(sampler, format, ctx, label, extent, kind);
        texture.image.write(data, ctx);
        texture.data = crate::buffer::copy_bytes(data);
        texture
    }

    /// Replaces the image of the texture by a new colour-format image of
    /// size `extent` that holds `data`.
    ///
    /// The old image is handed to the context's cleanups, because work that
    /// is still in flight may read it.
    pub fn replace_image(
        &mut self,
        ctx: &mut SubmitContext,
        label: Option<String>,
        data: &[u8],
        extent: Extent3D,
    )
        requires
            data@.len() > 0,
            old(ctx)@.can_allocate(3),
        ensures
            final(self)@ == (TextureModel {
                image: created_image(old(ctx)@, extent, TEXTURE_IMAGE_FORMAT, label_model(label)),
                ..old(self)@
            }),
            final(ctx)@ == after_replace_image(
                old(ctx)@,
                old(self)@.image,
                old(self)@.kind,
                label_model(label),
                data@,
                extent,
            ),
    {
        let depth = match self.kind {
            TextureKind::Depth => true,
            _ => false,
        };
        let mut image = AllocatedImage::new(
            ctx,
            extent,
            TEXTURE_IMAGE_FORMAT,
            IMAGE_USAGE_TRANSFER_DST | IMAGE_USAGE_SAMPLED,
            AllocUsage::GpuOnly,
            if depth {
                IMAGE_ASPECT_DEPTH
            } else {
                IMAGE_ASPECT_COLOR
            },
            0,
            label,
        );
        image.write(data, ctx);
        core::mem::swap(&mut self.image, &mut image);
        ctx.add_cleanup(Cleanup::Image(image));
    }

    /// Blits the whole of `src` onto this texture at `pos`, in a submission
    /// of its own. Nothing is allocated.
    pub fn patch(&self, ctx: SubmitContext, src: &Texture, pos: (i32, i32)) -> (submission:
        Submission)
        requires
            patch_fits(src@.image, pos),
        ensures
            steps_model(submission.steps@) == after_patch(ctx@, self@, src@, pos).script(),
            submission.last_handle == ctx@.last_handle,
    {
        let src_image = src.image.image();
        let dst_image = self.image.image();
        let width = src.image.extent().width as i32;
        let height = src.image.extent().height as i32;
        let aspect = match self.kind {
            TextureKind::Depth => IMAGE_ASPECT_DEPTH,
            _ => IMAGE_ASPECT_COLOR,
        };
        let ghost start = ctx@;
        let ghost dst = self@;
        let ghost source = src@;
        let record = |ctx: &mut SubmitContext|
            requires
                (*ctx)@ == start,
            ensures
                (*final(ctx))@ == after_patch(start, dst, source, pos),
            {
                transition_image(
                    ctx,
                    src_image,
                    ImageLayout::ShaderReadOnlyOptimal,
                    ImageLayout::TransferSrcOptimal,
                );
                transition_image(
                    ctx,
                    dst_image,
                    ImageLayout::ShaderReadOnlyOptimal,
                    ImageLayout::TransferDstOptimal,
                );
                ctx.record(
                    DeviceOp::BlitImage {
                        src: src_image,
                        dst: dst_image,
                        width,
                        height,
                        dst_x: pos.0,
                        dst_y: pos.1,
                        dst_width: width,
                        dst_height: height,
                        aspect,
                        filter: Filter::Nearest,
                    },
                );
                transition_image(
                    ctx,
                    src_image,
                    ImageLayout::TransferSrcOptimal,
                    ImageLayout::ShaderReadOnlyOptimal,
                );
                transition_image(
                    ctx,
                    dst_image,
                    ImageLayout::TransferDstOptimal,
                    ImageLayout::ShaderReadOnlyOptimal,
                );
            };
        let (_, submission) = ctx.immediate_submit(record);
        submission
    }

    /// The texture with `id` as its slot. Only a registry hands out slots.
    pub(crate) fn with_id(self, id: TextureId) -> (texture: Self)
        ensures
            texture@ == (TextureModel { id, ..self@ }),
    {
        let mut texture = self;
        texture.id = id;
        texture
    }

    /// The destruction of the texture's image, for a context or a deletion
    /// queue to run when the device is done with the texture.
    pub fn destroy(self) -> (cleanup: Cleanup)
        ensures
            cleanup@ == CleanupModel::Image(self@.image),
    {
        let Texture { id: _, image, sampler: _, data: _, kind: _ } = self;
        Cleanup::Image(image)
    }

    /// The slot of the texture in its registry.
    pub fn id(&self) -> (id: TextureId)
        ensures
            id == self@.id,
    {
        self.id
    }

    /// The image of the texture.
    pub fn image(&self) -> (image: &AllocatedImage)
        ensures
            image@ == self@.image,
    {
        &self.image
    }

    /// The sampler the texture is read through.
    pub fn sampler(&self) -> (sampler: SamplerId)
        ensures
            sampler == self@.sampler,
    {
        self.sampler
    }

    /// The pixels the texture was initialised with.
    pub fn data(&self) -> (data: &Vec<u8>)
        ensures
            data@ == self@.data,
    {
        &self.data
    }

    /// What the texture is used for.
    pub fn kind(&self) -> (kind: TextureKind)
        ensures
            kind == self@.kind,
    {
        self.kind
    }
}

} // verus!
