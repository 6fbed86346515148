//! The bindless texture registry: a slot array whose occupied slots are
//! published to shaders through one descriptor set.

use crate::deletion::DeletionQueue;
use crate::descriptor::update_set;
use crate::device::{
    label_model, DescriptorBufferWriteInfo, DescriptorImageWriteInfo, DescriptorType, DeviceOp,
    Extent3D, Filter, Handle, ImageLayout, OpModel,
};
use crate::image::created_image;
use crate::submit::{
    reversed, Cleanup, CleanupModel, ContextModel, ObjectKind, SubmitContext,
};
use crate::texture::{
    after_create_texture_init, after_replace_image, created_texture, SamplerId, Texture,
    TextureId, TextureKind, TextureModel, TEXTURE_BINDING, TEXTURE_IMAGE_FORMAT,
};
use vstd::prelude::*;

verus! {

/// The mathematical value of a [`TextureManager`].
pub struct RegistryModel {
    /// The slot array. A slot holds a texture or is empty.
    pub slots: Seq<Option<TextureModel>>,
    pub samplers: Seq<Handle>,
    pub descriptor_set: Handle,
    /// The number of leading slots that hold default textures. They are
    /// never freed.
    pub reserved: u32,
}

/// Whether `slot` is the slot the next texture goes to: the lowest empty
/// slot, or one past the end when every slot is occupied.
pub open spec fn is_first_free(slots: Seq<Option<TextureModel>>, slot: int) -> bool {
    &&& 0 <= slot <= slots.len()
    &&& slot < slots.len() ==> slots[slot] is None
    &&& forall|i: int| 0 <= i < slot ==> slots[i] is Some
}

/// The slot array after `texture` has been put into `slot`, which is an
/// empty slot or one past the end.
pub open spec fn placed(
    slots: Seq<Option<TextureModel>>,
    slot: int,
    texture: TextureModel,
) -> Seq<Option<TextureModel>> {
    if slot == slots.len() {
        slots.push(Some(texture))
    } else {
        slots.update(slot, Some(texture))
    }
}

/// The textures of the occupied slots, in slot order.
pub open spec fn occupied(slots: Seq<Option<TextureModel>>) -> Seq<TextureModel>
    decreases slots.len(),
{
    if slots.len() == 0 {
        Seq::empty()
    } else {
        let before = occupied(slots.drop_last());
        match slots.last() {
            Some(texture) => before.push(texture),
            None => before,
        }
    }
}

/// The descriptor write that publishes `texture`: its image view and its
/// sampler, at the element of the texture array that is the texture's id.
pub open spec fn write_for(texture: TextureModel, samplers: Seq<Handle>) -> DescriptorImageWriteInfo {
    DescriptorImageWriteInfo {
        binding: TEXTURE_BINDING,
        array_index: texture.id,
        image_view: texture.image.view,
        sampler: samplers[texture.sampler as int],
        layout: ImageLayout::ShaderReadOnlyOptimal,
        ty: DescriptorType::CombinedImageSampler,
    }
}

impl RegistryModel {
    /// Every occupied slot holds a texture whose id is the slot's index and
    /// whose sampler exists, every slot index fits a texture id, and the
    /// reserved slots are occupied.
    pub open spec fn wf(self) -> bool {
        &&& self.slots.len() <= u32::MAX
        &&& self.reserved <= self.slots.len()
        &&& forall|i: int| 0 <= i < self.reserved ==> (#[trigger] self.slots[i]) is Some
        &&& forall|i: int|
            0 <= i < self.slots.len() ==> (#[trigger] self.slots[i] matches Some(texture)
                ==> texture.id == i && texture.sampler < self.samplers.len())
    }

    /// The descriptor writes that publish the registry: one for every
    /// occupied slot, in slot order.
    pub open spec fn image_writes(self) -> Seq<DescriptorImageWriteInfo> {
        occupied(self.slots).map_values(|texture: TextureModel| write_for(texture, self.samplers))
    }

    /// The context after the registry has been published.
    pub open spec fn after_update_set(self, ctx: ContextModel) -> ContextModel {
        ContextModel {
            work: ctx.work.push(
                OpModel::UpdateDescriptorSet {
                    set: self.descriptor_set,
                    buffer_writes: Seq::empty(),
                    image_writes: self.image_writes(),
                },
            ),
            ..ctx
        }
    }
}

/// The context after it has created a sampler with the given filter.
pub open spec fn after_create_sampler(ctx: ContextModel, filter: Filter) -> ContextModel {
    ContextModel {
        last_handle: (ctx.last_handle + 1) as u64,
        work: ctx.work.push(
            OpModel::CreateSampler { sampler: (ctx.last_handle + 1) as u64, filter },
        ),
        ..ctx
    }
}

/// One opaque white pixel.
pub open spec fn white_pixel() -> Seq<u8> {
    seq![255u8, 255u8, 255u8, 255u8]
}

/// One opaque black pixel.
pub open spec fn black_pixel() -> Seq<u8> {
    seq![0u8, 0u8, 0u8, 255u8]
}

/// One pixel of a flat normal map.
pub open spec fn normal_pixel() -> Seq<u8> {
    seq![128u8, 128u8, 255u8, 255u8]
}

/// Byte `k` of the checkerboard: 16 by 16 pixels of four bytes each, white
/// where row and column add up to an even number and magenta elsewhere.
pub open spec fn checkerboard_byte(k: int) -> u8 {
    let pixel = k / 4;
    if (pixel / 16 + pixel % 16) % 2 == 0 || k % 4 != 1 {
        255u8
    } else {
        0u8
    }
}

/// The pixels of the checkerboard texture.
pub open spec fn checkerboard_pixels() -> Seq<u8> {
    Seq::new(1024, |k: int| checkerboard_byte(k))
}

/// The size of a texture of one pixel.
pub open spec fn one_pixel() -> Extent3D {
    Extent3D { width: 1, height: 1, depth: 1 }
}

/// The size of the checkerboard texture.
pub open spec fn checkerboard_extent() -> Extent3D {
    Extent3D { width: 16, height: 16, depth: 1 }
}

/// A default texture: in slot `id`, read through the sampler that does not
/// filter, listed as a colour texture.
pub open spec fn default_texture(
    ctx: ContextModel,
    id: TextureId,
    label: Seq<char>,
    data: Seq<u8>,
    extent: Extent3D,
) -> TextureModel {
    TextureModel {
        id,
        data,
        ..created_texture(ctx, 0, TEXTURE_IMAGE_FORMAT, Some(label), extent, TextureKind::Color)
    }
}

/// The context after it has created one default texture.
pub open spec fn after_default_texture(
    ctx: ContextModel,
    label: Seq<char>,
    data: Seq<u8>,
    extent: Extent3D,
) -> ContextModel {
    after_create_texture_init(
        ctx,
        TEXTURE_IMAGE_FORMAT,
        Some(label),
        data,
        extent,
        TextureKind::Color,
    )
}

/// The context after the two default samplers have been created.
pub open spec fn after_default_samplers(ctx: ContextModel) -> ContextModel {
    after_create_sampler(after_create_sampler(ctx, Filter::Nearest), Filter::Linear)
}

/// The context after the default samplers and the first `n` of the four
/// default textures have been created.
pub open spec fn after_defaults(ctx: ContextModel, n: int) -> ContextModel
    decreases n,
{
    if n <= 0 {
        after_default_samplers(ctx)
    } else if n == 1 {
        after_default_texture(after_defaults(ctx, 0), "White"@, white_pixel(), one_pixel())
    } else if n == 2 {
        after_default_texture(after_defaults(ctx, 1), "Black"@, black_pixel(), one_pixel())
    } else if n == 3 {
        after_default_texture(
            after_defaults(ctx, 2),
            "Checkerboard"@,
            checkerboard_pixels(),
            checkerboard_extent(),
        )
    } else {
        after_default_texture(after_defaults(ctx, 3), "Normal"@, normal_pixel(), one_pixel())
    }
}

/// The registry as it is initialised by a context: two samplers, nearest
/// and linear, and the white, black, checkerboard and normal default
/// textures in slots 0 to 3.
pub open spec fn default_registry(ctx: ContextModel, descriptor_set: Handle) -> RegistryModel {
    RegistryModel {
        slots: seq![
            Some(
                default_texture(
                    after_defaults(ctx, 0),
                    0,
                    "White"@,
                    white_pixel(),
                    one_pixel(),
                ),
            ),
            Some(
                default_texture(
                    after_defaults(ctx, 1),
                    1,
                    "Black"@,
                    black_pixel(),
                    one_pixel(),
                ),
            ),
            Some(
                default_texture(
                    after_defaults(ctx, 2),
                    2,
                    "Checkerboard"@,
                    checkerboard_pixels(),
                    checkerboard_extent(),
                ),
            ),
            Some(
                default_texture(
                    after_defaults(ctx, 3),
                    3,
                    "Normal"@,
                    normal_pixel(),
                    one_pixel(),
                ),
            ),
        ],
        samplers: seq![(ctx.last_handle + 1) as u64, (ctx.last_handle + 2) as u64],
        descriptor_set,
        reserved: 4,
    }
}

/// The pixels of the checkerboard texture.
pub fn checkerboard() -> (pixels: Vec<u8>)
    ensures
        pixels@ == checkerboard_pixels(),
{
    let mut pixels: Vec<u8> = Vec::new();
    let mut i: usize = 0;
    while i < 256
        invariant
            i <= 256,
            pixels@.len() == 4 * i,
            forall|k: int| 0 <= k < 4 * i ==> pixels@[k] == checkerboard_byte(k),
        decreases 256 - i,
    {
        let white = (i / 16 + i % 16) % 2 == 0;
        pixels.push(255);
        pixels.push(
            if white {
                255
            } else {
                0
            },
        );
        pixels.push(255);
        pixels.push(255);
        i += 1;
    }
    pixels
}

/// Creates a sampler that repeats in every direction and filters as asked.
pub fn create_sampler(ctx: &mut SubmitContext, filter: Filter) -> (sampler: Handle)
    requires
        old(ctx)@.can_allocate(1),
    ensures
        sampler == old(ctx)@.last_handle + 1,
        final(ctx)@ == after_create_sampler(old(ctx)@, filter),
{
    let sampler = ctx.fresh_handle();
    ctx.record(DeviceOp::CreateSampler { sampler, filter });
    sampler
}

/// The mathematical values of a slot array.
pub open spec fn slots_model(slots: Seq<Option<Texture>>) -> Seq<Option<TextureModel>> {
    slots.map_values(
        |slot: Option<Texture>|
            match slot {
                Some(texture) => Some(texture@),
                None => None,
            },
    )
}

/// The bindless texture registry.
///
/// Textures live in slots. A texture's id is its slot, and stays its slot
/// for as long as the texture is in the registry. A freed slot is the next
/// one to be handed out again if no lower slot is empty.
pub struct TextureManager {
    textures: Vec<Option<Texture>>,
    samplers: Vec<Handle>,
    descriptor_set: Handle,
    reserved: u32,
}

impl View for TextureManager {
    type V = RegistryModel;

    closed spec fn view(&self) -> RegistryModel {
        RegistryModel {
            slots: slots_model(self.textures@),
            samplers: self.samplers@,
            descriptor_set: self.descriptor_set,
            reserved: self.reserved,
        }
    }
}

impl TextureManager {
    /// The sampler that does not filter.
    pub const DEFAULT_SAMPLER_NEAREST: SamplerId = 0;

    /// The sampler that filters linearly.
    pub const DEFAULT_SAMPLER_LINEAR: SamplerId = 1;

    /// The slot of the white default texture.
    pub const DEFAULT_TEXTURE_WHITE: TextureId = 0;

    /// The slot of the black default texture.
    pub const DEFAULT_TEXTURE_BLACK: TextureId = 1;

    /// The slot of the checkerboard default texture.
    pub const DEFAULT_TEXTURE_CHECKERBOARD: TextureId = 2;

    /// The slot of the default normal map.
    pub const DEFAULT_TEXTURE_NORMAL: TextureId = 3;

    /// A registry without textures and samplers that publishes to
    /// `descriptor_set`.
    pub fn empty(descriptor_set: Handle) -> (manager: Self)
        ensures
            manager@ == (RegistryModel {
                slots: Seq::empty(),
                samplers: Seq::empty(),
                descriptor_set,
                reserved: 0,
            }),
            manager@.wf(),
    {
        let manager = TextureManager {
            textures: Vec::new(),
            samplers: Vec::new(),
            descriptor_set,
            reserved: 0,
        };
        assert(manager@.slots =~= Seq::empty());
        manager
    }

    /// A registry with the default samplers and the default textures, which
    /// publishes to `descriptor_set`.
    ///
    /// The samplers and textures are created in `ctx`, and the registry is
    /// published once, after the last default texture has been added.
    pub fn new(descriptor_set: Handle, ctx: &mut SubmitContext) -> (manager: Self)
        requires
            old(ctx)@.can_allocate(14),
        ensures
            manager@ == default_registry(old(ctx)@, descriptor_set),
            manager@.wf(),
            final(ctx)@ == manager@.after_update_set(after_defaults(old(ctx)@, 4)),
    {
        let ghost start = ctx@;
        let mut manager = TextureManager::empty(descriptor_set);
        let sampler_nearest = create_sampler(ctx, Filter::Nearest);
        manager.add_sampler(sampler_nearest);
        let sampler_linear = create_sampler(ctx, Filter::Linear);
        manager.add_sampler(sampler_linear);

        let white: Vec<u8> = vec![255u8, 255u8, 255u8, 255u8];
        let black: Vec<u8> = vec![0u8, 0u8, 0u8, 255u8];
        let normal: Vec<u8> = vec![128u8, 128u8, 255u8, 255u8];
        let pixel_data = checkerboard();
        let single = Extent3D { width: 1, height: 1, depth: 1 };

        let texture = Texture::new_init(
            Self::DEFAULT_SAMPLER_NEAREST,
            TEXTURE_IMAGE_FORMAT,
            ctx,
            Some("White".to_owned()),
            white.as_slice(),
            single,
            TextureKind::Color,
        );
        manager.add_texture(texture, ctx, false);
        let texture = Texture::new_init(
            Self::DEFAULT_SAMPLER_NEAREST,
            TEXTURE_IMAGE_FORMAT,
            ctx,
            Some("Black".to_owned()),
            black.as_slice(),
            single,
            TextureKind::Color,
        );
        manager.add_texture(texture, ctx, false);
        let texture = Texture::new_init(
            Self::DEFAULT_SAMPLER_NEAREST,
            TEXTURE_IMAGE_FORMAT,
            ctx,
            Some("Checkerboard".to_owned()),
            pixel_data.as_slice(),
            Extent3D { width: 16, height: 16, depth: 1 },
            TextureKind::Color,
        );
        manager.add_texture(texture, ctx, false);
        let texture = Texture::new_init(
            Self::DEFAULT_SAMPLER_NEAREST,
            TEXTURE_IMAGE_FORMAT,
            ctx,
            Some("Normal".to_owned()),
            normal.as_slice(),
            single,
            TextureKind::Color,
        );
        manager.add_texture(texture, ctx, true);
        manager.reserved = 4;
        assert(manager@.slots =~= default_registry(start, descriptor_set).slots);
        assert(manager@.samplers =~= default_registry(start, descriptor_set).samplers);
        manager
    }

    /// The slot the next texture goes to: the lowest empty slot, or one past
    /// the end when every slot is occupied.
    pub fn next_free_id(&self) -> (id: TextureId)
        requires
            self@.wf(),
        ensures
            is_first_free(self@.slots, id as int),
    {
        let mut i: usize = 0;
        while i < self.textures.len()
            invariant
                i <= self.textures@.len(),
                self.textures@.len() <= u32::MAX,
                forall|j: int| 0 <= j < i ==> self@.slots[j] is Some,
            decreases self.textures@.len() - i,
        {
            if self.textures[i].is_none() {
                return i as u32;
            }
            i += 1;
        }
        i as u32
    }

    /// The descriptor set the registry publishes to.
    pub fn descriptor_set(&self) -> (set: Handle)
        ensures
            set == self@.descriptor_set,
    {
        self.descriptor_set
    }

    /// The number of leading slots that hold default textures.
    pub fn reserved(&self) -> (reserved: u32)
        ensures
            reserved == self@.reserved,
    {
        self.reserved
    }

    /// The number of slots, occupied or not.
    pub fn slot_count(&self) -> (count: usize)
        ensures
            count == self@.slots.len(),
    {
        self.textures.len()
    }

    /// The textures of the occupied slots, in slot order.
    pub fn iter_textures(&self) -> (textures: Vec<&Texture>)
        ensures
            textures@.map_values(|texture: &Texture| texture@) == occupied(self@.slots),
    {
        let mut found: Vec<&Texture> = Vec::new();
        let mut i: usize = 0;
        while i < self.textures.len()
            invariant
                i <= self.textures@.len(),
                found@.map_values(|texture: &Texture| texture@) == occupied(
                    self@.slots.subrange(0, i as int),
                ),
            decreases self.textures@.len() - i,
        {
            proof {
                assert(self@.slots.subrange(0, i + 1).drop_last() =~= self@.slots.subrange(
                    0,
                    i as int,
                ));
            }
            match &self.textures[i] {
                Some(texture) => {
                    found.push(texture);
                },
                None => {},
            }
            i += 1;
        }
        assert(self@.slots.subrange(0, i as int) =~= self@.slots);
        found
    }

    /// Puts `texture` into the lowest empty slot, which becomes its id, and
    /// publishes the registry if `update_set` asks for it.
    ///
    /// A batch of additions can leave the publishing to the last one.
    pub fn add_texture(&mut self, texture: Texture, ctx: &mut SubmitContext, update_set: bool) -> (id:
        TextureId)
        requires
            old(self)@.wf(),
            old(self)@.slots.len() < u32::MAX,
            texture@.sampler < old(self)@.samplers.len(),
        ensures
            is_first_free(old(self)@.slots, id as int),
            final(self)@ == (RegistryModel {
                slots: placed(old(self)@.slots, id as int, TextureModel { id, ..texture@ }),
                ..old(self)@
            }),
            final(self)@.wf(),
            final(ctx)@ == if update_set {
                final(self)@.after_update_set(old(ctx)@)
            } else {
                old(ctx)@
            },
    {
        let id = self.next_free_id();
        let texture = texture.with_id(id);
        let ghost stored = texture@;
        let ghost before = self.textures@;
        if id as usize == self.textures.len() {
            self.textures.push(Some(texture));
            assert(slots_model(self.textures@) =~= slots_model(before).push(Some(stored)));
        } else {
            self.textures[id as usize] = Some(texture);
            assert(slots_model(self.textures@) =~= slots_model(before).update(
                id as int,
                Some(stored),
            ));
        }
        if update_set {
            self.update_set(ctx);
        }
        id
    }

    /// The texture in slot `id`, if the slot is occupied.
    pub fn get_texture(&self, id: TextureId) -> (texture: Option<&Texture>)
        requires
            id < self@.slots.len(),
        ensures
            match texture {
                Some(found) => self@.slots[id as int] == Some(found@),
                None => self@.slots[id as int] is None,
            },
    {
        self.textures[id as usize].as_ref()
    }

    /// The number of samplers.
    pub fn sampler_count(&self) -> (count: usize)
        ensures
            count == self@.samplers.len(),
    {
        self.samplers.len()
    }

    /// Adds a sampler. Its index is the number of samplers before.
    pub fn add_sampler(&mut self, sampler: Handle)
        requires
            old(self)@.wf(),
        ensures
            final(self)@ == (RegistryModel {
                samplers: old(self)@.samplers.push(sampler),
                ..old(self)@
            }),
            final(self)@.wf(),
    {
        self.samplers.push(sampler);
    }

    /// Publishes the registry: records one descriptor-set update that writes
    /// every occupied slot at its own index.
    pub fn update_set(&self, ctx: &mut SubmitContext)
        requires
            self@.wf(),
        ensures
            final(ctx)@ == self@.after_update_set(old(ctx)@),
    {
        let mut writes: Vec<DescriptorImageWriteInfo> = Vec::new();
        let mut i: usize = 0;
        while i < self.textures.len()
            invariant
                self@.wf(),
                i <= self.textures@.len(),
                writes@ == occupied(self@.slots.subrange(0, i as int)).map_values(
                    |texture: TextureModel| write_for(texture, self@.samplers),
                ),
            decreases self.textures@.len() - i,
        {
            proof {
                assert(self@.slots.subrange(0, i + 1).drop_last() =~= self@.slots.subrange(
                    0,
                    i as int,
                ));
            }
            match &self.textures[i] {
                Some(texture) => {
                    assert(self@.slots[i as int] == Some(texture@));
                    writes.push(
                        DescriptorImageWriteInfo {
                            binding: TEXTURE_BINDING,
                            array_index: texture.id(),
                            image_view: texture.image().view_handle(),
                            sampler: self.samplers[texture.sampler()],
                            layout: ImageLayout::ShaderReadOnlyOptimal,
                            ty: DescriptorType::CombinedImageSampler,
                        },
                    );
                },
                None => {},
            }
            i += 1;
        }
        assert(self@.slots.subrange(0, i as int) =~= self@.slots);
        let no_buffers: Vec<DescriptorBufferWriteInfo> = Vec::new();
        update_set(ctx, self.descriptor_set, writes.as_slice(), no_buffers.as_slice());
    }

    /// The texture in slot `id`, for changing it in place. The registry
    /// afterwards holds in the slot what the caller leaves there, and
    /// nothing else changes.
    pub fn texture_mut(&mut self, id: TextureId) -> (texture: &mut Texture)
        requires
            id < old(self)@.slots.len(),
            old(self)@.slots[id as int] is Some,
        ensures
            Some((*texture)@) == old(self)@.slots[id as int],
            final(self)@.slots.len() == old(self)@.slots.len(),
            final(self)@.slots[id as int] == Some((*final(texture))@),
            forall|i: int|
                0 <= i < old(self)@.slots.len() && i != id ==> final(self)@.slots[i]
                    == old(self)@.slots[i],
            final(self)@.samplers == old(self)@.samplers,
            final(self)@.descriptor_set == old(self)@.descriptor_set,
            final(self)@.reserved == old(self)@.reserved,
    {
        self.textures[id as usize].as_mut().unwrap()
    }

    /// Replaces the image of the texture in slot `id` by a new colour-format
    /// image of size `extent` that holds `data`. The texture keeps its slot.
    pub fn replace_image(
        &mut self,
        id: TextureId,
        ctx: &mut SubmitContext,
        label: Option<String>,
        data: &[u8],
        extent: Extent3D,
    )
        requires
            old(self)@.wf(),
            id < old(self)@.slots.len(),
            old(self)@.slots[id as int] is Some,
            data@.len() > 0,
            old(ctx)@.can_allocate(3),
        ensures
            final(self)@ == (RegistryModel {
                slots: old(self)@.slots.update(
                    id as int,
                    Some(
                        TextureModel {
                            image: created_image(
                                old(ctx)@,
                                extent,
                                TEXTURE_IMAGE_FORMAT,
                                label_model(label),
                            ),
                            ..old(self)@.slots[id as int]->0
                        },
                    ),
                ),
                ..old(self)@
            }),
            final(self)@.wf(),
            final(ctx)@ == after_replace_image(
                old(ctx)@,
                old(self)@.slots[id as int]->0.image,
                old(self)@.slots[id as int]->0.kind,
                label_model(label),
                data@,
                extent,
            ),
    {
        let ghost before = self.textures@;
        let mut slot: Option<Texture> = None;
        core::mem::swap(&mut self.textures[id as usize], &mut slot);
        let mut texture = slot.unwrap();
        texture.replace_image(ctx, label, data, extent);
        let ghost stored = texture@;
        self.textures[id as usize] = Some(texture);
        assert(slots_model(self.textures@) =~= slots_model(before).update(id as int, Some(stored)));
    }

    /// Empties the registry for good: every image and every sampler joins
    /// `queue`, the images in slot order first.
    pub fn destroy(&mut self, queue: &mut DeletionQueue)
        ensures
            final(self)@ == (RegistryModel {
                slots: Seq::empty(),
                samplers: Seq::empty(),
                reserved: 0,
                ..old(self)@
            }),
            final(queue)@ == old(queue)@ + occupied(old(self)@.slots).map_values(
                |texture: TextureModel| CleanupModel::Image(texture.image),
            ) + old(self)@.samplers.map_values(
                |sampler: Handle| CleanupModel::Object { kind: ObjectKind::Sampler, handle: sampler },
            ),
    {
        let ghost slots = self@.slots;
        let ghost samplers = self@.samplers;
        let ghost waiting = queue@;
        let mut textures: Vec<Option<Texture>> = Vec::new();
        core::mem::swap(&mut self.textures, &mut textures);
        assert(self@.slots =~= Seq::empty());
        let mut rest = reversed(textures);
        let ghost turned = rest@;
        while rest.len() > 0
            invariant
                rest@.len() <= slots.len(),
                turned.len() == slots.len(),
                rest@ == turned.subrange(0, rest@.len() as int),
                forall|i: int|
                    0 <= i < slots.len() ==> slots_model(turned)[i] == slots[slots.len() - 1 - i],
                queue@ == waiting + occupied(
                    slots.subrange(0, slots.len() - rest@.len()),
                ).map_values(|texture: TextureModel| CleanupModel::Image(texture.image)),
            decreases rest.len(),
        {
            let ghost done = slots.len() - rest@.len();
            proof {
                assert(slots.subrange(0, done + 1).drop_last() =~= slots.subrange(0, done));
                assert(slots_model(turned)[rest@.len() - 1] == slots[done]);
            }
            match rest.pop().unwrap() {
                Some(texture) => {
                    queue.push(texture.destroy());
                },
                None => {},
            }
        }
        assert(slots.subrange(0, slots.len() as int) =~= slots);
        let ghost images = queue@;
        let mut i: usize = 0;
        while i < self.samplers.len()
            invariant
                i <= self.samplers@.len(),
                self.samplers@ == samplers,
                queue@ == images + samplers.subrange(0, i as int).map_values(
                    |sampler: Handle|
                        CleanupModel::Object { kind: ObjectKind::Sampler, handle: sampler },
                ),
            decreases self.samplers@.len() - i,
        {
            queue.push(Cleanup::Object { kind: ObjectKind::Sampler, handle: self.samplers[i] });
            i += 1;
        }
        self.samplers.clear();
        self.reserved = 0;
    }

    /// Empties slot `to_free` and queues the destruction of its image. A
    /// reserved slot cannot be freed.
    ///
    /// The registry is not published again: shaders do not read a slot that
    /// nothing refers to, and the caller decides when to publish.
    pub fn free(&mut self, to_free: TextureId, ctx: &mut SubmitContext)
        requires
            old(self)@.wf(),
            old(self)@.reserved <= to_free < old(self)@.slots.len(),
            old(self)@.slots[to_free as int] is Some,
        ensures
            final(self)@ == (RegistryModel {
                slots: old(self)@.slots.update(to_free as int, None),
                ..old(self)@
            }),
            final(self)@.wf(),
            final(ctx)@ == (ContextModel {
                cleanup: old(ctx)@.cleanup.push(
                    CleanupModel::Image(old(self)@.slots[to_free as int]->0.image),
                ),
                ..old(ctx)@
            }),
    {
        let ghost before = self.textures@;
        let mut slot: Option<Texture> = None;
        core::mem::swap(&mut self.textures[to_free as usize], &mut slot);
        assert(slots_model(self.textures@) =~= slots_model(before).update(to_free as int, None));
        let texture = slot.unwrap();
        ctx.add_cleanup(texture.destroy());
    }
}

/// Only one slot is the next free slot.
pub proof fn lemma_first_free_unique(slots: Seq<Option<TextureModel>>, a: int, b: int)
    requires
        is_first_free(slots, a),
        is_first_free(slots, b),
    ensures
        a == b,
{
    if a < b {
    }
}

/// A freed slot is handed out again.
///
/// If slot `slot` is freed and no lower slot is empty, then the freed slot
/// is the next free slot, and the next texture that is added goes there.
pub proof fn lemma_freed_slot_is_reused(
    slots: Seq<Option<TextureModel>>,
    slot: int,
    texture: TextureModel,
)
    requires
        0 <= slot < slots.len(),
        forall|i: int| 0 <= i < slot ==> slots[i] is Some,
    ensures
        is_first_free(slots.update(slot, None), slot),
        forall|other: int| is_first_free(slots.update(slot, None), other) ==> other == slot,
        placed(slots.update(slot, None), slot, texture) == slots.update(slot, Some(texture)),
        placed(slots.update(slot, None), slot, texture).len() == slots.len(),
{
}

/// What `occupied` collects: every texture of an occupied slot, once, in
/// slot order, and nothing else.
proof fn lemma_occupied_exact(slots: Seq<Option<TextureModel>>)
    requires
        forall|i: int|
            0 <= i < slots.len() ==> (#[trigger] slots[i] matches Some(texture) ==> texture.id
                == i),
    ensures
        occupied(slots).len() <= slots.len(),
        forall|k: int|
            0 <= k < occupied(slots).len() ==> {
                &&& 0 <= (#[trigger] occupied(slots)[k]).id < slots.len()
                &&& slots[occupied(slots)[k].id as int] == Some(occupied(slots)[k])
            },
        forall|k: int, l: int|
            0 <= k < l < occupied(slots).len() ==> occupied(slots)[k].id < occupied(slots)[l].id,
        forall|i: int|
            0 <= i < slots.len() && slots[i] is Some ==> exists|k: int|
                0 <= k < occupied(slots).len() && occupied(slots)[k] == #[trigger] slots[i]->0,
    decreases slots.len(),
{
    if slots.len() > 0 {
        let shorter = slots.drop_last();
        lemma_occupied_exact(shorter);
        let before = occupied(shorter);
        assert forall|i: int| 0 <= i < slots.len() && slots[i] is Some implies exists|k: int|
            0 <= k < occupied(slots).len() && occupied(slots)[k] == #[trigger] slots[i]->0 by {
            if i < shorter.len() {
                let k = choose|k: int| 0 <= k < before.len() && before[k] == shorter[i]->0;
                assert(occupied(slots)[k] == slots[i]->0);
            } else {
                assert(occupied(slots)[before.len() as int] == slots[i]->0);
            }
        }
    }
}

/// Publishing reflects exactly the occupied slots.
///
/// The descriptor writes of a well-formed registry are one write for every
/// occupied slot and none for an empty one: every write goes to the element
/// that is the index of an occupied slot and carries that slot's image view
/// and sampler, the elements written to go up strictly, and every occupied
/// slot is written.
pub proof fn lemma_writes_reflect_occupied_slots(registry: RegistryModel)
    requires
        registry.wf(),
    ensures
        registry.image_writes().len() <= registry.slots.len(),
        forall|k: int|
            0 <= k < registry.image_writes().len() ==> {
                let write = #[trigger] registry.image_writes()[k];
                &&& write.array_index < registry.slots.len()
                &&& registry.slots[write.array_index as int] matches Some(texture)
                &&& write == write_for(texture, registry.samplers)
            },
        forall|k: int, l: int|
            0 <= k < l < registry.image_writes().len() ==> registry.image_writes()[k].array_index
                < registry.image_writes()[l].array_index,
        forall|i: int|
            0 <= i < registry.slots.len() && registry.slots[i] is Some ==> exists|k: int|
                0 <= k < registry.image_writes().len() && registry.image_writes()[k]
                    == write_for(#[trigger] registry.slots[i]->0, registry.samplers)
                    && registry.image_writes()[k].array_index == i,
{
    lemma_occupied_exact(registry.slots);
    let textures = occupied(registry.slots);
    assert forall|i: int|
        0 <= i < registry.slots.len() && registry.slots[i] is Some implies exists|k: int|
        0 <= k < registry.image_writes().len() && registry.image_writes()[k] == write_for(
            #[trigger] registry.slots[i]->0,
            registry.samplers,
        ) && registry.image_writes()[k].array_index == i by {
        let k = choose|k: int| 0 <= k < textures.len() && textures[k] == registry.slots[i]->0;
        assert(registry.image_writes()[k] == write_for(textures[k], registry.samplers));
    }
    assert forall|k: int| 0 <= k < registry.image_writes().len() implies {
        let write = #[trigger] registry.image_writes()[k];
        &&& write.array_index < registry.slots.len()
        &&& registry.slots[write.array_index as int] matches Some(texture)
        &&& write == write_for(texture, registry.samplers)
    } by {}
}

} // verus!
