//! Lights and the growable light array that mirrors them on the device.

use crate::buffer::{
    after_create_buffer, after_resize, after_write, created_buffer, resized_buffer,
    AllocatedBuffer, BufferModel, GpuData,
};
use crate::deletion::DeletionQueue;
use crate::device::{Extent3D, ImageFormat};
use crate::memory::{defined, perform_all, Memory};
use crate::pod::{append_words, lemma_words_bytes_len, words_bytes};
use crate::registry::{is_first_free, placed, RegistryModel, TextureManager};
use crate::submit::{Cleanup, CleanupModel, ContextModel, SubmitContext};
use crate::texture::{
    after_create_texture, created_texture, Texture, TextureId, TextureKind, TextureModel,
};
use crate::usage::{AllocUsage, BUFFER_USAGE_SHADER_DEVICE_ADDRESS};
use vstd::prelude::*;
use vstd::string::*;

verus! {

/// Identifies a light. Ids go up by one with every light that is added and
/// are never handed out twice.
pub type LightId = usize;

/// The size of one light on the device, in bytes.
pub const RAW_LIGHT_SIZE: u64 = 132;

/// The number of 32-bit words of one light on the device.
pub const RAW_LIGHT_WORDS: usize = 33;

/// The format of shadow maps.
pub const DEPTH_FORMAT: ImageFormat = ImageFormat::D32Sfloat;

/// The width and height of a shadow map.
pub const SHADOW_MAP_SIZE: (u32, u32) = (2048, 2048);

/// What only the host knows of a light. Numbers are IEEE 754 single
/// precision bit patterns.
#[derive(Debug, Copy, Clone, PartialEq, Eq)]
pub enum LightMeta {
    Spotlight { fov: u32, extent: (u32, u32) },
    Pointlight,
}

/// A light as shaders read it: 33 words of four bytes, without padding.
/// Every field but `shadow_map` is an IEEE 754 single precision bit pattern.
#[derive(Debug, Copy, Clone, PartialEq, Eq)]
pub struct RawLight {
    pub position: [u32; 4],
    pub color: [u32; 4],
    /// The view-projection matrix of the light, column by column.
    pub viewproj: [u32; 16],
    pub direction: [u32; 4],
    pub intensity: u32,
    pub cutoff_angle: u32,
    pub inner_angle: u32,
    pub radius: u32,
    /// The slot of the light's shadow map in the texture registry.
    pub shadow_map: TextureId,
}

/// A light of the scene.
#[derive(Debug, Copy, Clone, PartialEq, Eq)]
pub struct Light {
    pub id: LightId,
    pub meta: LightMeta,
    pub data: RawLight,
}

impl RawLight {
    /// The words of the light in the order shaders read them.
    pub open spec fn spec_words(self) -> Seq<u32> {
        self.position@ + self.color@ + self.viewproj@ + self.direction@ + seq![
            self.intensity,
            self.cutoff_angle,
            self.inner_angle,
            self.radius,
            self.shadow_map,
        ]
    }

    /// The bytes of the light as they lie in device memory.
    pub open spec fn spec_bytes(self) -> Seq<u8> {
        words_bytes(self.spec_words())
    }

    /// The words of the light in the order shaders read them.
    pub fn words(&self) -> (words: Vec<u32>)
        ensures
            words@ == self.spec_words(),
            words@.len() == RAW_LIGHT_WORDS,
    {
        let mut words: Vec<u32> = Vec::new();
        let mut i: usize = 0;
        while i < 4
            invariant
                i <= 4,
                words@ == self.position@.subrange(0, i as int),
            decreases 4 - i,
        {
            words.push(self.position[i]);
            i += 1;
        }
        i = 0;
        while i < 4
            invariant
                i <= 4,
                words@ == self.position@.subrange(0, 4) + self.color@.subrange(0, i as int),
            decreases 4 - i,
        {
            words.push(self.color[i]);
            i += 1;
        }
        i = 0;
        while i < 16
            invariant
                i <= 16,
                words@ == self.position@.subrange(0, 4) + self.color@.subrange(0, 4)
                    + self.viewproj@.subrange(0, i as int),
            decreases 16 - i,
        {
            words.push(self.viewproj[i]);
            i += 1;
        }
        i = 0;
        while i < 4
            invariant
                i <= 4,
                words@ == self.position@.subrange(0, 4) + self.color@.subrange(0, 4)
                    + self.viewproj@.subrange(0, 16) + self.direction@.subrange(0, i as int),
            decreases 4 - i,
        {
            words.push(self.direction[i]);
            i += 1;
        }
        words.push(self.intensity);
        words.push(self.cutoff_angle);
        words.push(self.inner_angle);
        words.push(self.radius);
        words.push(self.shadow_map);
        words
    }

    /// Appends the bytes of the light to `bytes`.
    pub fn append_bytes(&self, bytes: &mut Vec<u8>)
        ensures
            final(bytes)@ == old(bytes)@ + self.spec_bytes(),
            self.spec_bytes().len() == RAW_LIGHT_SIZE,
    {
        let words = self.words();
        append_words(words.as_slice(), bytes);
    }

    /// The bytes of the light as they lie in device memory.
    pub fn to_bytes(&self) -> (bytes: Vec<u8>)
        ensures
            bytes@ == self.spec_bytes(),
            bytes@.len() == RAW_LIGHT_SIZE,
    {
        let mut bytes: Vec<u8> = Vec::new();
        self.append_bytes(&mut bytes);
        bytes
    }
}

impl GpuData for RawLight {
    open spec fn gpu_bytes(&self) -> Seq<u8> {
        self.spec_bytes()
    }

    fn to_gpu_bytes(&self) -> (bytes: Vec<u8>) {
        self.to_bytes()
    }
}

/// The bytes of a list of lights as they lie in device memory: the bytes of
/// each light's device part, one light after the other, without gaps.
pub open spec fn lights_bytes(lights: Seq<Light>) -> Seq<u8>
    decreases lights.len(),
{
    if lights.len() == 0 {
        Seq::empty()
    } else {
        lights_bytes(lights.drop_last()) + lights.last().data.spec_bytes()
    }
}

/// A list of `n` lights takes `132 * n` bytes, and the light at position `k`
/// lies at byte `132 * k`.
pub proof fn lemma_lights_bytes_layout(lights: Seq<Light>)
    ensures
        lights_bytes(lights).len() == RAW_LIGHT_SIZE * lights.len(),
        forall|k: int|
            0 <= k < lights.len() ==> lights_bytes(lights).subrange(
                RAW_LIGHT_SIZE * k,
                RAW_LIGHT_SIZE * k + RAW_LIGHT_SIZE,
            ) == #[trigger] lights[k].data.spec_bytes(),
    decreases lights.len(),
{
    if lights.len() > 0 {
        let shorter = lights.drop_last();
        lemma_lights_bytes_layout(shorter);
        lemma_words_bytes_len(lights.last().data.spec_words());
        assert forall|k: int| 0 <= k < lights.len() implies lights_bytes(lights).subrange(
            RAW_LIGHT_SIZE * k,
            RAW_LIGHT_SIZE * k + RAW_LIGHT_SIZE,
        ) == #[trigger] lights[k].data.spec_bytes() by {
            if k < shorter.len() {
                assert(shorter[k] == lights[k]);
            }
        }
    }
}

/// The text of one decimal digit.
pub open spec fn digit_text(digit: int) -> Seq<char> {
    if digit == 0 {
        "0"@
    } else if digit == 1 {
        "1"@
    } else if digit == 2 {
        "2"@
    } else if digit == 3 {
        "3"@
    } else if digit == 4 {
        "4"@
    } else if digit == 5 {
        "5"@
    } else if digit == 6 {
        "6"@
    } else if digit == 7 {
        "7"@
    } else if digit == 8 {
        "8"@
    } else {
        "9"@
    }
}

/// The decimal text of a number: its digits, the highest first, without
/// leading zeros.
pub open spec fn decimal_text(number: nat) -> Seq<char>
    decreases number,
{
    if number < 10 {
        digit_text(number as int)
    } else {
        decimal_text(number / 10) + digit_text((number % 10) as int)
    }
}

/// The text of one decimal digit.
fn digit_str(digit: usize) -> (text: &'static str)
    requires
        digit < 10,
    ensures
        text@ == digit_text(digit as int),
{
    if digit == 0 {
        "0"
    } else if digit == 1 {
        "1"
    } else if digit == 2 {
        "2"
    } else if digit == 3 {
        "3"
    } else if digit == 4 {
        "4"
    } else if digit == 5 {
        "5"
    } else if digit == 6 {
        "6"
    } else if digit == 7 {
        "7"
    } else if digit == 8 {
        "8"
    } else {
        "9"
    }
}

/// The decimal text of a number.
pub fn decimal_string(number: usize) -> (text: String)
    ensures
        text@ == decimal_text(number as nat),
    decreases number,
{
    if number < 10 {
        digit_str(number).to_owned()
    } else {
        let mut text = decimal_string(number / 10);
        text.append(digit_str(number % 10));
        text
    }
}

/// The number of lights the array has room for when it is created.
pub const PREALLOC_COUNT: u64 = 16;

/// The label of the shadow map of light `id`.
pub open spec fn shadow_map_label(id: LightId) -> Seq<char> {
    "shadow_map_"@ + decimal_text(id as nat)
}

/// The size of a shadow map.
pub open spec fn shadow_map_extent() -> Extent3D {
    Extent3D { width: SHADOW_MAP_SIZE.0, height: SHADOW_MAP_SIZE.1, depth: 1 }
}

/// The lights of `lights` whose id is not `id`, in their order.
pub open spec fn without(lights: Seq<Light>, id: LightId) -> Seq<Light>
    decreases lights.len(),
{
    if lights.len() == 0 {
        Seq::empty()
    } else {
        let before = without(lights.drop_last(), id);
        if lights.last().id != id {
            before.push(lights.last())
        } else {
            before
        }
    }
}

/// Whether `index` is the position of the light with id `id` in `lights`.
pub open spec fn is_index_of(lights: Seq<Light>, id: LightId, index: int) -> bool {
    &&& 0 <= index < lights.len()
    &&& lights[index].id == id
    &&& forall|i: int| 0 <= i < index ==> lights[i].id != id
}

/// The position of the light with id `id` in `lights`, if there is one.
pub open spec fn position_of(lights: Seq<Light>, id: LightId) -> int {
    choose|index: int| is_index_of(lights, id, index)
}

/// A light that is in the list has exactly one position.
pub proof fn lemma_position_of(lights: Seq<Light>, id: LightId, index: int)
    requires
        is_index_of(lights, id, index),
    ensures
        position_of(lights, id) == index,
        has_light(lights, id),
{
}

/// Whether a light with id `id` is in `lights`.
pub open spec fn has_light(lights: Seq<Light>, id: LightId) -> bool {
    exists|i: int| 0 <= i < lights.len() && lights[i].id == id
}

/// Whether `capacity` is the initial capacity doubled some number of times.
pub open spec fn is_doubled_capacity(capacity: int) -> bool
    decreases capacity,
{
    if capacity <= PREALLOC_COUNT {
        capacity == PREALLOC_COUNT
    } else {
        capacity % 2 == 0 && is_doubled_capacity(capacity / 2)
    }
}

/// The mathematical value of a [`LightManager`].
pub struct LightArrayModel {
    /// The lights in the order in which shaders iterate over them.
    pub lights: Seq<Light>,
    /// The id of the light that is added next.
    pub max_id: LightId,
    /// The buffer that mirrors the lights on the device.
    pub buffer: BufferModel,
    /// Whether the number of lights has changed since the flag was cleared.
    pub count_dirty: bool,
}

impl LightArrayModel {
    /// The number of lights the buffer has room for.
    pub open spec fn capacity(self) -> int {
        self.buffer.size as int / RAW_LIGHT_SIZE as int
    }

    /// The ids are below the next id and go up along the list, the lights
    /// fit into the buffer, the buffer holds whole lights, its capacity is the
    /// initial one doubled some number of times, and shaders can take its
    /// address.
    pub open spec fn wf(self) -> bool {
        &&& forall|i: int| 0 <= i < self.lights.len() ==> (#[trigger] self.lights[i]).id < self.max_id
        &&& ascending(self.lights)
        &&& self.lights.len() <= self.capacity()
        &&& self.buffer.size as int == self.capacity() * RAW_LIGHT_SIZE
        &&& is_doubled_capacity(self.capacity())
        &&& self.buffer.has_device_address()
    }

    /// Whether one more light does not fit into the buffer.
    pub open spec fn is_full(self) -> bool {
        self.lights.len() + 1 > self.capacity()
    }

    /// The light as the array stores it: with the next id and the slot of its
    /// shadow map.
    pub open spec fn stored(self, light: Light, shadow_map: TextureId) -> Light {
        Light {
            id: self.max_id,
            meta: light.meta,
            data: RawLight { shadow_map, ..light.data },
        }
    }

    /// The buffer after a light has been added by a context that was `ctx`
    /// when the buffer's turn came: twice as large if the light did not fit,
    /// else the same.
    pub open spec fn grown_buffer(self, ctx: ContextModel) -> BufferModel {
        if self.is_full() {
            resized_buffer(ctx, self.buffer, (self.buffer.size * 2) as u64)
        } else {
            self.buffer
        }
    }

    /// The context after the buffer has made room for one more light.
    pub open spec fn after_grow(self, ctx: ContextModel) -> ContextModel {
        if self.is_full() {
            after_resize(ctx, self.buffer, (self.buffer.size * 2) as u64)
        } else {
            ctx
        }
    }

    /// The array after `light` has been added with its shadow map in slot
    /// `shadow_map`.
    pub open spec fn added(self, ctx: ContextModel, light: Light, shadow_map: TextureId) -> LightArrayModel {
        LightArrayModel {
            lights: self.lights.push(self.stored(light, shadow_map)),
            max_id: (self.max_id + 1) as usize,
            buffer: self.grown_buffer(ctx),
            count_dirty: true,
        }
    }

    /// The array after the light with id `id` has been removed. The buffer
    /// keeps its size.
    pub open spec fn removed(self, id: LightId) -> LightArrayModel {
        LightArrayModel { lights: without(self.lights, id), count_dirty: true, ..self }
    }

    /// The context after the whole list of lights has been written to the
    /// buffer. An empty list is not written.
    pub open spec fn after_rewrite(self, ctx: ContextModel) -> ContextModel {
        if self.lights.len() == 0 {
            ctx
        } else {
            after_write(ctx, self.buffer, lights_bytes(self.lights), 0)
        }
    }
}

/// The lights of the scene, mirrored into one device buffer.
///
/// The buffer holds the device parts of the lights as a dense array in list
/// order. Shaders index it by position, never by id. It grows by doubling
/// and never shrinks.
pub struct LightManager {
    lights: Vec<Light>,
    max_id: LightId,
    buffer: AllocatedBuffer,
    /// Whether the number of lights has changed since the flag was cleared.
    /// Whoever caches the count clears the flag when it has read the count.
    pub count_dirty: bool,
}

impl View for LightManager {
    type V = LightArrayModel;

    closed spec fn view(&self) -> LightArrayModel {
        LightArrayModel {
            lights: self.lights@,
            max_id: self.max_id,
            buffer: self.buffer@,
            count_dirty: self.count_dirty,
        }
    }
}

impl LightManager {
    /// An array without lights, with room for sixteen.
    pub fn new(ctx: &mut SubmitContext) -> (manager: Self)
        requires
            old(ctx)@.can_allocate(1),
        ensures
            manager@ == (LightArrayModel {
                lights: Seq::empty(),
                max_id: 0,
                buffer: created_buffer(
                    old(ctx)@,
                    BUFFER_USAGE_SHADER_DEVICE_ADDRESS,
                    AllocUsage::GpuOnly,
                    (PREALLOC_COUNT * RAW_LIGHT_SIZE) as u64,
                    Some("Light Buffer"@),
                ),
                count_dirty: false,
            }),
            manager@.wf(),
            final(ctx)@ == after_create_buffer(
                old(ctx)@,
                BUFFER_USAGE_SHADER_DEVICE_ADDRESS,
                AllocUsage::GpuOnly,
                (PREALLOC_COUNT * RAW_LIGHT_SIZE) as u64,
                Some("Light Buffer"@),
            ),
    {
        let buffer = AllocatedBuffer::new(
            ctx,
            BUFFER_USAGE_SHADER_DEVICE_ADDRESS,
            AllocUsage::GpuOnly,
            PREALLOC_COUNT * RAW_LIGHT_SIZE,
            Some("Light Buffer".to_owned()),
        );
        proof {
            crate::buffer::lemma_created_usage_device_address(BUFFER_USAGE_SHADER_DEVICE_ADDRESS);
            assert(BUFFER_USAGE_SHADER_DEVICE_ADDRESS & BUFFER_USAGE_SHADER_DEVICE_ADDRESS
                == BUFFER_USAGE_SHADER_DEVICE_ADDRESS) by (bit_vector);
        }
        LightManager { lights: Vec::new(), max_id: 0, buffer, count_dirty: false }
    }

    /// The id of the light that is added next.
    pub fn next_id(&self) -> (id: LightId)
        ensures
            id == self@.max_id,
    {
        self.max_id
    }

    /// The number of lights for whoever caches it, if it has changed since
    /// it was taken last. Taking it clears the flag.
    pub fn take_count(&mut self) -> (count: Option<usize>)
        ensures
            count == if old(self)@.count_dirty {
                Some(old(self)@.lights.len() as usize)
            } else {
                None
            },
            final(self)@ == (LightArrayModel { count_dirty: false, ..old(self)@ }),
    {
        if self.count_dirty {
            self.count_dirty = false;
            Some(self.lights.len())
        } else {
            None
        }
    }

    /// The number of lights.
    pub fn count(&self) -> (count: usize)
        ensures
            count == self@.lights.len(),
    {
        self.lights.len()
    }

    /// The lights in the order in which shaders iterate over them.
    pub fn iter(&self) -> (lights: &Vec<Light>)
        ensures
            lights@ == self@.lights,
    {
        &self.lights
    }

    /// The ids of the lights, in list order.
    pub fn keys(&self) -> (keys: Vec<LightId>)
        ensures
            keys@ == self@.lights.map_values(|light: Light| light.id),
    {
        let mut keys: Vec<LightId> = Vec::new();
        let mut i: usize = 0;
        while i < self.lights.len()
            invariant
                i <= self.lights@.len(),
                keys@ == self.lights@.subrange(0, i as int).map_values(|light: Light| light.id),
            decreases self.lights@.len() - i,
        {
            keys.push(self.lights[i].id);
            i += 1;
        }
        keys
    }

    /// The buffer that mirrors the lights.
    pub fn buffer(&self) -> (buffer: &AllocatedBuffer)
        ensures
            buffer@ == self@.buffer,
    {
        &self.buffer
    }

    /// The position of the light with id `id`, if there is one.
    pub fn index_of(&self, id: LightId) -> (index: Option<usize>)
        ensures
            match index {
                Some(found) => is_index_of(self@.lights, id, found as int),
                None => !has_light(self@.lights, id),
            },
    {
        let mut i: usize = 0;
        while i < self.lights.len()
            invariant
                i <= self.lights@.len(),
                forall|j: int| 0 <= j < i ==> self.lights@[j].id != id,
            decreases self.lights@.len() - i,
        {
            if self.lights[i].id == id {
                return Some(i);
            }
            i += 1;
        }
        None
    }

    /// The light with id `id`, if there is one.
    pub fn get_light(&self, id: LightId) -> (light: Option<&Light>)
        ensures
            match light {
                Some(found) => exists|index: int|
                    is_index_of(self@.lights, id, index) && self@.lights[index] == *found,
                None => !has_light(self@.lights, id),
            },
    {
        match self.index_of(id) {
            Some(index) => Some(&self.lights[index]),
            None => None,
        }
    }

    /// The address of the buffer for shaders. The lights lie there by
    /// position, not by id.
    pub fn device_address(&self) -> (address: u64)
        requires
            self@.wf(),
        ensures
            address == self@.buffer.handle,
            address != 0,
    {
        self.buffer.device_address()
    }

    /// Gives the array up: its buffer joins `queue`.
    pub fn destroy(self, queue: &mut DeletionQueue)
        ensures
            final(queue)@ == old(queue)@.push(CleanupModel::Buffer(self@.buffer)),
    {
        let LightManager { lights: _, max_id: _, buffer, count_dirty: _ } = self;
        queue.push(Cleanup::Buffer(buffer));
    }

    /// The bytes of all lights as they lie in device memory.
    fn all_bytes(&self) -> (bytes: Vec<u8>)
        ensures
            bytes@ == lights_bytes(self@.lights),
            bytes@.len() == RAW_LIGHT_SIZE * self@.lights.len(),
    {
        let mut bytes: Vec<u8> = Vec::new();
        let mut i: usize = 0;
        while i < self.lights.len()
            invariant
                i <= self.lights@.len(),
                bytes@ == lights_bytes(self.lights@.subrange(0, i as int)),
            decreases self.lights@.len() - i,
        {
            proof {
                assert(self.lights@.subrange(0, i + 1).drop_last() =~= self.lights@.subrange(
                    0,
                    i as int,
                ));
            }
            self.lights[i].data.append_bytes(&mut bytes);
            i += 1;
        }
        proof {
            assert(self.lights@.subrange(0, i as int) =~= self.lights@);
            lemma_lights_bytes_layout(self.lights@);
        }
        bytes
    }

    /// Writes the whole list of lights to the buffer. An empty list is not
    /// written.
    fn rewrite_buffer(&mut self, ctx: &mut SubmitContext)
        requires
            old(self)@.lights.len() <= old(self)@.capacity(),
            old(ctx)@.can_allocate(1),
        ensures
            final(self)@ == old(self)@,
            final(ctx)@ == old(self)@.after_rewrite(old(ctx)@),
    {
        if self.lights.len() > 0 {
            let bytes = self.all_bytes();
            assert(bytes@.len() <= self@.buffer.size) by (nonlinear_arith)
                requires
                    bytes@.len() == RAW_LIGHT_SIZE * self@.lights.len(),
                    self@.lights.len() <= self@.buffer.size as int / RAW_LIGHT_SIZE as int,
            {
            }
            self.buffer.write(bytes.as_slice(), 0, ctx);
        }
    }

    /// Makes the buffer twice as large.
    fn resize(&mut self, ctx: &mut SubmitContext)
        requires
            old(self)@.buffer.size * 2 <= u64::MAX,
            old(ctx)@.can_allocate(1),
        ensures
            final(self)@ == (LightArrayModel {
                buffer: resized_buffer(
                    old(ctx)@,
                    old(self)@.buffer,
                    (old(self)@.buffer.size * 2) as u64,
                ),
                ..old(self)@
            }),
            final(ctx)@ == after_resize(
                old(ctx)@,
                old(self)@.buffer,
                (old(self)@.buffer.size * 2) as u64,
            ),
    {
        let current_capacity = self.buffer.size();
        let new_capacity = current_capacity * 2;
        self.buffer.resize(ctx, new_capacity);
    }

    /// Adds a light and returns its id.
    ///
    /// The light gets the next id and a shadow map of its own, which goes
    /// into the registry and is published at once. If the light does not fit
    /// into the buffer, the buffer is made twice as large first. Then the
    /// whole list is written to the buffer.
    pub fn add_light(
        &mut self,
        light: Light,
        ctx: &mut SubmitContext,
        texture_manager: &mut TextureManager,
    ) -> (id: LightId)
        requires
            old(self)@.wf(),
            old(self)@.max_id < usize::MAX,
            old(self)@.is_full() ==> old(self)@.buffer.size * 2 <= u64::MAX,
            old(ctx)@.can_allocate(4),
            old(texture_manager)@.wf(),
            old(texture_manager)@.slots.len() < u32::MAX,
            old(texture_manager)@.samplers.len() > TextureManager::DEFAULT_SAMPLER_LINEAR,
        ensures
            id == old(self)@.max_id,
            is_first_free(old(texture_manager)@.slots, shadow_map_slot(final(self)@) as int),
            final(texture_manager)@ == registry_with_shadow_map(
                old(texture_manager)@,
                old(ctx)@,
                id,
                shadow_map_slot(final(self)@),
            ),
            final(texture_manager)@.wf(),
            final(self)@ == old(self)@.added(
                final(texture_manager)@.after_update_set(after_create_shadow_map(old(ctx)@, id)),
                light,
                shadow_map_slot(final(self)@),
            ),
            final(self)@.wf(),
            final(ctx)@ == final(self)@.after_rewrite(
                old(self)@.after_grow(
                    final(texture_manager)@.after_update_set(
                        after_create_shadow_map(old(ctx)@, id),
                    ),
                ),
            ),
    {
        let mut light = light;
        light.id = self.max_id;
        let mut label = "shadow_map_".to_owned();
        label.append(decimal_string(light.id).as_str());
        let shadow_map = Texture::new(
            TextureManager::DEFAULT_SAMPLER_LINEAR,
            DEPTH_FORMAT,
            ctx,
            Some(label),
            Extent3D { width: SHADOW_MAP_SIZE.0, height: SHADOW_MAP_SIZE.1, depth: 1 },
            TextureKind::Depth,
        );
        let shadow_map_id = texture_manager.add_texture(shadow_map, ctx, true);
        light.data.shadow_map = shadow_map_id;
        let ghost before = self@;
        self.lights.push(light);
        self.max_id += 1;
        if self.lights.len() as u64 > self.buffer.size() / RAW_LIGHT_SIZE {
            self.resize(ctx);
            proof {
                crate::buffer::lemma_created_usage_device_address(before.buffer.usage);
                assert(self@.capacity() == 2 * before.capacity()) by (nonlinear_arith)
                    requires
                        self@.capacity() == (before.buffer.size * 2) / 132,
                        before.capacity() * 132 == before.buffer.size,
                        before.capacity() == before.buffer.size as int / 132,
                {
                }
            }
        }
        self.rewrite_buffer(ctx);
        self.count_dirty = true;
        self.max_id - 1
    }

    /// Removes the light with id `id` and writes the remaining list to the
    /// buffer, so that the array stays dense. The buffer keeps its size. The
    /// other lights keep their ids and their order. Returns whether there was
    /// a light with that id.
    pub fn remove_light(&mut self, id: LightId, ctx: &mut SubmitContext) -> (removed: bool)
        requires
            old(self)@.wf(),
            old(ctx)@.can_allocate(1),
        ensures
            removed == has_light(old(self)@.lights, id),
            final(self)@ == old(self)@.removed(id),
            final(self)@.wf(),
            final(ctx)@ == final(self)@.after_rewrite(old(ctx)@),
    {
        let ghost before = self.lights@;
        let mut kept: Vec<Light> = Vec::new();
        let mut i: usize = 0;
        while i < self.lights.len()
            invariant
                i <= self.lights@.len(),
                self.lights@ == before,
                kept@ == without(before.subrange(0, i as int), id),
            decreases self.lights@.len() - i,
        {
            proof {
                assert(before.subrange(0, i + 1).drop_last() =~= before.subrange(0, i as int));
            }
            if self.lights[i].id != id {
                kept.push(self.lights[i]);
            }
            i += 1;
        }
        proof {
            assert(before.subrange(0, i as int) =~= before);
            lemma_ids_are_stable(self@, id);
        }
        let removed = kept.len() < self.lights.len();
        proof {
            lemma_without_shortens(before, id);
        }
        self.lights = kept;
        self.count_dirty = true;
        self.rewrite_buffer(ctx);
        removed
    }

    /// Changes the device part of the light with id `id` and writes that one
    /// light back to its place in the buffer. An id that no light has changes
    /// nothing. Returns whether there was a light with that id.
    pub fn update_light<F: FnOnce(&mut RawLight)>(
        &mut self,
        id: LightId,
        update_fn: F,
        ctx: &mut SubmitContext,
    ) -> (updated: bool)
        requires
            old(self)@.wf(),
            old(ctx)@.can_allocate(1),
            forall|raw: &mut RawLight|
                has_light(old(self)@.lights, id) && *raw == old(self)@.lights[position_of(
                    old(self)@.lights,
                    id,
                )].data ==> #[trigger] call_requires(update_fn, (raw,)),
        ensures
            updated == has_light(old(self)@.lights, id),
            !has_light(old(self)@.lights, id) ==> final(self)@ == old(self)@
                && final(ctx)@ == old(ctx)@,
            has_light(old(self)@.lights, id) ==> exists|raw: &mut RawLight|
                {
                    let index = position_of(old(self)@.lights, id);
                    &&& is_index_of(old(self)@.lights, id, index)
                    &&& *raw == old(self)@.lights[index].data
                    &&& #[trigger] call_ensures(update_fn, (raw,), ())
                    &&& final(self)@ == (LightArrayModel {
                        lights: old(self)@.lights.update(
                            index,
                            Light { data: *final(raw), ..old(self)@.lights[index] },
                        ),
                        ..old(self)@
                    })
                    &&& final(ctx)@ == after_write(
                        old(ctx)@,
                        old(self)@.buffer,
                        (*final(raw)).spec_bytes(),
                        (index * RAW_LIGHT_SIZE) as u64,
                    )
                },
            final(self)@.wf(),
    {
        match self.index_of(id) {
            Some(index) => {
                let ghost before = self@;
                proof {
                    lemma_position_of(before.lights, id, index as int);
                }
                let mut data = self.lights[index].data;
                update_fn(&mut data);
                let mut light = self.lights[index];
                light.data = data;
                self.lights[index] = light;
                self.rewrite_light(index, data, ctx);
                true
            },
            None => false,
        }
    }

    /// Writes one light to its place in the buffer.
    fn rewrite_light(&mut self, index: usize, data: RawLight, ctx: &mut SubmitContext)
        requires
            index < old(self)@.capacity(),
            old(ctx)@.can_allocate(1),
        ensures
            final(self)@ == old(self)@,
            final(ctx)@ == after_write(
                old(ctx)@,
                old(self)@.buffer,
                data.spec_bytes(),
                (index * RAW_LIGHT_SIZE) as u64,
            ),
    {
        let bytes = data.to_bytes();
        assert(index * RAW_LIGHT_SIZE + RAW_LIGHT_SIZE <= self@.buffer.size) by (nonlinear_arith)
            requires
                index < self@.buffer.size as int / RAW_LIGHT_SIZE as int,
        {
        }
        self.buffer.write(bytes.as_slice(), index as u64 * RAW_LIGHT_SIZE, ctx);
    }
}

/// The slot of the shadow map of the light that was added last.
pub open spec fn shadow_map_slot(array: LightArrayModel) -> TextureId {
    array.lights.last().data.shadow_map
}

/// The context after the shadow map of light `id` has been created.
pub open spec fn after_create_shadow_map(ctx: ContextModel, id: LightId) -> ContextModel {
    after_create_texture(
        ctx,
        DEPTH_FORMAT,
        Some(shadow_map_label(id)),
        shadow_map_extent(),
        TextureKind::Depth,
    )
}

/// The registry after the shadow map of light `id`, created by `ctx`, has
/// been put into `slot`.
pub open spec fn registry_with_shadow_map(
    registry: RegistryModel,
    ctx: ContextModel,
    id: LightId,
    slot: TextureId,
) -> RegistryModel {
    RegistryModel {
        slots: placed(
            registry.slots,
            slot as int,
            TextureModel {
                id: slot,
                ..created_texture(
                    ctx,
                    TextureManager::DEFAULT_SAMPLER_LINEAR,
                    DEPTH_FORMAT,
                    Some(shadow_map_label(id)),
                    shadow_map_extent(),
                    TextureKind::Depth,
                )
            },
        ),
        ..registry
    }
}

/// Whether the ids go up along the list.
pub open spec fn ascending(lights: Seq<Light>) -> bool {
    forall|i: int, j: int| 0 <= i < j < lights.len() ==> lights[i].id < lights[j].id
}

/// Every light that is left after a removal was there before, at the same
/// position or a later one, and does not have the removed id.
proof fn lemma_without_is_part(lights: Seq<Light>, id: LightId)
    ensures
        without(lights, id).len() <= lights.len(),
        forall|k: int|
            0 <= k < without(lights, id).len() ==> (#[trigger] without(lights, id)[k]).id != id
                && exists|i: int| k <= i < lights.len() && lights[i] == without(lights, id)[k],
    decreases lights.len(),
{
    if lights.len() > 0 {
        let shorter = lights.drop_last();
        lemma_without_is_part(shorter, id);
    }
}

/// Every light that does not have the removed id is left after the removal.
proof fn lemma_without_is_complete(lights: Seq<Light>, id: LightId)
    ensures
        forall|i: int|
            0 <= i < lights.len() && (#[trigger] lights[i]).id != id ==> exists|k: int|
                0 <= k < without(lights, id).len() && without(lights, id)[k] == lights[i],
    decreases lights.len(),
{
    if lights.len() > 0 {
        let shorter = lights.drop_last();
        let before = without(shorter, id);
        lemma_without_is_complete(shorter, id);
        assert forall|i: int| 0 <= i < lights.len() && (#[trigger] lights[i]).id != id implies exists|
            k: int,
        | 0 <= k < without(lights, id).len() && without(lights, id)[k] == lights[i] by {
            if i < shorter.len() {
                let k = choose|k: int| 0 <= k < before.len() && before[k] == shorter[i];
                assert(without(lights, id)[k] == lights[i]);
            } else {
                assert(without(lights, id)[before.len() as int] == lights[i]);
            }
        }
    }
}

/// A removal keeps the order: ids that went up along the list still do.
proof fn lemma_without_is_ascending(lights: Seq<Light>, id: LightId)
    requires
        ascending(lights),
    ensures
        ascending(without(lights, id)),
    decreases lights.len(),
{
    if lights.len() > 0 {
        let shorter = lights.drop_last();
        lemma_without_is_ascending(shorter, id);
        lemma_without_is_part(shorter, id);
    }
}

/// A removal makes the list shorter exactly if a light has the removed id.
proof fn lemma_without_shortens(lights: Seq<Light>, id: LightId)
    ensures
        without(lights, id).len() <= lights.len(),
        without(lights, id).len() < lights.len() <==> has_light(lights, id),
    decreases lights.len(),
{
    if lights.len() > 0 {
        let shorter = lights.drop_last();
        lemma_without_shortens(shorter, id);
        if has_light(shorter, id) {
            let i = choose|i: int| 0 <= i < shorter.len() && shorter[i].id == id;
        }
        if has_light(lights, id) && lights.last().id != id {
            let i = choose|i: int| 0 <= i < lights.len() && lights[i].id == id;
            assert(shorter[i].id == id);
        }
    }
}

/// Removing an id that no light has leaves the list as it is.
proof fn lemma_without_absent(lights: Seq<Light>, id: LightId)
    requires
        !has_light(lights, id),
    ensures
        without(lights, id) == lights,
    decreases lights.len(),
{
    if lights.len() > 0 {
        let shorter = lights.drop_last();
        lemma_without_absent(shorter, id);
    }
}

/// Ids are stable.
///
/// When a light is removed from a well-formed array, every light that is
/// left was there before, with the same id and the same data, and in the
/// same order; no light with the removed id is left, and every other light
/// is. The array stays well-formed and its next id stays the same, so the
/// light that is added next gets an id that no light has or had: not the
/// removed one either.
pub proof fn lemma_ids_are_stable(array: LightArrayModel, id: LightId)
    requires
        array.wf(),
    ensures
        array.removed(id).wf(),
        array.removed(id).max_id == array.max_id,
        array.removed(id).buffer == array.buffer,
        forall|k: int|
            0 <= k < array.removed(id).lights.len() ==> (#[trigger] array.removed(
                id,
            ).lights[k]).id != id && exists|i: int|
                k <= i < array.lights.len() && array.lights[i] == array.removed(id).lights[k],
        forall|i: int|
            0 <= i < array.lights.len() && (#[trigger] array.lights[i]).id != id ==> exists|
                k: int,
            |
                0 <= k < array.removed(id).lights.len() && array.removed(id).lights[k]
                    == array.lights[i],
        ascending(array.removed(id).lights),
        has_light(array.lights, id) ==> id < array.max_id,
        forall|k: int|
            0 <= k < array.removed(id).lights.len() ==> (#[trigger] array.removed(
                id,
            ).lights[k]).id < array.removed(id).max_id,
        !has_light(array.lights, id) ==> array.removed(id).lights == array.lights,
{
    lemma_without_is_part(array.lights, id);
    lemma_without_is_complete(array.lights, id);
    lemma_without_is_ascending(array.lights, id);
    if !has_light(array.lights, id) {
        lemma_without_absent(array.lights, id);
    }
    if has_light(array.lights, id) {
        let i = choose|i: int| 0 <= i < array.lights.len() && array.lights[i].id == id;
    }
}

/// The buffer doubles exactly when a light does not fit.
///
/// Adding a light to a well-formed array leaves the buffer alone while the
/// lights fit. When the new light is one too many, the buffer is replaced by
/// one of exactly twice the size, once, which has room for the light. Either
/// way the array stays well-formed.
pub proof fn lemma_growth_doubles_on_crossing(
    array: LightArrayModel,
    ctx: ContextModel,
    light: Light,
    shadow_map: TextureId,
)
    requires
        array.wf(),
        array.max_id < usize::MAX,
        array.is_full() ==> array.buffer.size * 2 <= u64::MAX,
    ensures
        !array.is_full() ==> array.added(ctx, light, shadow_map).buffer == array.buffer,
        array.is_full() ==> array.added(ctx, light, shadow_map).buffer.size == 2
            * array.buffer.size && array.added(ctx, light, shadow_map).capacity() == 2
            * array.capacity() && array.lights.len() == array.capacity(),
        array.added(ctx, light, shadow_map).lights.len() <= array.added(
            ctx,
            light,
            shadow_map,
        ).capacity(),
        array.added(ctx, light, shadow_map).wf(),
{
    let after = array.added(ctx, light, shadow_map);
    crate::buffer::lemma_created_usage_device_address(array.buffer.usage);
    if array.is_full() {
        assert(after.capacity() == 2 * array.capacity()) by (nonlinear_arith)
            requires
                after.capacity() == (array.buffer.size * 2) / 132,
                array.capacity() * 132 == array.buffer.size,
        {
        }
    }
}

/// The buffer mirrors the list.
///
/// Take any memory in which the array's buffer is live with its full size.
/// After the work of a rewrite, the buffer holds the device parts of the
/// lights as a dense array from byte 0 on: the light at position `k` of the
/// list lies at byte `132 * k`, whatever its id is, and no byte lies between
/// two lights.
pub proof fn lemma_rewrite_mirrors_lights(
    memory: Memory,
    ctx: ContextModel,
    array: LightArrayModel,
)
    requires
        0 < array.lights.len() <= array.capacity(),
        ctx.can_allocate(1),
        array.buffer.handle <= ctx.last_handle,
        perform_all(memory, ctx.work).dom().contains(array.buffer.handle),
        perform_all(memory, ctx.work)[array.buffer.handle].len() == array.buffer.size,
    ensures
        ({
            let after = perform_all(memory, array.after_rewrite(ctx).work);
            let mirror = after[array.buffer.handle];
            &&& after.dom().contains(array.buffer.handle)
            &&& mirror.len() == array.buffer.size
            &&& RAW_LIGHT_SIZE * array.lights.len() <= mirror.len()
            &&& mirror.subrange(0, RAW_LIGHT_SIZE * array.lights.len()) == defined(
                lights_bytes(array.lights),
            )
            &&& forall|k: int|
                0 <= k < array.lights.len() ==> mirror.subrange(
                    RAW_LIGHT_SIZE * k,
                    RAW_LIGHT_SIZE * k + RAW_LIGHT_SIZE,
                ) == defined(#[trigger] array.lights[k].data.spec_bytes())
        }),
{
    let bytes = lights_bytes(array.lights);
    let count = array.lights.len() as int;
    lemma_lights_bytes_layout(array.lights);
    assert(132 * count <= array.buffer.size) by (nonlinear_arith)
        requires
            count <= array.buffer.size as int / 132,
    {
    }
    crate::buffer::lemma_write_stores_data(memory, ctx, array.buffer, bytes, 0);
}

/// The buffer mirrors the list after a light has been added.
///
/// Take any memory in which the array's buffer is live with its full size
/// when the buffer's turn comes in `add_light`. After the buffer has made
/// room, if it had to, and the list has been rewritten, the buffer of the
/// array holds the device parts of all lights, the new one last, as a dense
/// array from byte 0 on.
pub proof fn lemma_added_light_is_mirrored(
    memory: Memory,
    ctx: ContextModel,
    array: LightArrayModel,
    light: Light,
    shadow_map: TextureId,
)
    requires
        array.wf(),
        array.max_id < usize::MAX,
        array.is_full() ==> array.buffer.size * 2 <= u64::MAX,
        ctx.can_allocate(2),
        array.buffer.handle <= ctx.last_handle,
        perform_all(memory, ctx.work).dom().contains(array.buffer.handle),
        perform_all(memory, ctx.work)[array.buffer.handle].len() == array.buffer.size,
    ensures
        ({
            let added = array.added(ctx, light, shadow_map);
            let after = perform_all(memory, added.after_rewrite(array.after_grow(ctx)).work);
            let mirror = after[added.buffer.handle];
            &&& after.dom().contains(added.buffer.handle)
            &&& mirror.len() == added.buffer.size
            &&& RAW_LIGHT_SIZE * added.lights.len() <= mirror.len()
            &&& mirror.subrange(0, RAW_LIGHT_SIZE * added.lights.len()) == defined(
                lights_bytes(added.lights),
            )
            &&& forall|k: int|
                0 <= k < added.lights.len() ==> mirror.subrange(
                    RAW_LIGHT_SIZE * k,
                    RAW_LIGHT_SIZE * k + RAW_LIGHT_SIZE,
                ) == defined(#[trigger] added.lights[k].data.spec_bytes())
        }),
{
    let added = array.added(ctx, light, shadow_map);
    lemma_growth_doubles_on_crossing(array, ctx, light, shadow_map);
    if array.is_full() {
        crate::buffer::lemma_resize_preserves_prefix(
            memory,
            ctx,
            array.buffer,
            (array.buffer.size * 2) as u64,
        );
    }
    lemma_rewrite_mirrors_lights(memory, array.after_grow(ctx), added);
}

/// An update touches one light.
///
/// Take any memory in which the array's buffer is live with its full size.
/// After the work of writing back the light at position `index`, the buffer
/// holds the new bytes of that light at byte `132 * index`, and every other
/// byte of the buffer is what it was.
pub proof fn lemma_update_touches_one_light(
    memory: Memory,
    ctx: ContextModel,
    array: LightArrayModel,
    index: int,
    data: RawLight,
)
    requires
        0 <= index < array.capacity(),
        ctx.can_allocate(1),
        array.buffer.handle <= ctx.last_handle,
        perform_all(memory, ctx.work).dom().contains(array.buffer.handle),
        perform_all(memory, ctx.work)[array.buffer.handle].len() == array.buffer.size,
    ensures
        ({
            let before = perform_all(memory, ctx.work)[array.buffer.handle];
            let after = perform_all(
                memory,
                after_write(
                    ctx,
                    array.buffer,
                    data.spec_bytes(),
                    (index * RAW_LIGHT_SIZE) as u64,
                ).work,
            )[array.buffer.handle];
            &&& after.len() == before.len()
            &&& RAW_LIGHT_SIZE * index + RAW_LIGHT_SIZE <= after.len()
            &&& after.subrange(RAW_LIGHT_SIZE * index, RAW_LIGHT_SIZE * index + RAW_LIGHT_SIZE)
                == defined(data.spec_bytes())
            &&& forall|i: int|
                0 <= i < RAW_LIGHT_SIZE * index || RAW_LIGHT_SIZE * index + RAW_LIGHT_SIZE <= i
                    < after.len() ==> after[i] == before[i]
        }),
{
    lemma_words_bytes_len(data.spec_words());
    assert(132 * index + 132 <= array.buffer.size) by (nonlinear_arith)
        requires
            0 <= index < array.buffer.size as int / 132,
    {
    }
    crate::buffer::lemma_write_stores_data(
        memory,
        ctx,
        array.buffer,
        data.spec_bytes(),
        (index * RAW_LIGHT_SIZE) as u64,
    );
}

} // verus!
