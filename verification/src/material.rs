//! Materials and the material table.

use crate::buffer::{
    after_create_buffer, after_write, created_buffer, lemma_created_usage_device_address,
    AllocatedBuffer, BufferModel, GpuData,
};
use crate::deletion::DeletionQueue;
use crate::device::{clone_label, label_model};
use crate::pod::{words_bytes, words_to_bytes};
use crate::registry::TextureManager;
use crate::submit::{reversed, Cleanup, CleanupModel, ContextModel, SubmitContext};
use crate::texture::TextureId;
use crate::usage::{
    AllocUsage, BUFFER_USAGE_SHADER_DEVICE_ADDRESS, BUFFER_USAGE_STORAGE_BUFFER,
    BUFFER_USAGE_TRANSFER_DST,
};
use vstd::prelude::*;

verus! {

/// A table from ids to positions, kept in a `hashbrown::HashMap`.
#[verifier::external_body]
pub struct IdTable {
    map: hashbrown::HashMap<usize, usize>,
}

/// What an id table holds: the position that is stored for each id.
pub uninterp spec fn table_contents(table: IdTable) -> Map<usize, usize>;

/// A table that holds nothing.
pub open spec fn empty_table() -> Map<usize, usize> {
    Map::empty()
}

/// What `Option` a lookup of `id` gives in a table that holds `contents`.
pub open spec fn lookup(contents: Map<usize, usize>, id: usize) -> Option<usize> {
    if contents.dom().contains(id) {
        Some(contents[id])
    } else {
        None
    }
}

/// Calls `hashbrown::HashMap::new`, which gives an empty map.
#[verifier::external_body]
fn table_new() -> (created: IdTable)
    ensures
        table_contents(created) == empty_table(),
{
    IdTable { map: hashbrown::HashMap::new() }
}

/// Calls `hashbrown::HashMap::insert`, which stores the value under the key,
/// in place of a value that was stored under it before, and returns that
/// earlier value.
#[verifier::external_body]
fn table_insert(table: &mut IdTable, id: usize, position: usize) -> (earlier: Option<usize>)
    ensures
        table_contents(*final(table)) == table_contents(*old(table)).insert(id, position),
        earlier == lookup(table_contents(*old(table)), id),
{
    table.map.insert(id, position)
}

/// Calls `hashbrown::HashMap::get`, which returns the value that is stored
/// under the key, if there is one.
#[verifier::external_body]
fn table_get(table: &IdTable, id: usize) -> (position: Option<usize>)
    ensures
        position == lookup(table_contents(*table), id),
{
    table.map.get(&id).copied()
}

/// Identifies a material. Ids go up by one with every material that is
/// added and are never handed out twice.
pub type MaterialId = usize;

/// The bit pattern of the single precision number 1.0.
pub const ONE: u32 = 0x3f80_0000;

/// The usage bits of a material buffer.
pub const MATERIAL_BUFFER_USAGE: u32 = BUFFER_USAGE_STORAGE_BUFFER | BUFFER_USAGE_TRANSFER_DST
    | BUFFER_USAGE_SHADER_DEVICE_ADDRESS;

/// A material that is not lit: four words of four bytes. `color` holds IEEE
/// 754 single precision bit patterns.
#[derive(Debug, Copy, Clone, PartialEq, Eq)]
pub struct UnlitMaterial {
    /// The slot of the texture, 0 if there is none.
    pub texture: TextureId,
    pub color: [u32; 3],
}

/// A physically based material: eight words of four bytes. Every field but
/// `texture` is an IEEE 754 single precision bit pattern.
#[derive(Debug, Copy, Clone, PartialEq, Eq)]
pub struct PbrMaterial {
    pub albedo: [u32; 4],
    /// The slot of the texture, 0 if there is none.
    pub texture: TextureId,
    pub metallic: u32,
    pub roughness: u32,
    pub padding: u32,
}

/// The device part of a material.
#[derive(Debug, Copy, Clone, PartialEq, Eq)]
pub enum RawMaterial {
    Unlit(UnlitMaterial),
    Pbr(PbrMaterial),
}

impl UnlitMaterial {
    /// The words of the material in the order shaders read them.
    pub open spec fn spec_words(self) -> Seq<u32> {
        seq![self.texture, self.color[0], self.color[1], self.color[2]]
    }

    /// The words of the material in the order shaders read them.
    pub fn words(&self) -> (words: Vec<u32>)
        ensures
            words@ == self.spec_words(),
    {
        let words = vec![self.texture, self.color[0], self.color[1], self.color[2]];
        words
    }
}

impl Default for UnlitMaterial {
    /// White, without a texture.
    fn default() -> (material: Self)
        ensures
            material.texture == 0,
            material.color@ == seq![ONE, ONE, ONE],
    {
        let material = UnlitMaterial { texture: 0, color: [ONE, ONE, ONE] };
        material
    }
}

impl PbrMaterial {
    /// The words of the material in the order shaders read them.
    pub open spec fn spec_words(self) -> Seq<u32> {
        seq![
            self.albedo[0],
            self.albedo[1],
            self.albedo[2],
            self.albedo[3],
            self.texture,
            self.metallic,
            self.roughness,
            self.padding,
        ]
    }

    /// The words of the material in the order shaders read them.
    pub fn words(&self) -> (words: Vec<u32>)
        ensures
            words@ == self.spec_words(),
    {
        let words = vec![
            self.albedo[0],
            self.albedo[1],
            self.albedo[2],
            self.albedo[3],
            self.texture,
            self.metallic,
            self.roughness,
            self.padding,
        ];
        words
    }
}

impl Default for PbrMaterial {
    /// White, without a texture, neither metallic nor rough.
    fn default() -> (material: Self)
        ensures
            material.texture == 0,
            material.albedo@ == seq![ONE, ONE, ONE, ONE],
            material.metallic == 0,
            material.roughness == 0,
            material.padding == 0,
    {
        let material = PbrMaterial {
            texture: 0,
            albedo: [ONE, ONE, ONE, ONE],
            metallic: 0,
            roughness: 0,
            padding: 0,
        };
        material
    }
}

impl RawMaterial {
    /// The words of the material in the order shaders read them.
    pub open spec fn spec_words(self) -> Seq<u32> {
        match self {
            RawMaterial::Unlit(unlit) => unlit.spec_words(),
            RawMaterial::Pbr(pbr) => pbr.spec_words(),
        }
    }

    /// The bytes of the material as they lie in device memory: 16 for an
    /// unlit material, 32 for a physically based one.
    pub open spec fn spec_bytes(self) -> Seq<u8> {
        words_bytes(self.spec_words())
    }

    /// The bytes of the material as they lie in device memory.
    pub fn to_bytes(&self) -> (bytes: Vec<u8>)
        ensures
            bytes@ == self.spec_bytes(),
            bytes@.len() == 4 * self.spec_words().len(),
            bytes@.len() == 16 || bytes@.len() == 32,
    {
        let words = match self {
            RawMaterial::Unlit(unlit) => unlit.words(),
            RawMaterial::Pbr(pbr) => pbr.words(),
        };
        words_to_bytes(words.as_slice())
    }
}

impl GpuData for RawMaterial {
    open spec fn gpu_bytes(&self) -> Seq<u8> {
        self.spec_bytes()
    }

    fn to_gpu_bytes(&self) -> (bytes: Vec<u8>) {
        self.to_bytes()
    }
}

/// The mathematical value of a [`Material`].
pub struct MaterialModel {
    pub id: MaterialId,
    pub label: Option<Seq<char>>,
    pub buffer: BufferModel,
    pub data: RawMaterial,
}

/// The buffer of the material that a context creates next.
pub open spec fn material_buffer(
    ctx: ContextModel,
    label: Option<Seq<char>>,
    data: RawMaterial,
) -> BufferModel {
    created_buffer(
        ctx,
        MATERIAL_BUFFER_USAGE,
        AllocUsage::GpuOnly,
        data.spec_bytes().len() as u64,
        label,
    )
}

/// The material that a context creates next: not yet in a table, so its id
/// is zero.
pub open spec fn created_material(
    ctx: ContextModel,
    label: Option<Seq<char>>,
    data: RawMaterial,
) -> MaterialModel {
    MaterialModel { id: 0, label, buffer: material_buffer(ctx, label, data), data }
}

/// The context after it has created a material: the buffer is created and
/// the material's bytes are written to it.
pub open spec fn after_create_material(
    ctx: ContextModel,
    label: Option<Seq<char>>,
    data: RawMaterial,
) -> ContextModel {
    after_write(
        after_create_buffer(
            ctx,
            MATERIAL_BUFFER_USAGE,
            AllocUsage::GpuOnly,
            data.spec_bytes().len() as u64,
            label,
        ),
        material_buffer(ctx, label, data),
        data.spec_bytes(),
        0,
    )
}

/// A material with the buffer that holds it on the device.
#[derive(Debug)]
pub struct Material {
    pub id: MaterialId,
    pub label: Option<String>,
    buffer: AllocatedBuffer,
    pub data: RawMaterial,
}

impl View for Material {
    type V = MaterialModel;

    closed spec fn view(&self) -> MaterialModel {
        MaterialModel {
            id: self.id,
            label: label_model(self.label),
            buffer: self.buffer@,
            data: self.data,
        }
    }
}

impl Material {
    /// Creates a material: a buffer as large as the material's bytes, which
    /// shaders can take the address of, and a write of the bytes to it.
    pub fn new(label: Option<String>, data: RawMaterial, ctx: &mut SubmitContext) -> (material:
        Self)
        requires
            old(ctx)@.can_allocate(2),
        ensures
            material@ == created_material(old(ctx)@, label_model(label), data),
            material@.buffer.has_device_address(),
            final(ctx)@ == after_create_material(old(ctx)@, label_model(label), data),
    {
        let bytes = data.to_bytes();
        let mut buffer = AllocatedBuffer::new(
            ctx,
            MATERIAL_BUFFER_USAGE,
            AllocUsage::GpuOnly,
            bytes.len() as u64,
            clone_label(&label),
        );
        buffer.write(bytes.as_slice(), 0, ctx);
        proof {
            lemma_created_usage_device_address(MATERIAL_BUFFER_USAGE);
            assert((0x20u32 | 0x2u32 | 0x20000u32) & 0x20000u32 == 0x20000u32) by (bit_vector);
        }
        Material { id: 0, label, buffer, data }
    }

    /// The destruction of the material's buffer, for a context or a deletion
    /// queue to run when the device is done with the material.
    pub fn destroy(self) -> (cleanup: Cleanup)
        ensures
            cleanup@ == CleanupModel::Buffer(self@.buffer),
    {
        let Material { id: _, label: _, buffer, data: _ } = self;
        Cleanup::Buffer(buffer)
    }

    /// The buffer that holds the material on the device.
    pub fn buffer(&self) -> (buffer: &AllocatedBuffer)
        ensures
            buffer@ == self@.buffer,
    {
        &self.buffer
    }

    /// The address of the material's buffer for shaders.
    pub fn buffer_address(&self) -> (address: u64)
        requires
            self@.buffer.has_device_address(),
        ensures
            address == self@.buffer.handle,
            address != 0,
    {
        self.buffer.device_address()
    }
}

/// The mathematical value of a [`MaterialManager`].
pub struct MaterialsModel {
    /// The materials in the order they were added.
    pub materials: Seq<MaterialModel>,
    /// The position of each material, by id.
    pub index: Map<usize, usize>,
    /// The id of the material that is added next.
    pub max_id: MaterialId,
}

impl MaterialsModel {
    /// The table finds every material under its id and nothing else, the
    /// ids are below the next id, and shaders can take the address of every
    /// material's buffer.
    pub open spec fn wf(self) -> bool {
        &&& forall|id: usize| #[trigger]
            self.index.dom().contains(id) ==> self.index[id] < self.materials.len()
                && self.materials[self.index[id] as int].id == id
        &&& forall|i: int|
            0 <= i < self.materials.len() ==> {
                let material = #[trigger] self.materials[i];
                &&& self.index.dom().contains(material.id)
                &&& self.index[material.id] == i
                &&& material.id < self.max_id
                &&& material.buffer.has_device_address()
            }
    }

    /// The material with id `id`, if there is one.
    pub open spec fn get(self, id: MaterialId) -> Option<MaterialModel> {
        if self.index.dom().contains(id) {
            Some(self.materials[self.index[id] as int])
        } else {
            None
        }
    }

    /// The table after `material` has been added under the next id.
    pub open spec fn added(self, material: MaterialModel) -> MaterialsModel {
        MaterialsModel {
            materials: self.materials.push(MaterialModel { id: self.max_id, ..material }),
            index: self.index.insert(self.max_id, self.materials.len() as usize),
            max_id: (self.max_id + 1) as usize,
        }
    }
}

/// The mathematical values of a list of materials.
pub open spec fn materials_model(materials: Seq<Material>) -> Seq<MaterialModel> {
    materials.map_values(|material: Material| material@)
}

/// The materials of the scene, found by id.
pub struct MaterialManager {
    materials: Vec<Material>,
    index: IdTable,
    max_id: MaterialId,
}

impl View for MaterialManager {
    type V = MaterialsModel;

    closed spec fn view(&self) -> MaterialsModel {
        MaterialsModel {
            materials: materials_model(self.materials@),
            index: table_contents(self.index),
            max_id: self.max_id,
        }
    }
}

/// The default material: physically based, white, with the white default
/// texture.
pub open spec fn default_material() -> RawMaterial {
    RawMaterial::Pbr(
        PbrMaterial {
            albedo: [ONE, ONE, ONE, ONE],
            texture: TextureManager::DEFAULT_TEXTURE_WHITE,
            metallic: 0,
            roughness: 0,
            padding: 0,
        },
    )
}

impl MaterialManager {
    /// The id of the default material.
    pub const DEFAULT_MATERIAL: MaterialId = 0;

    /// A table that holds the default material under id 0. The default
    /// material is created as a nested operation of `ctx`.
    pub fn new(ctx: &mut SubmitContext) -> (manager: Self)
        requires
            old(ctx)@.can_allocate(2),
        ensures
            manager@ == (MaterialsModel {
                materials: seq![
                    created_material(
                        old(ctx)@,
                        Some("Default material"@),
                        default_material(),
                    ),
                ],
                index: empty_table().insert(0, 0),
                max_id: 1,
            }),
            manager@.wf(),
            final(ctx)@ == after_create_material(
                old(ctx)@,
                Some("Default material"@),
                default_material(),
            ),
    {
        let ghost start = ctx@;
        let ghost nested = start.child();
        let data = RawMaterial::Pbr(
            PbrMaterial {
                albedo: [ONE, ONE, ONE, ONE],
                texture: TextureManager::DEFAULT_TEXTURE_WHITE,
                metallic: 0,
                roughness: 0,
                padding: 0,
            },
        );
        let create = |ctx: &mut SubmitContext| -> (material: Material)
            requires
                (*ctx)@ == nested,
            ensures
                material@ == created_material(nested, Some("Default material"@), data),
                material@.buffer.has_device_address(),
                (*final(ctx))@ == after_create_material(nested, Some("Default material"@), data),
            { Material::new(Some("Default material".to_owned()), data, ctx) };
        let material = ctx.nest(create);
        proof {
            let left = after_create_material(nested, Some("Default material"@), data);
            let direct = after_create_material(start, Some("Default material"@), data);
            assert(start.absorb(left).work =~= direct.work);
            assert(start.absorb(left).cleanup =~= direct.cleanup);
        }
        let mut materials: Vec<Material> = Vec::new();
        let mut index = table_new();
        let ghost stored = material@;
        materials.push(material);
        table_insert(&mut index, 0, 0);
        assert(materials_model(materials@) =~= seq![stored]);
        MaterialManager { materials, index, max_id: 1 }
    }

    /// Adds a material under the next id and returns the id.
    pub fn add_material(&mut self, material: Material) -> (id: MaterialId)
        requires
            old(self)@.wf(),
            old(self)@.max_id < usize::MAX,
            material@.buffer.has_device_address(),
        ensures
            id == old(self)@.max_id,
            final(self)@ == old(self)@.added(material@),
            final(self)@.wf(),
            final(self)@.get(id) == Some(MaterialModel { id, ..material@ }),
    {
        let mut material = material;
        material.id = self.max_id;
        let ghost stored = material@;
        let ghost before = self@;
        let position = self.materials.len();
        self.materials.push(material);
        assert(materials_model(self.materials@) =~= before.materials.push(stored));
        table_insert(&mut self.index, self.max_id, position);
        self.max_id += 1;
        proof {
            let after = self@;
            assert forall|i: int| 0 <= i < after.materials.len() implies {
                let material = #[trigger] after.materials[i];
                &&& after.index.dom().contains(material.id)
                &&& after.index[material.id] == i
                &&& material.id < after.max_id
                &&& material.buffer.has_device_address()
            } by {}
        }
        self.max_id - 1
    }

    /// The materials in the order they were added.
    pub fn iter_materials(&self) -> (materials: Vec<&Material>)
        ensures
            materials@.map_values(|material: &Material| material@) == self@.materials,
    {
        let mut found: Vec<&Material> = Vec::new();
        let mut i: usize = 0;
        while i < self.materials.len()
            invariant
                i <= self.materials@.len(),
                found@.map_values(|material: &Material| material@) == self@.materials.subrange(
                    0,
                    i as int,
                ),
            decreases self.materials@.len() - i,
        {
            let ghost before = found@;
            found.push(&self.materials[i]);
            assert(found@.map_values(|material: &Material| material@) =~= before.map_values(
                |material: &Material| material@,
            ).push(self.materials@[i as int]@));
            i += 1;
        }
        found
    }

    /// Gives the table up: the buffer of every material joins `queue`, in
    /// the order the materials were added.
    pub fn destroy(self, queue: &mut DeletionQueue)
        ensures
            final(queue)@ == old(queue)@ + self@.materials.map_values(
                |material: MaterialModel| CleanupModel::Buffer(material.buffer),
            ),
    {
        let ghost all = self@.materials;
        let ghost waiting = queue@;
        let MaterialManager { materials, index: _, max_id: _ } = self;
        let ghost list = materials@;
        let mut rest = reversed(materials);
        let ghost turned = rest@;
        while rest.len() > 0
            invariant
                rest@.len() <= list.len(),
                turned.len() == list.len(),
                all == materials_model(list),
                rest@ == turned.subrange(0, rest@.len() as int),
                forall|i: int| 0 <= i < list.len() ==> turned[i] == list[list.len() - 1 - i],
                queue@ == waiting + all.subrange(0, list.len() - rest@.len()).map_values(
                    |material: MaterialModel| CleanupModel::Buffer(material.buffer),
                ),
            decreases rest.len(),
        {
            let material = rest.pop().unwrap();
            queue.push(material.destroy());
        }
    }

    /// One more than the id of the material that is added next.
    pub fn next_free_id(&self) -> (id: MaterialId)
        requires
            self@.max_id < usize::MAX,
        ensures
            id == self@.max_id + 1,
    {
        self.max_id + 1
    }

    /// The material with id `id`, if there is one, for changing it in place.
    /// The table afterwards holds at the material's position what the caller
    /// leaves there, and nothing else changes.
    pub fn get_material_mut(&mut self, id: MaterialId) -> (material: Option<&mut Material>)
        requires
            old(self)@.wf(),
        ensures
            match material {
                Some(found) => {
                    &&& old(self)@.get(id) == Some((*found)@)
                    &&& final(self)@.materials.len() == old(self)@.materials.len()
                    &&& final(self)@.materials[old(self)@.index[id] as int] == (*final(found))@
                    &&& forall|i: int|
                        0 <= i < old(self)@.materials.len() && i != old(self)@.index[id]
                            ==> final(self)@.materials[i] == old(self)@.materials[i]
                    &&& final(self)@.index == old(self)@.index
                    &&& final(self)@.max_id == old(self)@.max_id
                },
                None => old(self)@.get(id) is None && final(self)@ == old(self)@,
            },
    {
        match table_get(&self.index, id) {
            Some(position) => Some(&mut self.materials[position]),
            None => None,
        }
    }

    /// The material with id `id`, if there is one.
    pub fn get_material(&self, id: MaterialId) -> (material: Option<&Material>)
        requires
            self@.wf(),
        ensures
            match material {
                Some(found) => self@.get(id) == Some(found@) && found@.id == id,
                None => self@.get(id) is None,
            },
    {
        match table_get(&self.index, id) {
            Some(position) => Some(&self.materials[position]),
            None => None,
        }
    }
}

} // verus!
