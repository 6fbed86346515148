use gpu_resources::buffer::GpuData;
use gpu_resources::device::DeviceOp;
use gpu_resources::material::{
    Material, MaterialManager, PbrMaterial, RawMaterial, UnlitMaterial, MATERIAL_BUFFER_USAGE, ONE,
};
use gpu_resources::submit::{Cleanup, SubmitContext};
use gpu_resources::registry::TextureManager;
use gpu_resources::usage::AllocUsage;

#[test]
fn one_is_the_bit_pattern_of_one() {
    assert_eq!(ONE, 1.0f32.to_bits());
}

#[test]
fn default_materials_are_white_without_texture() {
    let unlit = UnlitMaterial::default();
    assert_eq!(unlit.texture, 0);
    assert_eq!(unlit.color, [ONE; 3]);
    let pbr = PbrMaterial::default();
    assert_eq!(pbr.texture, 0);
    assert_eq!(pbr.albedo, [ONE; 4]);
    assert_eq!(pbr.metallic, 0.0f32.to_bits());
    assert_eq!(pbr.roughness, 0.0f32.to_bits());
    assert_eq!(pbr.padding, 0);
}

#[test]
fn unlit_material_is_16_bytes_and_pbr_material_32() {
    let unlit = RawMaterial::Unlit(UnlitMaterial { texture: 0x0102_0304, color: [1, 2, 3] });
    assert_eq!(
        unlit.to_bytes(),
        vec![4, 3, 2, 1, 1, 0, 0, 0, 2, 0, 0, 0, 3, 0, 0, 0]
    );
    let pbr = RawMaterial::Pbr(PbrMaterial {
        albedo: [1, 2, 3, 4],
        texture: 5,
        metallic: 6,
        roughness: 7,
        padding: 8,
    });
    let bytes = pbr.to_bytes();
    assert_eq!(bytes.len(), 32);
    for word in 0..8 {
        assert_eq!(&bytes[4 * word..4 * word + 4], &[word as u8 + 1, 0, 0, 0]);
    }
    assert_eq!(pbr.to_gpu_bytes(), bytes);
}

#[test]
fn new_material_creates_its_buffer_and_writes_itself() {
    let mut ctx = SubmitContext::new(1, 2, 3, 0);
    let data = RawMaterial::Unlit(UnlitMaterial { texture: 2, color: [ONE, 0, 0] });
    let material = Material::new(Some("red".to_string()), data, &mut ctx);
    assert_eq!(material.id, 0);
    assert_eq!(material.label, Some("red".to_string()));
    assert_eq!(material.data, data);
    assert_eq!(material.buffer().size(), 16);
    assert_eq!(material.buffer().alloc_usage(), AllocUsage::GpuOnly);
    assert_eq!(material.buffer().usage(), MATERIAL_BUFFER_USAGE | 0x1);
    assert_eq!(MATERIAL_BUFFER_USAGE, 0x20022);
    assert_ne!(material.buffer_address(), 0);
    assert_eq!(material.buffer_address(), material.buffer().handle());
    assert_eq!(
        ctx.recorded()[..],
        [
            DeviceOp::CreateBuffer {
                buffer: 1,
                size: 16,
                usage: 0x20023,
                memory: AllocUsage::GpuOnly,
                label: Some("red".to_string()),
            },
            DeviceOp::CreateBuffer {
                buffer: 2,
                size: 16,
                usage: 0x3,
                memory: AllocUsage::Shared,
                label: Some("Staging Buffer for AllocatedBuffer red".to_string()),
            },
            DeviceOp::Upload { buffer: 2, data: data.to_bytes() },
            DeviceOp::CopyBuffer { src: 2, dst: 1, src_offset: 0, dst_offset: 0, size: 16 },
        ]
    );
    assert!(matches!(&ctx.pending()[..], [Cleanup::Buffer(staging)] if staging.handle() == 2));
}

#[test]
fn new_table_holds_the_default_material_under_id_zero() {
    let mut ctx = SubmitContext::new(1, 2, 3, 0);
    let manager = MaterialManager::new(&mut ctx);
    let default = manager.get_material(MaterialManager::DEFAULT_MATERIAL).unwrap();
    assert_eq!(default.id, 0);
    assert_eq!(default.label, Some("Default material".to_string()));
    assert_eq!(
        default.data,
        RawMaterial::Pbr(PbrMaterial {
            albedo: [ONE; 4],
            texture: TextureManager::DEFAULT_TEXTURE_WHITE,
            metallic: 0,
            roughness: 0,
            padding: 0,
        })
    );
    assert_eq!(default.buffer().size(), 32);
    assert!(manager.get_material(1).is_none());
    assert_eq!(manager.iter_materials().len(), 1);
    // The nested creation has left its work and its cleanup in the context.
    assert_eq!(ctx.recorded().len(), 4);
    assert_eq!(ctx.pending().len(), 1);
    assert_eq!(ctx.last_handle(), 2);
}

#[test]
fn added_materials_get_increasing_ids_and_are_found_by_them() {
    let mut ctx = SubmitContext::new(1, 2, 3, 0);
    let mut manager = MaterialManager::new(&mut ctx);
    assert_eq!(manager.next_free_id(), 2);
    let red = Material::new(
        Some("red".to_string()),
        RawMaterial::Unlit(UnlitMaterial { texture: 0, color: [ONE, 0, 0] }),
        &mut ctx,
    );
    let blue = Material::new(
        Some("blue".to_string()),
        RawMaterial::Unlit(UnlitMaterial { texture: 0, color: [0, 0, ONE] }),
        &mut ctx,
    );
    let red_buffer = red.buffer().handle();
    assert_eq!(manager.add_material(red), 1);
    assert_eq!(manager.add_material(blue), 2);
    assert_eq!(manager.next_free_id(), 4);
    let found = manager.get_material(1).unwrap();
    assert_eq!(found.id, 1);
    assert_eq!(found.label, Some("red".to_string()));
    assert_eq!(found.buffer().handle(), red_buffer);
    assert_eq!(manager.get_material(2).unwrap().label, Some("blue".to_string()));
    assert!(manager.get_material(3).is_none());
    assert_eq!(
        manager.iter_materials().iter().map(|material| material.id).collect::<Vec<usize>>(),
        vec![0, 1, 2]
    );
}

#[test]
fn destroyed_table_queues_every_buffer_in_order() {
    let mut ctx = SubmitContext::new(1, 2, 3, 0);
    let mut manager = MaterialManager::new(&mut ctx);
    let red = Material::new(
        None,
        RawMaterial::Unlit(UnlitMaterial { texture: 0, color: [ONE, 0, 0] }),
        &mut ctx,
    );
    let red_buffer = red.buffer().handle();
    manager.add_material(red);
    let mut queue = gpu_resources::deletion::DeletionQueue::new();
    manager.destroy(&mut queue);
    let order: Vec<u64> = queue
        .flush()
        .iter()
        .map(|cleanup| match cleanup {
            Cleanup::Buffer(buffer) => buffer.handle(),
            other => panic!("unexpected cleanup {:?}", other),
        })
        .collect();
    assert_eq!(order, vec![1, red_buffer]);
}

#[test]
fn material_is_changed_in_place() {
    let mut ctx = SubmitContext::new(1, 2, 3, 0);
    let mut manager = MaterialManager::new(&mut ctx);
    let red = Material::new(
        Some("red".to_string()),
        RawMaterial::Unlit(UnlitMaterial { texture: 0, color: [ONE, 0, 0] }),
        &mut ctx,
    );
    manager.add_material(red);
    manager.get_material_mut(1).unwrap().label = Some("crimson".to_string());
    assert_eq!(manager.get_material(1).unwrap().label, Some("crimson".to_string()));
    assert_eq!(manager.get_material(0).unwrap().label, Some("Default material".to_string()));
    assert!(manager.get_material_mut(5).is_none());
}
