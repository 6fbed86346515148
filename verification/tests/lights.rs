use gpu_resources::buffer::{GpuData, WrappedBuffer};
use gpu_resources::device::{DeviceOp, Extent3D, ImageFormat};
use gpu_resources::light::{
    decimal_string, Light, LightManager, LightMeta, RawLight, DEPTH_FORMAT, PREALLOC_COUNT, RAW_LIGHT_SIZE,
    RAW_LIGHT_WORDS, SHADOW_MAP_SIZE,
};
use gpu_resources::submit::{Cleanup, SubmitContext};
use gpu_resources::registry::{TextureManager};
use gpu_resources::texture::{TextureKind};
use gpu_resources::usage::AllocUsage;
use std::collections::HashMap;

fn run(memory: &mut HashMap<u64, Vec<Option<u8>>>, work: &[DeviceOp]) {
    for op in work {
        match op {
            DeviceOp::CreateBuffer { buffer, size, .. } => {
                memory.insert(*buffer, vec![None; *size as usize]);
            }
            DeviceOp::Upload { buffer, data } => {
                let target = memory.get_mut(buffer).unwrap();
                for (i, byte) in data.iter().enumerate() {
                    target[i] = Some(*byte);
                }
            }
            DeviceOp::CopyBuffer { src, dst, src_offset, dst_offset, size } => {
                let from = memory[src].clone();
                let target = memory.get_mut(dst).unwrap();
                for i in 0..*size as usize {
                    target[*dst_offset as usize + i] = from[*src_offset as usize + i];
                }
            }
            _ => {}
        }
    }
}

fn light(seed: u32) -> Light {
    Light {
        id: 999,
        meta: LightMeta::Pointlight,
        data: RawLight {
            position: [seed, seed + 1, seed + 2, 1.0f32.to_bits()],
            color: [0x3f80_0000; 4],
            viewproj: [seed; 16],
            direction: [0, 0, 0x3f80_0000, 0],
            intensity: 2.5f32.to_bits(),
            cutoff_angle: seed,
            inner_angle: seed,
            radius: 100.0f32.to_bits(),
            shadow_map: 12345,
        },
    }
}

fn scene(ctx: &mut SubmitContext) -> (LightManager, TextureManager) {
    let textures = TextureManager::new(77, ctx);
    let lights = LightManager::new(ctx);
    (lights, textures)
}

fn resizes(ctx: &SubmitContext, light_buffer_sizes: &[u64]) -> usize {
    ctx.recorded()
        .iter()
        .filter(|op| {
            matches!(op, DeviceOp::CreateBuffer { size, memory: AllocUsage::GpuOnly, .. }
                if light_buffer_sizes.contains(size))
        })
        .count()
}

#[test]
fn raw_light_is_33_words_of_4_bytes_lowest_first() {
    let raw = RawLight {
        position: [0x0403_0201, 2, 3, 4],
        color: [5, 6, 7, 8],
        viewproj: [9, 10, 11, 12, 13, 14, 15, 16, 17, 18, 19, 20, 21, 22, 23, 24],
        direction: [25, 26, 27, 28],
        intensity: 29,
        cutoff_angle: 30,
        inner_angle: 31,
        radius: 32,
        shadow_map: 0xaabb_ccdd,
    };
    let words = raw.words();
    assert_eq!(words.len(), RAW_LIGHT_WORDS);
    assert_eq!(words[0], 0x0403_0201);
    assert_eq!(&words[1..32], &(2..=32).collect::<Vec<u32>>()[..]);
    assert_eq!(words[32], 0xaabb_ccdd);
    let bytes = raw.to_bytes();
    assert_eq!(bytes.len() as u64, RAW_LIGHT_SIZE);
    assert_eq!(RAW_LIGHT_SIZE, 132);
    assert_eq!(&bytes[..8], &[1, 2, 3, 4, 2, 0, 0, 0]);
    assert_eq!(&bytes[128..], &[0xdd, 0xcc, 0xbb, 0xaa]);
    assert_eq!(raw.to_gpu_bytes(), bytes);
    let mut appended = vec![42];
    raw.append_bytes(&mut appended);
    assert_eq!(appended[0], 42);
    assert_eq!(&appended[1..], &bytes[..]);
}

#[test]
fn new_light_array_has_room_for_sixteen_lights() {
    let mut ctx = SubmitContext::new(1, 2, 3, 0);
    let lights = LightManager::new(&mut ctx);
    assert_eq!(lights.count(), 0);
    assert!(!lights.count_dirty);
    assert_eq!(lights.buffer().size(), 16 * 132);
    assert_eq!(PREALLOC_COUNT, 16);
    assert!(lights.buffer().has_device_address());
    assert_eq!(lights.buffer().alloc_usage(), AllocUsage::GpuOnly);
    assert_eq!(lights.buffer().label(), &Some("Light Buffer".to_string()));
    assert_ne!(lights.device_address(), 0);
    assert_eq!(lights.device_address(), lights.buffer().handle());
    assert!(lights.keys().is_empty());
}

#[test]
fn add_light_assigns_the_next_id_and_a_shadow_map() {
    let mut ctx = SubmitContext::new(1, 2, 3, 0);
    let (mut lights, mut textures) = scene(&mut ctx);
    let id = lights.add_light(light(7), &mut ctx, &mut textures);
    assert_eq!(id, 0);
    assert!(lights.count_dirty);
    assert_eq!(lights.count(), 1);
    let stored = lights.get_light(0).unwrap();
    assert_eq!(stored.id, 0);
    assert_eq!(stored.data.shadow_map, 4);
    assert_eq!(stored.data.position, light(7).data.position);
    assert_eq!(stored.meta, LightMeta::Pointlight);
    let shadow_map = textures.get_texture(4).unwrap();
    assert_eq!(shadow_map.kind(), TextureKind::Depth);
    assert_eq!(shadow_map.sampler(), TextureManager::DEFAULT_SAMPLER_LINEAR);
    assert_eq!(shadow_map.image().format(), DEPTH_FORMAT);
    assert_eq!(DEPTH_FORMAT, ImageFormat::D32Sfloat);
    assert_eq!(shadow_map.image().extent(), Extent3D { width: 2048, height: 2048, depth: 1 });
    assert_eq!(SHADOW_MAP_SIZE, (2048, 2048));
    assert_eq!(shadow_map.image().label(), &Some("shadow_map_0".to_string()));
    let second = lights.add_light(light(8), &mut ctx, &mut textures);
    assert_eq!(second, 1);
    assert_eq!(
        textures.get_texture(5).unwrap().image().label(),
        &Some("shadow_map_1".to_string())
    );
    assert_eq!(lights.keys(), vec![0, 1]);
}

#[test]
fn the_seventeenth_light_doubles_the_buffer_once() {
    let mut ctx = SubmitContext::new(1, 2, 3, 0);
    let (mut lights, mut textures) = scene(&mut ctx);
    let first_buffer = lights.buffer().handle();
    for expected in 0..16 {
        assert_eq!(lights.add_light(light(expected as u32), &mut ctx, &mut textures), expected);
        assert_eq!(lights.buffer().size(), 16 * 132);
        assert_eq!(lights.buffer().handle(), first_buffer);
    }
    assert_eq!(resizes(&ctx, &[32 * 132]), 0);
    let before = ctx.recorded().len();
    assert_eq!(lights.add_light(light(16), &mut ctx, &mut textures), 16);
    assert_eq!(lights.buffer().size(), 32 * 132);
    assert_ne!(lights.buffer().handle(), first_buffer);
    assert!(lights.buffer().has_device_address());
    assert_eq!(resizes(&ctx, &[32 * 132]), 1);
    // The resize stands before the write of the seventeen lights.
    let added = &ctx.recorded()[before..];
    let resize_at = added
        .iter()
        .position(|op| matches!(op, DeviceOp::CreateBuffer { size, .. } if *size == 32 * 132))
        .unwrap();
    let upload_at = added
        .iter()
        .position(|op| matches!(op, DeviceOp::Upload { data, .. } if data.len() == 17 * 132))
        .unwrap();
    assert!(resize_at < upload_at);
    assert_eq!(
        added[resize_at + 1],
        DeviceOp::CopyBuffer {
            src: first_buffer,
            dst: lights.buffer().handle(),
            src_offset: 0,
            dst_offset: 0,
            size: 16 * 132,
        }
    );
    assert!(ctx
        .pending()
        .iter()
        .any(|cleanup| matches!(cleanup, Cleanup::Buffer(old) if old.handle() == first_buffer)));
    for expected in 17..32 {
        assert_eq!(lights.add_light(light(expected as u32), &mut ctx, &mut textures), expected);
    }
    assert_eq!(resizes(&ctx, &[32 * 132, 64 * 132]), 1);
    lights.add_light(light(32), &mut ctx, &mut textures);
    assert_eq!(lights.buffer().size(), 64 * 132);
    assert_eq!(resizes(&ctx, &[64 * 132]), 1);
}

#[test]
fn buffer_mirrors_the_list_in_order_without_gaps() {
    let mut ctx = SubmitContext::new(1, 2, 3, 0);
    let (mut lights, mut textures) = scene(&mut ctx);
    for seed in 0..17u32 {
        lights.add_light(light(10 * seed), &mut ctx, &mut textures);
    }
    assert!(lights.remove_light(3, &mut ctx));
    assert!(lights.remove_light(0, &mut ctx));
    let mut memory = HashMap::new();
    run(&mut memory, ctx.recorded());
    let mirror = &memory[&lights.buffer().handle()];
    assert_eq!(lights.count(), 15);
    for (position, light) in lights.iter().iter().enumerate() {
        let expected: Vec<Option<u8>> =
            light.data.to_bytes().iter().map(|byte| Some(*byte)).collect();
        assert_eq!(&mirror[position * 132..(position + 1) * 132], &expected[..]);
    }
    // Position and id have come apart.
    assert_eq!(lights.iter()[0].id, 1);
    assert_eq!(lights.index_of(4), Some(2));
}

#[test]
fn removal_keeps_the_other_ids_and_never_reuses_an_id() {
    let mut ctx = SubmitContext::new(1, 2, 3, 0);
    let (mut lights, mut textures) = scene(&mut ctx);
    for seed in 0..4u32 {
        lights.add_light(light(seed), &mut ctx, &mut textures);
    }
    lights.count_dirty = false;
    let size = lights.buffer().size();
    assert!(lights.remove_light(1, &mut ctx));
    assert!(lights.count_dirty);
    assert_eq!(lights.keys(), vec![0, 2, 3]);
    assert!(lights.get_light(1).is_none());
    assert_eq!(lights.index_of(1), None);
    assert_eq!(lights.get_light(2).unwrap().data.position, light(2).data.position);
    assert_eq!(lights.buffer().size(), size);
    assert_eq!(
        ctx.recorded().last(),
        Some(&DeviceOp::CopyBuffer {
            src: ctx.last_handle(),
            dst: lights.buffer().handle(),
            src_offset: 0,
            dst_offset: 0,
            size: 3 * 132,
        })
    );
    assert_eq!(lights.add_light(light(9), &mut ctx, &mut textures), 4);
    assert!(lights.remove_light(4, &mut ctx));
    assert!(!lights.remove_light(4, &mut ctx));
    assert_eq!(lights.add_light(light(9), &mut ctx, &mut textures), 5);
    assert_eq!(lights.keys(), vec![0, 2, 3, 5]);
}

#[test]
fn removing_an_unknown_id_keeps_every_light() {
    let mut ctx = SubmitContext::new(1, 2, 3, 0);
    let (mut lights, mut textures) = scene(&mut ctx);
    lights.add_light(light(1), &mut ctx, &mut textures);
    assert!(!lights.remove_light(17, &mut ctx));
    assert_eq!(lights.keys(), vec![0]);
    assert!(lights.count_dirty);
}

#[test]
fn removing_the_last_light_writes_nothing() {
    let mut ctx = SubmitContext::new(1, 2, 3, 0);
    let (mut lights, mut textures) = scene(&mut ctx);
    lights.add_light(light(1), &mut ctx, &mut textures);
    let recorded = ctx.recorded().len();
    let pending = ctx.pending().len();
    assert!(lights.remove_light(0, &mut ctx));
    assert_eq!(lights.count(), 0);
    assert_eq!(ctx.recorded().len(), recorded);
    assert_eq!(ctx.pending().len(), pending);
}

#[test]
fn update_writes_back_only_the_one_light() {
    let mut ctx = SubmitContext::new(1, 2, 3, 0);
    let (mut lights, mut textures) = scene(&mut ctx);
    for seed in 0..3u32 {
        lights.add_light(light(seed), &mut ctx, &mut textures);
    }
    assert!(lights.remove_light(0, &mut ctx));
    lights.count_dirty = false;
    let recorded = ctx.recorded().len();
    assert!(lights.update_light(2, |raw: &mut RawLight| raw.intensity = 0x4000_0000, &mut ctx));
    assert!(!lights.count_dirty);
    assert_eq!(lights.get_light(2).unwrap().data.intensity, 0x4000_0000);
    assert_eq!(lights.get_light(1).unwrap().data.intensity, light(1).data.intensity);
    let expected = lights.get_light(2).unwrap().data.to_bytes();
    assert_eq!(ctx.recorded().len(), recorded + 3);
    assert_eq!(
        ctx.recorded()[recorded + 1],
        DeviceOp::Upload { buffer: ctx.last_handle(), data: expected }
    );
    // The light with id 2 lies at position 1.
    assert_eq!(
        ctx.recorded()[recorded + 2],
        DeviceOp::CopyBuffer {
            src: ctx.last_handle(),
            dst: lights.buffer().handle(),
            src_offset: 0,
            dst_offset: 132,
            size: 132,
        }
    );
}

#[test]
fn update_of_an_unknown_id_changes_nothing() {
    let mut ctx = SubmitContext::new(1, 2, 3, 0);
    let (mut lights, mut textures) = scene(&mut ctx);
    lights.add_light(light(1), &mut ctx, &mut textures);
    let recorded = ctx.recorded().len();
    assert!(!lights.update_light(5, |raw: &mut RawLight| raw.intensity = 1, &mut ctx));
    assert_eq!(ctx.recorded().len(), recorded);
    assert_eq!(lights.get_light(0).unwrap().data.intensity, light(1).data.intensity);
}

#[test]
fn count_is_taken_once_per_change() {
    let mut ctx = SubmitContext::new(1, 2, 3, 0);
    let (mut lights, mut textures) = scene(&mut ctx);
    assert_eq!(lights.take_count(), None);
    lights.add_light(light(1), &mut ctx, &mut textures);
    lights.add_light(light(2), &mut ctx, &mut textures);
    assert_eq!(lights.next_id(), 2);
    assert_eq!(lights.take_count(), Some(2));
    assert!(!lights.count_dirty);
    assert_eq!(lights.take_count(), None);
    lights.remove_light(0, &mut ctx);
    assert_eq!(lights.take_count(), Some(1));
}

#[test]
fn wrapped_buffer_is_flushed_only_when_dirty() {
    let mut ctx = SubmitContext::new(1, 2, 3, 0);
    let buffer =
        gpu_resources::buffer::AllocatedBuffer::new(&mut ctx, 0x20, AllocUsage::GpuOnly, 132, None);
    let mut wrapped = WrappedBuffer { dirty: false, buffer, data: light(3).data };
    assert!(wrapped.flush(SubmitContext::new(1, 2, 3, 1)).is_none());
    wrapped.dirty = true;
    let submission = wrapped.flush(SubmitContext::new(1, 2, 3, 1)).unwrap();
    assert!(!wrapped.dirty);
    assert_eq!(submission.last_handle, 2);
    // Reset, begin, three pieces of work, end, submit, wait, one cleanup.
    assert_eq!(submission.steps.len(), 10);
    assert!(wrapped.flush(SubmitContext::new(1, 2, 3, 2)).is_none());
}

#[test]
fn wrapped_buffer_writes_its_value_to_the_start() {
    let mut ctx = SubmitContext::new(1, 2, 3, 0);
    let buffer =
        gpu_resources::buffer::AllocatedBuffer::new(&mut ctx, 0x20, AllocUsage::GpuOnly, 132, None);
    let mut wrapped = WrappedBuffer { dirty: true, buffer, data: light(3).data };
    wrapped.write(&mut ctx);
    assert!(wrapped.dirty);
    assert_eq!(
        ctx.recorded()[2..],
        [
            DeviceOp::Upload { buffer: 2, data: light(3).data.to_bytes() },
            DeviceOp::CopyBuffer { src: 2, dst: 1, src_offset: 0, dst_offset: 0, size: 132 },
        ]
    );
}

#[test]
fn destroyed_light_array_queues_its_buffer() {
    let mut ctx = SubmitContext::new(1, 2, 3, 0);
    let lights = LightManager::new(&mut ctx);
    let buffer = lights.buffer().handle();
    let mut queue = gpu_resources::deletion::DeletionQueue::new();
    lights.destroy(&mut queue);
    assert!(matches!(&queue.flush()[..], [Cleanup::Buffer(owned)] if owned.handle() == buffer));
}

#[test]
fn decimal_text_has_no_leading_zeros() {
    assert_eq!(decimal_string(0), "0");
    assert_eq!(decimal_string(7), "7");
    assert_eq!(decimal_string(10), "10");
    assert_eq!(decimal_string(1234567890), "1234567890");
    assert_eq!(decimal_string(usize::MAX), usize::MAX.to_string());
}
