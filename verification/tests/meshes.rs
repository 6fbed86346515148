use gpu_resources::deletion::DeletionQueue;
use gpu_resources::device::DeviceOp;
use gpu_resources::device::{Extent2D, Filter, ImageLayout};
use gpu_resources::image::{copy_image_to_image, transition_image};
use gpu_resources::mesh::{GpuMesh, INDEX_BUFFER_USAGE, VERTEX_BUFFER_USAGE};
use gpu_resources::buffer::GpuData;
use gpu_resources::pod::{append_words, load_shader_module, words_to_bytes, Words};
use gpu_resources::submit::{Cleanup, SubmitContext};
use gpu_resources::usage::AllocUsage;

#[test]
fn words_are_laid_out_lowest_byte_first() {
    assert_eq!(words_to_bytes(&[]), Vec::<u8>::new());
    assert_eq!(words_to_bytes(&[0x0403_0201, 0xff]), vec![1, 2, 3, 4, 0xff, 0, 0, 0]);
    let mut bytes = vec![9];
    append_words(&[1], &mut bytes);
    assert_eq!(bytes, vec![9, 1, 0, 0, 0]);
    assert_eq!(Words { words: vec![0x0102, 3] }.to_gpu_bytes(), vec![2, 1, 0, 0, 3, 0, 0, 0]);
}

#[test]
fn shader_code_becomes_words_padded_with_zeros() {
    assert_eq!(load_shader_module(&[]), Vec::<u32>::new());
    assert_eq!(load_shader_module(&[0x03, 0x02, 0x23, 0x07]), vec![0x0723_0203]);
    assert_eq!(load_shader_module(&[1, 2, 3, 4, 5]), vec![0x0403_0201, 5]);
    assert_eq!(load_shader_module(&[1, 2, 3, 4, 5, 6, 7]), vec![0x0403_0201, 0x0007_0605]);
    assert_eq!(load_shader_module(&[0xff; 8]), vec![u32::MAX, u32::MAX]);
}

#[test]
fn upload_fills_both_buffers_through_one_staging_buffer() {
    let mut ctx = SubmitContext::new(1, 2, 3, 0);
    let vertices = [1u8, 2, 3, 4, 5, 6];
    let indices = [0u32, 1, 0x0102_0304];
    let mesh = GpuMesh::upload(&vertices, &indices, &mut ctx);
    assert_eq!(mesh.vertex_buffer_address(), 1);
    assert_eq!(mesh.index_buffer(), 2);
    assert_eq!(VERTEX_BUFFER_USAGE, 0x20022);
    assert_eq!(INDEX_BUFFER_USAGE, 0x42);
    assert_eq!(
        ctx.recorded()[..],
        [
            DeviceOp::CreateBuffer {
                buffer: 1,
                size: 6,
                usage: 0x20023,
                memory: AllocUsage::GpuOnly,
                label: Some("Vertex Buffer".to_string()),
            },
            DeviceOp::CreateBuffer {
                buffer: 2,
                size: 12,
                usage: 0x43,
                memory: AllocUsage::GpuOnly,
                label: Some("Index Buffer".to_string()),
            },
            DeviceOp::CreateBuffer {
                buffer: 3,
                size: 18,
                usage: 0x3,
                memory: AllocUsage::Shared,
                label: Some("Mesh Staging Buffer".to_string()),
            },
            DeviceOp::Upload {
                buffer: 3,
                data: vec![1, 2, 3, 4, 5, 6, 0, 0, 0, 0, 1, 0, 0, 0, 4, 3, 2, 1],
            },
            DeviceOp::CopyBuffer { src: 3, dst: 1, src_offset: 0, dst_offset: 0, size: 6 },
            DeviceOp::CopyBuffer { src: 3, dst: 2, src_offset: 6, dst_offset: 0, size: 12 },
        ]
    );
    assert!(matches!(&ctx.pending()[..], [Cleanup::Buffer(staging)] if staging.handle() == 3));
    let mut queue = DeletionQueue::new();
    mesh.destroy(&mut queue);
    let order: Vec<u64> = queue
        .flush()
        .iter()
        .map(|cleanup| match cleanup {
            Cleanup::Buffer(buffer) => buffer.handle(),
            other => panic!("unexpected cleanup {:?}", other),
        })
        .collect();
    assert_eq!(order, vec![1, 2]);
}

#[test]
fn transition_to_a_depth_attachment_covers_the_depth_aspect() {
    let mut ctx = SubmitContext::new(1, 2, 3, 0);
    transition_image(&mut ctx, 5, ImageLayout::Undefined, ImageLayout::DepthAttachmentOptimal);
    transition_image(&mut ctx, 5, ImageLayout::Undefined, ImageLayout::TransferDstOptimal);
    assert_eq!(
        ctx.recorded()[..],
        [
            DeviceOp::TransitionImage {
                image: 5,
                old_layout: ImageLayout::Undefined,
                new_layout: ImageLayout::DepthAttachmentOptimal,
                aspect: 0x2,
            },
            DeviceOp::TransitionImage {
                image: 5,
                old_layout: ImageLayout::Undefined,
                new_layout: ImageLayout::TransferDstOptimal,
                aspect: 0x1,
            },
        ]
    );
}

#[test]
fn image_copy_is_a_linear_blit_of_the_whole_colour_images() {
    let mut ctx = SubmitContext::new(1, 2, 3, 0);
    copy_image_to_image(
        &mut ctx,
        7,
        8,
        Extent2D { width: 640, height: 480 },
        Extent2D { width: 1280, height: 720 },
    );
    assert_eq!(
        ctx.recorded()[..],
        [DeviceOp::BlitImage {
            src: 7,
            dst: 8,
            width: 640,
            height: 480,
            dst_x: 0,
            dst_y: 0,
            dst_width: 1280,
            dst_height: 720,
            aspect: 0x1,
            filter: Filter::Linear,
        }]
    );
}
