use gpu_resources::descriptor::{
    update_set, AllocDecision, AllocOutcome, Attempt, DescriptorAllocator, DescriptorPoolSize,
    PoolChoice, PoolSizeRatio, MAX_SETS_PER_POOL,
};
use gpu_resources::device::{
    DescriptorBufferWriteInfo, DescriptorImageWriteInfo, DescriptorType, DeviceOp, ImageLayout,
};
use gpu_resources::submit::SubmitContext;

fn ratios() -> Vec<PoolSizeRatio> {
    vec![
        PoolSizeRatio { descriptor_type: DescriptorType::StorageImage, ratio: 3 },
        PoolSizeRatio { descriptor_type: DescriptorType::CombinedImageSampler, ratio: 4 },
    ]
}

fn request(choice: PoolChoice) -> (u32, Vec<DescriptorPoolSize>) {
    match choice {
        PoolChoice::Create(request) => (request.max_sets, request.pool_sizes),
        PoolChoice::Ready(pool) => panic!("unexpected ready pool {}", pool),
    }
}

#[test]
fn update_set_records_buffer_writes_and_image_writes() {
    let mut ctx = SubmitContext::new(1, 2, 3, 0);
    let image = DescriptorImageWriteInfo {
        binding: 2,
        array_index: 5,
        image_view: 11,
        sampler: 12,
        layout: ImageLayout::ShaderReadOnlyOptimal,
        ty: DescriptorType::CombinedImageSampler,
    };
    let buffer = DescriptorBufferWriteInfo {
        binding: 0,
        array_index: 1,
        buffer: 21,
        size: 64,
        offset: 16,
        ty: DescriptorType::StorageBuffer,
    };
    update_set(&mut ctx, 9, &[image], &[buffer, buffer]);
    assert_eq!(
        ctx.recorded()[..],
        [DeviceOp::UpdateDescriptorSet {
            set: 9,
            buffer_writes: vec![buffer, buffer],
            image_writes: vec![image],
        }]
    );
}

#[test]
fn pool_request_scales_every_ratio_by_the_number_of_sets() {
    let request = DescriptorAllocator::create_pool(&ratios(), 1000);
    assert_eq!(request.max_sets, 1000);
    assert_eq!(
        request.pool_sizes,
        vec![
            DescriptorPoolSize { ty: DescriptorType::StorageImage, descriptor_count: 3000 },
            DescriptorPoolSize { ty: DescriptorType::CombinedImageSampler, descriptor_count: 4000 },
        ]
    );
    let huge = DescriptorAllocator::create_pool(&ratios(), u32::MAX);
    assert!(huge.pool_sizes.iter().all(|size| size.descriptor_count == u32::MAX));
    assert!(DescriptorAllocator::create_pool(&[], 7).pool_sizes.is_empty());
}

#[test]
fn first_pool_is_ready_and_comes_back_after_an_allocation() {
    let mut allocator = DescriptorAllocator::new(500, 1000, &ratios());
    assert_eq!(allocator.clear_pools(), vec![500]);
    assert!(matches!(allocator.get_or_create_pool(), PoolChoice::Ready(500)));
    assert!(allocator.pools().is_empty());
    assert_eq!(
        allocator.allocate(500, AllocOutcome::Allocated(42), Attempt::First),
        AllocDecision::Done(42)
    );
    assert_eq!(allocator.pools(), vec![500]);
}

#[test]
fn exhausted_pool_is_retired_and_the_allocation_retried_once() {
    let mut allocator = DescriptorAllocator::new(500, 1000, &ratios());
    assert!(matches!(allocator.get_or_create_pool(), PoolChoice::Ready(500)));
    assert_eq!(
        allocator.allocate(500, AllocOutcome::OutOfPoolMemory, Attempt::First),
        AllocDecision::RetryWithAnotherPool
    );
    // No pool is ready: the next one is created, larger than the first.
    let (max_sets, pool_sizes) = request(allocator.get_or_create_pool());
    assert_eq!(max_sets, 1500);
    assert_eq!(pool_sizes[0].descriptor_count, 4500);
    assert_eq!(pool_sizes[1].descriptor_count, 6000);
    assert_eq!(
        allocator.allocate(501, AllocOutcome::Allocated(43), Attempt::Retry),
        AllocDecision::Done(43)
    );
    assert_eq!(allocator.clear_pools(), vec![501, 500]);
    assert_eq!(allocator.destroy_pools(), vec![501, 500]);
}

#[test]
fn fragmented_pool_is_treated_like_an_exhausted_one() {
    let mut allocator = DescriptorAllocator::new(500, 10, &ratios());
    allocator.get_or_create_pool();
    assert_eq!(
        allocator.allocate(500, AllocOutcome::FragmentedPool, Attempt::First),
        AllocDecision::RetryWithAnotherPool
    );
    assert_eq!(allocator.pools(), vec![500]);
}

#[test]
fn second_failure_is_fatal() {
    let mut allocator = DescriptorAllocator::new(500, 10, &ratios());
    allocator.get_or_create_pool();
    allocator.allocate(500, AllocOutcome::OutOfPoolMemory, Attempt::First);
    allocator.get_or_create_pool();
    assert_eq!(
        allocator.allocate(501, AllocOutcome::OutOfPoolMemory, Attempt::Retry),
        AllocDecision::Fatal(AllocOutcome::OutOfPoolMemory)
    );
    assert_eq!(
        allocator.allocate(501, AllocOutcome::FragmentedPool, Attempt::Retry),
        AllocDecision::Fatal(AllocOutcome::FragmentedPool)
    );
    // Neither pool has become ready.
    assert_eq!(allocator.pools(), vec![500]);
}

#[test]
fn other_errors_are_fatal_at_once() {
    let mut allocator = DescriptorAllocator::new(500, 10, &ratios());
    allocator.get_or_create_pool();
    assert_eq!(
        allocator.allocate(500, AllocOutcome::Failed(-4), Attempt::First),
        AllocDecision::Fatal(AllocOutcome::Failed(-4))
    );
    assert!(allocator.pools().is_empty());
}

#[test]
fn new_pools_grow_by_half_up_to_the_limit() {
    let mut allocator = DescriptorAllocator::new(500, 1000, &ratios());
    allocator.get_or_create_pool();
    let mut sizes = Vec::new();
    for _ in 0..5 {
        sizes.push(request(allocator.get_or_create_pool()).0);
    }
    assert_eq!(sizes, vec![1500, 2250, 3375, 4092, 4092]);
    assert_eq!(MAX_SETS_PER_POOL, 4092);
    let mut odd = DescriptorAllocator::new(1, 3, &ratios());
    odd.get_or_create_pool();
    assert_eq!(request(odd.get_or_create_pool()).0, 4);
    assert_eq!(request(odd.get_or_create_pool()).0, 6);
    let mut huge = DescriptorAllocator::new(1, u32::MAX, &ratios());
    huge.get_or_create_pool();
    assert_eq!(request(huge.get_or_create_pool()).0, u32::MAX);
    assert_eq!(request(huge.get_or_create_pool()).0, 4092);
}
