//! Descriptor-set updates and the descriptor allocator, which recovers from
//! an exhausted pool by retrying once against another pool.

use crate::device::{
    DescriptorBufferWriteInfo, DescriptorImageWriteInfo, DescriptorType, DeviceOp, Handle, OpModel,
};
use crate::submit::{ContextModel, SubmitContext};
use vstd::prelude::*;

verus! {

/// The context after a descriptor-set update has been recorded.
pub open spec fn after_update_set(
    ctx: ContextModel,
    set: Handle,
    image_writes: Seq<DescriptorImageWriteInfo>,
    buffer_writes: Seq<DescriptorBufferWriteInfo>,
) -> ContextModel {
    ContextModel {
        work: ctx.work.push(OpModel::UpdateDescriptorSet { set, buffer_writes, image_writes }),
        ..ctx
    }
}

/// A copy of a list of image writes.
fn copy_image_writes(writes: &[DescriptorImageWriteInfo]) -> (copy: Vec<DescriptorImageWriteInfo>)
    ensures
        copy@ == writes@,
{
    let mut copy: Vec<DescriptorImageWriteInfo> = Vec::new();
    let mut i: usize = 0;
    while i < writes.len()
        invariant
            i <= writes@.len(),
            copy@ == writes@.subrange(0, i as int),
        decreases writes@.len() - i,
    {
        copy.push(writes[i]);
        i += 1;
    }
    copy
}

/// A copy of a list of buffer writes.
fn copy_buffer_writes(writes: &[DescriptorBufferWriteInfo]) -> (copy: Vec<
    DescriptorBufferWriteInfo,
>)
    ensures
        copy@ == writes@,
{
    let mut copy: Vec<DescriptorBufferWriteInfo> = Vec::new();
    let mut i: usize = 0;
    while i < writes.len()
        invariant
            i <= writes@.len(),
            copy@ == writes@.subrange(0, i as int),
        decreases writes@.len() - i,
    {
        copy.push(writes[i]);
        i += 1;
    }
    copy
}

/// Records one update of `set` that covers all the writes: the buffer
/// writes first, then the image writes.
pub fn update_set(
    ctx: &mut SubmitContext,
    set: Handle,
    image_writes: &[DescriptorImageWriteInfo],
    buffer_writes: &[DescriptorBufferWriteInfo],
)
    ensures
        final(ctx)@ == after_update_set(old(ctx)@, set, image_writes@, buffer_writes@),
{
    ctx.record(
        DeviceOp::UpdateDescriptorSet {
            set,
            buffer_writes: copy_buffer_writes(buffer_writes),
            image_writes: copy_image_writes(image_writes),
        },
    );
}

/// The largest number of sets a pool is ever created for after the first.
pub const MAX_SETS_PER_POOL: u32 = 4092;

/// How many descriptors of one type a pool holds for every set.
#[derive(Debug, Copy, Clone, PartialEq, Eq, Structural)]
pub struct PoolSizeRatio {
    pub descriptor_type: DescriptorType,
    /// Descriptors of this type per set, a whole number.
    pub ratio: u32,
}

/// How many descriptors of one type a pool is created with.
#[derive(Debug, Copy, Clone, PartialEq, Eq, Structural)]
pub struct DescriptorPoolSize {
    pub ty: DescriptorType,
    pub descriptor_count: u32,
}

/// What a descriptor pool is created with.
#[derive(Debug)]
pub struct PoolRequest {
    pub max_sets: u32,
    pub pool_sizes: Vec<DescriptorPoolSize>,
}

/// `sets * ratio`, or the largest count there is if the product is larger.
pub open spec fn descriptor_count(sets: u32, ratio: u32) -> u32 {
    if sets * ratio <= u32::MAX {
        (sets * ratio) as u32
    } else {
        u32::MAX
    }
}

/// The pool sizes for `sets` sets: for every ratio, in order, that many
/// descriptors per set.
pub open spec fn pool_sizes_for(ratios: Seq<PoolSizeRatio>, sets: u32) -> Seq<DescriptorPoolSize> {
    ratios.map_values(
        |ratio: PoolSizeRatio|
            DescriptorPoolSize {
                ty: ratio.descriptor_type,
                descriptor_count: descriptor_count(sets, ratio.ratio),
            },
    )
}

/// One and a half times `sets`, rounded down, or the largest count there is
/// if that is larger.
pub open spec fn half_again(sets: u32) -> u32 {
    if sets * 3 / 2 <= u32::MAX {
        (sets * 3 / 2) as u32
    } else {
        u32::MAX
    }
}

/// The number of sets of the pool after the next: one and a half times as
/// many, but never more than [`MAX_SETS_PER_POOL`].
pub open spec fn grown_sets(sets: u32) -> u32 {
    if half_again(sets) > MAX_SETS_PER_POOL {
        MAX_SETS_PER_POOL
    } else {
        half_again(sets)
    }
}

/// What the device answered to an attempt to allocate a descriptor set.
#[derive(Debug, Copy, Clone, PartialEq, Eq, Structural)]
pub enum AllocOutcome {
    /// The set was allocated.
    Allocated(Handle),
    /// The pool has no memory left.
    OutOfPoolMemory,
    /// The pool is too fragmented.
    FragmentedPool,
    /// Any other error, with its code.
    Failed(i32),
}

/// Which attempt an answer belongs to.
#[derive(Debug, Copy, Clone, PartialEq, Eq, Structural)]
pub enum Attempt {
    First,
    Retry,
}

/// What to do after an attempt to allocate a descriptor set.
#[derive(Debug, Copy, Clone, PartialEq, Eq, Structural)]
pub enum AllocDecision {
    /// The set is allocated.
    Done(Handle),
    /// The pool is retired. Get another pool and try once more.
    RetryWithAnotherPool,
    /// The allocation has failed for good.
    Fatal(AllocOutcome),
}

/// Where the pool of the next attempt comes from.
#[derive(Debug)]
pub enum PoolChoice {
    /// A pool that is ready.
    Ready(Handle),
    /// No pool is ready: create one with this request.
    Create(PoolRequest),
}

/// The mathematical value of a [`PoolChoice`].
pub enum PoolChoiceModel {
    Ready(Handle),
    Create { max_sets: u32, pool_sizes: Seq<DescriptorPoolSize> },
}

impl View for PoolChoice {
    type V = PoolChoiceModel;

    open spec fn view(&self) -> PoolChoiceModel {
        match *self {
            PoolChoice::Ready(pool) => PoolChoiceModel::Ready(pool),
            PoolChoice::Create(request) => PoolChoiceModel::Create {
                max_sets: request.max_sets,
                pool_sizes: request.pool_sizes@,
            },
        }
    }
}

/// The mathematical value of a [`DescriptorAllocator`].
pub struct AllocatorModel {
    pub ratios: Seq<PoolSizeRatio>,
    /// Pools that may have room, the one used next last.
    pub ready_pools: Seq<Handle>,
    /// Pools that are exhausted.
    pub full_pools: Seq<Handle>,
    /// The number of sets the next new pool is created for.
    pub sets_per_pool: u32,
}

impl AllocatorModel {
    /// Where the pool of the next attempt comes from.
    pub open spec fn choice(self) -> PoolChoiceModel {
        if self.ready_pools.len() > 0 {
            PoolChoiceModel::Ready(self.ready_pools.last())
        } else {
            PoolChoiceModel::Create {
                max_sets: self.sets_per_pool,
                pool_sizes: pool_sizes_for(self.ratios, self.sets_per_pool),
            }
        }
    }

    /// The allocator after it has handed out the pool of the next attempt:
    /// a ready pool leaves the ready pools, and a new pool makes the pool
    /// after it larger.
    pub open spec fn after_choice(self) -> AllocatorModel {
        if self.ready_pools.len() > 0 {
            AllocatorModel { ready_pools: self.ready_pools.drop_last(), ..self }
        } else {
            AllocatorModel { sets_per_pool: grown_sets(self.sets_per_pool), ..self }
        }
    }

    /// What to do after the device has answered `outcome` to an attempt.
    ///
    /// An exhausted pool is recovered from once: the first attempt asks for
    /// another pool, the retry gives up. Every other error is fatal at once.
    pub open spec fn decision(outcome: AllocOutcome, attempt: Attempt) -> AllocDecision {
        match outcome {
            AllocOutcome::Allocated(set) => AllocDecision::Done(set),
            AllocOutcome::OutOfPoolMemory | AllocOutcome::FragmentedPool => if attempt
                == Attempt::First {
                AllocDecision::RetryWithAnotherPool
            } else {
                AllocDecision::Fatal(outcome)
            },
            AllocOutcome::Failed(_) => AllocDecision::Fatal(outcome),
        }
    }

    /// The allocator after the device has answered `outcome` to an attempt
    /// on `pool`: the pool is ready again if the set was allocated, retired
    /// if it was exhausted at the first attempt, and dropped otherwise.
    pub open spec fn after_outcome(
        self,
        pool: Handle,
        outcome: AllocOutcome,
        attempt: Attempt,
    ) -> AllocatorModel {
        match Self::decision(outcome, attempt) {
            AllocDecision::Done(_) => AllocatorModel {
                ready_pools: self.ready_pools.push(pool),
                ..self
            },
            AllocDecision::RetryWithAnotherPool => AllocatorModel {
                full_pools: self.full_pools.push(pool),
                ..self
            },
            AllocDecision::Fatal(_) => self,
        }
    }
}

/// Hands out descriptor sets from a growing list of pools.
///
/// The allocator decides; the device is driven from outside. An allocation
/// takes the pool of [`get_or_create_pool`](Self::get_or_create_pool), tries
/// it on the device, and hands the answer to [`allocate`](Self::allocate).
pub struct DescriptorAllocator {
    ratios: Vec<PoolSizeRatio>,
    ready_pools: Vec<Handle>,
    full_pools: Vec<Handle>,
    sets_per_pool: u32,
}

impl View for DescriptorAllocator {
    type V = AllocatorModel;

    closed spec fn view(&self) -> AllocatorModel {
        AllocatorModel {
            ratios: self.ratios@,
            ready_pools: self.ready_pools@,
            full_pools: self.full_pools@,
            sets_per_pool: self.sets_per_pool,
        }
    }
}

/// `sets * ratio`, or the largest count there is if the product is larger.
fn count_descriptors(sets: u32, ratio: u32) -> (count: u32)
    ensures
        count == descriptor_count(sets, ratio),
{
    assert(sets * ratio <= u64::MAX) by (nonlinear_arith)
        requires
            sets <= 0xffff_ffff,
            ratio <= 0xffff_ffff,
    {
    }
    let product: u64 = sets as u64 * ratio as u64;
    if product <= u32::MAX as u64 {
        product as u32
    } else {
        u32::MAX
    }
}

/// One and a half times `sets`, rounded down, or the largest count there is
/// if that is larger.
fn one_and_a_half(sets: u32) -> (more: u32)
    ensures
        more == half_again(sets),
{
    let more: u64 = sets as u64 * 3 / 2;
    if more <= u32::MAX as u64 {
        more as u32
    } else {
        u32::MAX
    }
}

impl DescriptorAllocator {
    /// What a pool for `sets_per_pool` sets is created with.
    pub fn create_pool(ratios: &[PoolSizeRatio], sets_per_pool: u32) -> (request: PoolRequest)
        ensures
            request.max_sets == sets_per_pool,
            request.pool_sizes@ == pool_sizes_for(ratios@, sets_per_pool),
    {
        let mut pool_sizes: Vec<DescriptorPoolSize> = Vec::new();
        let mut i: usize = 0;
        while i < ratios.len()
            invariant
                i <= ratios@.len(),
                pool_sizes@ == pool_sizes_for(ratios@.subrange(0, i as int), sets_per_pool),
            decreases ratios@.len() - i,
        {
            pool_sizes.push(
                DescriptorPoolSize {
                    ty: ratios[i].descriptor_type,
                    descriptor_count: count_descriptors(sets_per_pool, ratios[i].ratio),
                },
            );
            i += 1;
        }
        PoolRequest { max_sets: sets_per_pool, pool_sizes }
    }

    /// An allocator whose first pool is `first_pool`, which was created for
    /// `max_sets` sets. The next pool is created for one and a half times as
    /// many.
    pub fn new(first_pool: Handle, max_sets: u32, pool_sizes: &[PoolSizeRatio]) -> (allocator:
        Self)
        ensures
            allocator@ == (AllocatorModel {
                ratios: pool_sizes@,
                ready_pools: seq![first_pool],
                full_pools: Seq::empty(),
                sets_per_pool: half_again(max_sets),
            }),
    {
        let mut ratios: Vec<PoolSizeRatio> = Vec::new();
        let mut i: usize = 0;
        while i < pool_sizes.len()
            invariant
                i <= pool_sizes@.len(),
                ratios@ == pool_sizes@.subrange(0, i as int),
            decreases pool_sizes@.len() - i,
        {
            ratios.push(pool_sizes[i]);
            i += 1;
        }
        assert(pool_sizes@.subrange(0, i as int) =~= pool_sizes@);
        let mut ready_pools: Vec<Handle> = Vec::new();
        ready_pools.push(first_pool);
        DescriptorAllocator {
            ratios,
            ready_pools,
            full_pools: Vec::new(),
            sets_per_pool: one_and_a_half(max_sets),
        }
    }

    /// Every pool, the ready ones first: the pools that are reset when a
    /// frame starts over, and destroyed when the allocator is torn down.
    pub fn pools(&self) -> (pools: Vec<Handle>)
        ensures
            pools@ == self@.ready_pools + self@.full_pools,
    {
        let mut pools: Vec<Handle> = Vec::new();
        let mut i: usize = 0;
        while i < self.ready_pools.len()
            invariant
                i <= self.ready_pools@.len(),
                pools@ == self.ready_pools@.subrange(0, i as int),
            decreases self.ready_pools@.len() - i,
        {
            pools.push(self.ready_pools[i]);
            i += 1;
        }
        i = 0;
        while i < self.full_pools.len()
            invariant
                i <= self.full_pools@.len(),
                pools@ == self.ready_pools@ + self.full_pools@.subrange(0, i as int),
            decreases self.full_pools@.len() - i,
        {
            pools.push(self.full_pools[i]);
            i += 1;
        }
        pools
    }

    /// The pools to reset when the frame that owns the allocator starts
    /// over.
    pub fn clear_pools(&self) -> (pools: Vec<Handle>)
        ensures
            pools@ == self@.ready_pools + self@.full_pools,
    {
        self.pools()
    }

    /// The pools to destroy when the allocator is torn down.
    pub fn destroy_pools(&self) -> (pools: Vec<Handle>)
        ensures
            pools@ == self@.ready_pools + self@.full_pools,
    {
        self.pools()
    }

    /// The pool of the next attempt: the ready pool that was used last, or,
    /// if none is ready, the request for a new pool. After a new pool, the
    /// pool after it is created for one and a half times as many sets, up to
    /// [`MAX_SETS_PER_POOL`].
    pub fn get_or_create_pool(&mut self) -> (choice: PoolChoice)
        ensures
            choice@ == old(self)@.choice(),
            final(self)@ == old(self)@.after_choice(),
    {
        if self.ready_pools.len() > 0 {
            let pool = self.ready_pools.pop().unwrap();
            PoolChoice::Ready(pool)
        } else {
            let request = Self::create_pool(self.ratios.as_slice(), self.sets_per_pool);
            let more = one_and_a_half(self.sets_per_pool);
            self.sets_per_pool = if more > MAX_SETS_PER_POOL {
                MAX_SETS_PER_POOL
            } else {
                more
            };
            PoolChoice::Create(request)
        }
    }

    /// Takes the device's answer to an attempt to allocate a set from `pool`
    /// and decides how to go on.
    ///
    /// A set that was allocated makes the pool ready again. A pool that is
    /// exhausted at the first attempt is retired, and the allocation is
    /// tried once more with another pool. An exhausted pool at the retry, and
    /// any other error, is fatal.
    pub fn allocate(&mut self, pool: Handle, outcome: AllocOutcome, attempt: Attempt) -> (decision:
        AllocDecision)
        ensures
            decision == AllocatorModel::decision(outcome, attempt),
            final(self)@ == old(self)@.after_outcome(pool, outcome, attempt),
    {
        match outcome {
            AllocOutcome::Allocated(set) => {
                self.ready_pools.push(pool);
                AllocDecision::Done(set)
            },
            AllocOutcome::OutOfPoolMemory | AllocOutcome::FragmentedPool => {
                match attempt {
                    Attempt::First => {
                        self.full_pools.push(pool);
                        AllocDecision::RetryWithAnotherPool
                    },
                    Attempt::Retry => AllocDecision::Fatal(outcome),
                }
            },
            AllocOutcome::Failed(_) => AllocDecision::Fatal(outcome),
        }
    }
}

/// One binding of a descriptor-set layout: one descriptor of the given type
/// that the given shader stages read.
#[derive(Debug, Copy, Clone, PartialEq, Eq, Structural)]
pub struct LayoutBinding {
    pub binding: u32,
    pub descriptor_type: DescriptorType,
    pub descriptor_count: u32,
    /// Shader stage bits.
    pub stage_flags: u32,
}

/// Collects the bindings of a descriptor-set layout.
#[derive(Debug)]
pub struct DescriptorLayoutBuilder {
    bindings: Vec<LayoutBinding>,
}

impl View for DescriptorLayoutBuilder {
    type V = Seq<LayoutBinding>;

    closed spec fn view(&self) -> Seq<LayoutBinding> {
        self.bindings@
    }
}

impl Default for DescriptorLayoutBuilder {
    /// A builder without bindings.
    fn default() -> (builder: Self)
        ensures
            builder@ == Seq::<LayoutBinding>::empty(),
    {
        DescriptorLayoutBuilder { bindings: Vec::new() }
    }
}

impl DescriptorLayoutBuilder {
    /// Adds a binding of one descriptor.
    pub fn add_binding(self, binding: u32, descriptor_type: DescriptorType, stage_flags: u32) -> (builder:
        Self)
        ensures
            builder@ == self@.push(
                LayoutBinding { binding, descriptor_type, descriptor_count: 1, stage_flags },
            ),
    {
        let mut builder = self;
        builder.bindings.push(
            LayoutBinding { binding, descriptor_type, descriptor_count: 1, stage_flags },
        );
        builder
    }

    /// Drops every binding.
    pub fn clear(self) -> (builder: Self)
        ensures
            builder@ == Seq::<LayoutBinding>::empty(),
    {
        let mut builder = self;
        builder.bindings.clear();
        builder
    }

    /// The bindings the layout is created with, in the order they were
    /// added.
    pub fn build(self) -> (bindings: Vec<LayoutBinding>)
        ensures
            bindings@ == self@,
    {
        self.bindings
    }
}

} // verus!
