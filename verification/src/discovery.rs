//! Choosing a physical device and its queue families.

use vstd::prelude::*;

verus! {

/// What the choice needs to know of a queue family.
#[derive(Debug, Copy, Clone, PartialEq, Eq, Structural)]
pub struct QueueFamily {
    /// The number of queues of the family.
    pub queue_count: u32,
    /// Whether the family does graphics work.
    pub graphics: bool,
    /// Whether the family can present to the surface.
    pub present: bool,
}

/// The families that have queues, in their order.
pub open spec fn with_queues(families: Seq<QueueFamily>) -> Seq<QueueFamily>
    decreases families.len(),
{
    if families.len() == 0 {
        Seq::empty()
    } else {
        let before = with_queues(families.drop_last());
        if families.last().queue_count > 0 {
            before.push(families.last())
        } else {
            before
        }
    }
}

/// Whether `index` is the first position in `families` at which `wanted`
/// holds.
pub open spec fn is_first(
    families: Seq<QueueFamily>,
    wanted: spec_fn(QueueFamily) -> bool,
    index: int,
) -> bool {
    &&& 0 <= index < families.len()
    &&& wanted(families[index])
    &&& forall|i: int| 0 <= i < index ==> !wanted(families[i])
}

/// Whether `found` is the first position in `families` at which `wanted`
/// holds, or nothing if it holds nowhere.
pub open spec fn is_first_or_none(
    families: Seq<QueueFamily>,
    wanted: spec_fn(QueueFamily) -> bool,
    found: Option<u32>,
) -> bool {
    match found {
        Some(index) => is_first(families, wanted, index as int),
        None => forall|i: int| 0 <= i < families.len() ==> !wanted(families[i]),
    }
}

/// The graphics family and the present family of a device: for each, the
/// first family with queues that can do the work, counted among the families
/// with queues.
///
/// The search ends as soon as both are found.
pub fn find_queue_families(families: &[QueueFamily]) -> (found: (Option<u32>, Option<u32>))
    requires
        families@.len() <= u32::MAX,
    ensures
        is_first_or_none(
            with_queues(families@),
            |family: QueueFamily| family.graphics,
            found.0,
        ),
        is_first_or_none(with_queues(families@), |family: QueueFamily| family.present, found.1),
{
    let mut graphics: Option<u32> = None;
    let mut present: Option<u32> = None;
    let mut index: u32 = 0;
    let mut i: usize = 0;
    while i < families.len() && (graphics.is_none() || present.is_none())
        invariant
            i <= families@.len(),
            families@.len() <= u32::MAX,
            index == with_queues(families@.subrange(0, i as int)).len(),
            index <= i,
            is_first_or_none(
                with_queues(families@.subrange(0, i as int)),
                |family: QueueFamily| family.graphics,
                graphics,
            ),
            is_first_or_none(
                with_queues(families@.subrange(0, i as int)),
                |family: QueueFamily| family.present,
                present,
            ),
        decreases families@.len() - i,
    {
        proof {
            assert(families@.subrange(0, i + 1).drop_last() =~= families@.subrange(0, i as int));
        }
        let family = families[i];
        if family.queue_count > 0 {
            if family.graphics && graphics.is_none() {
                graphics = Some(index);
            }
            if family.present && present.is_none() {
                present = Some(index);
            }
            index += 1;
        }
        i += 1;
    }
    proof {
        lemma_first_stays_first(
            families@,
            i as int,
            |family: QueueFamily| family.graphics,
            graphics,
        );
        lemma_first_stays_first(families@, i as int, |family: QueueFamily| family.present, present);
    }
    (graphics, present)
}

/// The families with queues among the first `n` families stand at the start
/// of the families with queues among all of them.
proof fn lemma_with_queues_prefix(families: Seq<QueueFamily>, n: int)
    requires
        0 <= n <= families.len(),
    ensures
        with_queues(families.subrange(0, n)).len() <= with_queues(families).len(),
        forall|i: int|
            0 <= i < with_queues(families.subrange(0, n)).len() ==> with_queues(
                families.subrange(0, n),
            )[i] == with_queues(families)[i],
    decreases families.len() - n,
{
    if n < families.len() {
        lemma_with_queues_prefix(families, n + 1);
        assert(families.subrange(0, n + 1).drop_last() =~= families.subrange(0, n));
    } else {
        assert(families.subrange(0, n) =~= families);
    }
}

/// A first position that was found among the first `n` families is the
/// first position among all of them.
proof fn lemma_first_stays_first(
    families: Seq<QueueFamily>,
    n: int,
    wanted: spec_fn(QueueFamily) -> bool,
    found: Option<u32>,
)
    requires
        0 <= n <= families.len(),
        is_first_or_none(with_queues(families.subrange(0, n)), wanted, found),
        found is None ==> n == families.len(),
    ensures
        is_first_or_none(with_queues(families), wanted, found),
{
    lemma_with_queues_prefix(families, n);
    if found is None {
        assert(families.subrange(0, n) =~= families);
    }
}

/// Whether `wanted` holds of some family with queues.
pub open spec fn has_family(families: Seq<QueueFamily>, wanted: spec_fn(QueueFamily) -> bool) -> bool {
    exists|i: int| 0 <= i < with_queues(families).len() && wanted(with_queues(families)[i])
}

/// Whether a device with these families can be used: it has a graphics
/// family and a present family.
pub fn is_device_suitable(families: &[QueueFamily]) -> (suitable: bool)
    requires
        families@.len() <= u32::MAX,
    ensures
        suitable == is_suitable(families@),
{
    let (graphics, present) = find_queue_families(families);
    graphics.is_some() && present.is_some()
}

/// The first device that can be used, if there is one.
pub fn pick_physical_device(devices: &[Vec<QueueFamily>]) -> (picked: Option<usize>)
    requires
        forall|d: int| 0 <= d < devices@.len() ==> (#[trigger] devices@[d])@.len() <= u32::MAX,
    ensures
        match picked {
            Some(index) => {
                &&& index < devices@.len()
                &&& is_suitable(devices@[index as int]@)
                &&& forall|d: int| 0 <= d < index ==> !is_suitable(#[trigger] devices@[d]@)
            },
            None => forall|d: int| 0 <= d < devices@.len() ==> !is_suitable(#[trigger] devices@[d]@),
        },
{
    let mut i: usize = 0;
    while i < devices.len()
        invariant
            i <= devices@.len(),
            forall|d: int| 0 <= d < devices@.len() ==> (#[trigger] devices@[d])@.len() <= u32::MAX,
            forall|d: int| 0 <= d < i ==> !is_suitable(#[trigger] devices@[d]@),
        decreases devices@.len() - i,
    {
        if is_device_suitable(devices[i].as_slice()) {
            return Some(i);
        }
        i += 1;
    }
    None
}

/// Whether a device with these families has a graphics family and a present
/// family.
pub open spec fn is_suitable(families: Seq<QueueFamily>) -> bool {
    has_family(families, |family: QueueFamily| family.graphics) && has_family(
        families,
        |family: QueueFamily| family.present,
    )
}

} // verus!
