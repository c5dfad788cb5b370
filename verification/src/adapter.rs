//! Adapters: what is known of each, and which one a power preference
//! selects.

use vstd::prelude::*;
use crate::backend;
use crate::backend::{
    reported_device_type, reported_extensions, reported_max_queues, reported_queue_type,
};
use crate::error::Error;
use crate::instance::{Extensions, PowerPreference};
use crate::registry::{registered, Id, Registry};

verus! {

/// Handle of an adapter.
pub type AdapterId = Id;

/// What kind of hardware an adapter is.
#[derive(Clone, Copy, Debug, PartialEq, Eq, Structural, Hash)]
pub enum DeviceType {
    Other,
    IntegratedGpu,
    DiscreteGpu,
    VirtualGpu,
    Cpu,
}

/// What the queues of a family can do.
#[derive(Clone, Copy, Debug, PartialEq, Eq, Structural, Hash)]
pub enum QueueType {
    /// Graphics, compute and transfer.
    General,
    Graphics,
    Compute,
    Transfer,
}

/// One queue family of an adapter, as far as choosing among them goes.
#[derive(Clone, Copy, Debug, PartialEq, Eq, Structural, Hash)]
pub struct QueueFamilyInfo {
    pub queue_type: QueueType,
    pub max_queues: usize,
}

/// An adapter as the backend enumerates it.
pub struct RawAdapter {
    pub info: gfx_hal::adapter::AdapterInfo,
    pub physical_device: gfx_backend_empty::PhysicalDevice,
    pub queue_families: Vec<gfx_backend_empty::QueueFamily>,
}

/// One physical GPU: what the backend handed out, and beside it, as plain
/// values, what the object model decides on.
pub struct Adapter {
    pub device_type: DeviceType,
    /// The extensions the adapter supports.
    pub extensions: Extensions,
    /// One entry for each of `raw.queue_families`, in the same order.
    pub queue_families: Vec<QueueFamilyInfo>,
    pub raw: RawAdapter,
}

/// What is known of a queue family of the backend, as plain values.
pub open spec fn family_info(family: gfx_backend_empty::QueueFamily) -> QueueFamilyInfo {
    QueueFamilyInfo {
        queue_type: reported_queue_type(family),
        max_queues: reported_max_queues(family),
    }
}

impl Adapter {
    /// The plain values are those the backend reports of `raw`: its device
    /// type, the extensions of its physical device, and of each queue family,
    /// in order, the type and the number of queues.
    pub open spec fn describes_raw(&self) -> bool {
        &&& self.device_type == reported_device_type(self.raw.info)
        &&& self.extensions == reported_extensions(self.raw.physical_device)
        &&& self.queue_families@ == self.raw.queue_families@.map_values(
            |family: gfx_backend_empty::QueueFamily| family_info(family),
        )
    }
}

/// The three classes that a power preference ranks.
#[derive(Clone, Copy, Debug, PartialEq, Eq, Structural, Hash)]
pub enum PowerClass {
    /// An integrated GPU.
    Low,
    /// A discrete GPU.
    High,
    /// Anything else: virtual, software, unknown.
    Other,
}

/// The class of a device type: integrated GPUs are low, discrete GPUs high,
/// and every other device is `Other`.
pub open spec fn class_of(device_type: DeviceType) -> PowerClass {
    match device_type {
        DeviceType::IntegratedGpu => PowerClass::Low,
        DeviceType::DiscreteGpu => PowerClass::High,
        _ => PowerClass::Other,
    }
}

/// The device types of a list of adapters, in order.
pub open spec fn device_types(adapters: Seq<Adapter>) -> Seq<DeviceType> {
    adapters.map_values(|a: Adapter| a.device_type)
}

/// The position of the last device of class `class`, if there is one.
pub open spec fn last_of(types: Seq<DeviceType>, class: PowerClass) -> Option<int>
    decreases types.len(),
{
    if types.len() == 0 {
        None
    } else if class_of(types.last()) == class {
        Some(types.len() - 1)
    } else {
        last_of(types.drop_last(), class)
    }
}

/// `first` if it holds a position, else `second`.
pub open spec fn or_else(first: Option<int>, second: Option<int>) -> Option<int> {
    if first is Some {
        first
    } else {
        second
    }
}

/// A position held in a machine integer stands for the same position as a
/// mathematical one.
pub open spec fn matches_position(held: Option<usize>, position: Option<int>) -> bool {
    match held {
        Some(i) => position == Some(i as int),
        None => position is None,
    }
}

/// The position of the adapter that `preference` selects. Each class is
/// represented by its last device. `LowPower` takes the low class before the
/// high one, the other two preferences the high class before the low one,
/// and all of them fall back on the remaining class last.
pub open spec fn pick(types: Seq<DeviceType>, preference: PowerPreference) -> Option<int> {
    let low = last_of(types, PowerClass::Low);
    let high = last_of(types, PowerClass::High);
    let other = last_of(types, PowerClass::Other);
    match preference {
        PowerPreference::LowPower => or_else(or_else(low, high), other),
        PowerPreference::HighPerformance | PowerPreference::Default => or_else(
            or_else(high, low),
            other,
        ),
    }
}

/// How much `preference` likes a class: 0 is best.
pub open spec fn rank(preference: PowerPreference, class: PowerClass) -> int {
    match class {
        PowerClass::Other => 2,
        PowerClass::Low => if preference == PowerPreference::LowPower { 0 } else { 1 },
        PowerClass::High => if preference == PowerPreference::LowPower { 1 } else { 0 },
    }
}

/// `last_of` finds a device of the class after which no other of that class
/// comes, and finds none only where the class is absent.
pub proof fn lemma_last_of(types: Seq<DeviceType>, class: PowerClass)
    ensures
        match last_of(types, class) {
            Some(i) => {
                &&& 0 <= i < types.len()
                &&& class_of(types[i]) == class
                &&& forall|j: int| i < j < types.len() ==> class_of(#[trigger] types[j]) != class
            },
            None => forall|j: int| 0 <= j < types.len() ==> class_of(#[trigger] types[j]) != class,
        },
    decreases types.len(),
{
    if types.len() > 0 && class_of(types.last()) != class {
        let rest = types.drop_last();
        lemma_last_of(rest, class);
        assert forall|j: int| 0 <= j < rest.len() implies rest[j] == types[j] by {}
        match last_of(rest, class) {
            Some(i) => {
                assert forall|j: int| i < j < types.len() implies class_of(#[trigger] types[j])
                    != class by {
                    if j < rest.len() {
                        assert(rest[j] == types[j]);
                    }
                }
            },
            None => {
                assert forall|j: int| 0 <= j < types.len() implies class_of(#[trigger] types[j])
                    != class by {
                    if j < rest.len() {
                        assert(rest[j] == types[j]);
                    }
                }
            },
        }
    }
}

/// Selection finds nothing only in an empty list.
pub proof fn lemma_pick_none_iff_empty(types: Seq<DeviceType>, preference: PowerPreference)
    ensures
        pick(types, preference) is None <==> types.len() == 0,
{
    lemma_last_of(types, PowerClass::Low);
    lemma_last_of(types, PowerClass::High);
    lemma_last_of(types, PowerClass::Other);
    if types.len() > 0 {
        let c = class_of(types[0]);
        assert(c == PowerClass::Low || c == PowerClass::High || c == PowerClass::Other);
    }
}

/// Selection correctness: the adapter selected is of the class that the
/// preference likes best among the classes present, and it is the last
/// adapter of that class.
pub proof fn lemma_pick_is_best(types: Seq<DeviceType>, preference: PowerPreference)
    ensures
        match pick(types, preference) {
            Some(i) => {
                &&& 0 <= i < types.len()
                &&& forall|j: int|
                    0 <= j < types.len() ==> rank(preference, class_of(types[i])) <= rank(
                        preference,
                        class_of(#[trigger] types[j]),
                    )
                &&& forall|j: int|
                    i < j < types.len() ==> class_of(#[trigger] types[j]) != class_of(types[i])
            },
            None => types.len() == 0,
        },
{
    lemma_last_of(types, PowerClass::Low);
    lemma_last_of(types, PowerClass::High);
    lemma_last_of(types, PowerClass::Other);
    lemma_pick_none_iff_empty(types, preference);
}

/// Unfolds `last_of` at the end of a prefix: the last device of a class among
/// the first `n + 1` is the one at `n` if that is of the class, and else the
/// last among the first `n`.
proof fn lemma_last_of_step(types: Seq<DeviceType>, class: PowerClass, n: int)
    requires
        0 <= n < types.len(),
    ensures
        last_of(types.take(n + 1), class) == if class_of(types[n]) == class {
            Some(n)
        } else {
            last_of(types.take(n), class)
        },
{
    assert(types.take(n + 1).drop_last() =~= types.take(n));
}

/// The class that the preferences rank a device type in.
pub fn classify(device_type: DeviceType) -> (class: PowerClass)
    ensures
        class == class_of(device_type),
{
    match device_type {
        DeviceType::IntegratedGpu => PowerClass::Low,
        DeviceType::DiscreteGpu => PowerClass::High,
        _ => PowerClass::Other,
    }
}

/// The position in `candidates` of the adapter that `preference` selects;
/// `None` only when there is no candidate.
pub fn select_adapter(candidates: &Vec<Adapter>, preference: PowerPreference) -> (choice: Option<
    usize,
>)
    ensures
        matches_position(choice, pick(device_types(candidates@), preference)),
        choice matches Some(i) ==> i < candidates@.len(),
        choice is None <==> candidates@.len() == 0,
{
    let ghost types = device_types(candidates@);
    proof {
        lemma_pick_is_best(types, preference);
    }
    let mut low: Option<usize> = None;
    let mut high: Option<usize> = None;
    let mut other: Option<usize> = None;
    let mut n: usize = 0;
    while n < candidates.len()
        invariant
            n <= candidates.len(),
            types == device_types(candidates@),
            types.len() == candidates@.len(),
            matches_position(low, last_of(types.take(n as int), PowerClass::Low)),
            matches_position(high, last_of(types.take(n as int), PowerClass::High)),
            matches_position(other, last_of(types.take(n as int), PowerClass::Other)),
        decreases candidates.len() - n,
    {
        proof {
            lemma_last_of_step(types, PowerClass::Low, n as int);
            lemma_last_of_step(types, PowerClass::High, n as int);
            lemma_last_of_step(types, PowerClass::Other, n as int);
        }
        match classify(candidates[n].device_type) {
            PowerClass::Low => {
                low = Some(n);
            },
            PowerClass::High => {
                high = Some(n);
            },
            PowerClass::Other => {
                other = Some(n);
            },
        }
        n = n + 1;
    }
    proof {
        assert(types.take(n as int) =~= types);
    }
    let preferred = match preference {
        PowerPreference::LowPower => if low.is_some() {
            low
        } else {
            high
        },
        PowerPreference::HighPerformance | PowerPreference::Default => if high.is_some() {
            high
        } else {
            low
        },
    };
    if preferred.is_some() {
        preferred
    } else {
        other
    }
}

impl Adapter {
    /// Reads from an enumerated adapter what the object model decides on:
    /// its device type, the extensions it supports, and the type and size of
    /// each queue family. The adapter returned holds `raw` and, beside it,
    /// exactly what the backend reports of `raw`.
    pub fn describe(raw: RawAdapter) -> (adapter: Adapter)
        ensures
            adapter.raw == raw,
            adapter.describes_raw(),
    {
        let device_type = backend::device_type_of(&raw.info);
        let extensions = backend::supported_extensions(&raw.physical_device);
        let mut queue_families: Vec<QueueFamilyInfo> = Vec::new();
        let mut n: usize = 0;
        while n < raw.queue_families.len()
            invariant
                n <= raw.queue_families@.len(),
                queue_families@.len() == n,
                forall|k: int|
                    0 <= k < n ==> queue_families@[k] == family_info(
                        #[trigger] raw.queue_families@[k],
                    ),
            decreases raw.queue_families@.len() - n,
        {
            let family = &raw.queue_families[n];
            queue_families.push(
                QueueFamilyInfo {
                    queue_type: backend::queue_type_of(family),
                    max_queues: backend::max_queues_of(family),
                },
            );
            n = n + 1;
        }
        assert(queue_families@ =~= raw.queue_families@.map_values(
            |family: gfx_backend_empty::QueueFamily| family_info(family),
        ));
        Adapter { device_type, extensions, queue_families, raw }
    }
}

/// What adopting one of `candidates` does: the adapter that `preference`
/// selects is registered, and its fresh handle is the outcome; without a
/// candidate the outcome is `NoAdapterAvailable` and nothing is registered.
pub open spec fn adopted(
    before: Seq<Adapter>,
    candidates: Seq<Adapter>,
    preference: PowerPreference,
    outcome: Result<AdapterId, Error>,
    after: Seq<Adapter>,
) -> bool {
    match pick(device_types(candidates), preference) {
        Some(i) => outcome matches Ok(id) && registered(before, candidates[i], id, after),
        None => outcome == Err::<AdapterId, Error>(Error::NoAdapterAvailable) && after == before,
    }
}

/// Selects one of `candidates` by `preference` and registers it. The other
/// candidates are dropped.
pub fn adopt_adapter(
    adapters: &mut Registry<Adapter>,
    candidates: Vec<Adapter>,
    preference: PowerPreference,
) -> (outcome: Result<AdapterId, Error>)
    ensures
        adopted(old(adapters)@, candidates@, preference, outcome, final(adapters)@),
        outcome is Err <==> candidates@.len() == 0,
{
    let mut candidates = candidates;
    match select_adapter(&candidates, preference) {
        Some(i) => {
            let adapter = candidates.swap_remove(i);
            Ok(adapters.register(adapter))
        },
        None => Err(Error::NoAdapterAvailable),
    }
}

} // verus!
