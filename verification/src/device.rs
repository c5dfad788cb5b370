//! Logical devices: on which queue family of an adapter one is opened, what
//! it may enable, and how it refers back to its adapter.

use vstd::prelude::*;
use crate::adapter::{matches_position, Adapter, AdapterId, QueueFamilyInfo, QueueType};
use crate::error::Error;
use crate::instance::{DeviceDescriptor, Extensions};
use crate::registry::{lookup, registered, Id, Registry};

verus! {

/// Handle of a logical device.
pub type DeviceId = Id;

/// How many queues a new device asks of the family it is opened on.
pub const QUEUE_COUNT: usize = 1;

/// A reference that does not own: the handle of an object that this value
/// neither keeps alive nor is kept valid by. It may fail to resolve.
#[derive(Debug, PartialEq, Eq, Structural)]
pub struct WeaklyStored<T>(pub T);

/// The queues that a device was opened with, all of one family.
pub struct QueueGroup {
    /// The backend's identifier of the family.
    pub family: usize,
    pub queues: Vec<gfx_backend_empty::Queue>,
}

/// A logical device, open on an adapter.
pub struct LogicalDevice {
    pub raw: gfx_backend_empty::Device,
    /// The adapter the device was opened on.
    pub adapter_id: WeaklyStored<AdapterId>,
    pub queue_group: QueueGroup,
    /// The adapter's memory properties as they were when the device was
    /// registered.
    pub mem_props: gfx_hal::adapter::MemoryProperties,
}

/// What to ask of the backend when it opens a device.
#[derive(Clone, Copy, Debug, PartialEq, Eq, Structural, Hash)]
pub struct DevicePlan {
    /// The position, among the adapter's queue families, of the one to take
    /// the queues from.
    pub family: usize,
    /// The extensions to enable.
    pub extensions: Extensions,
}

/// A family suits when it is general, so that it takes graphics, compute and
/// transfer work alike, and can give `count` queues.
pub open spec fn suits(family: QueueFamilyInfo, count: usize) -> bool {
    family.queue_type == QueueType::General && count <= family.max_queues
}

/// The position of the first family that suits, if any does.
pub open spec fn first_suitable(families: Seq<QueueFamilyInfo>, count: usize) -> Option<int>
    decreases families.len(),
{
    if families.len() == 0 {
        None
    } else if suits(families.first(), count) {
        Some(0)
    } else {
        match first_suitable(families.drop_first(), count) {
            Some(i) => Some(i + 1),
            None => None,
        }
    }
}

/// Every extension that is requested is supported.
pub open spec fn supports(supported: Extensions, requested: Extensions) -> bool {
    requested.anisotropic_filtering ==> supported.anisotropic_filtering
}

/// Whether a device can be opened on the adapter under `adapter_id` as
/// `desc` asks, and how. The adapter must exist, then have a family that
/// suits, then support what is requested: the first of these that fails
/// gives the error.
pub open spec fn plan(adapters: Seq<Adapter>, adapter_id: AdapterId, desc: DeviceDescriptor) -> Result<
    DevicePlan,
    Error,
> {
    match lookup(adapters, adapter_id) {
        None => Err(Error::HandleNotFound),
        Some(adapter) => match first_suitable(adapter.queue_families@, QUEUE_COUNT) {
            None => Err(Error::NoSuitableQueueFamily { adapter: adapter_id }),
            Some(i) => if supports(adapter.extensions, desc.extensions) {
                Ok(DevicePlan { family: i as usize, extensions: desc.extensions })
            } else {
                Err(Error::UnsupportedExtension { adapter: adapter_id, requested: desc.extensions })
            },
        },
    }
}

/// `first_suitable` finds a family that suits and before which none does,
/// and finds none only where no family suits.
pub proof fn lemma_first_suitable(families: Seq<QueueFamilyInfo>, count: usize)
    ensures
        match first_suitable(families, count) {
            Some(i) => {
                &&& 0 <= i < families.len()
                &&& suits(families[i], count)
                &&& forall|j: int| 0 <= j < i ==> !suits(#[trigger] families[j], count)
            },
            None => forall|j: int| 0 <= j < families.len() ==> !suits(#[trigger] families[j], count),
        },
    decreases families.len(),
{
    if families.len() > 0 && !suits(families.first(), count) {
        let rest = families.drop_first();
        lemma_first_suitable(rest, count);
        assert forall|j: int| 0 <= j < rest.len() implies rest[j] == families[j + 1] by {}
        match first_suitable(rest, count) {
            Some(i) => {
                assert(rest[i] == families[i + 1]);
                assert forall|j: int| 0 <= j < i + 1 implies !suits(
                    #[trigger] families[j],
                    count,
                ) by {
                    if j > 0 {
                        assert(rest[j - 1] == families[j]);
                    }
                }
            },
            None => {
                assert forall|j: int| 0 <= j < families.len() implies !suits(
                    #[trigger] families[j],
                    count,
                ) by {
                    if j > 0 {
                        assert(rest[j - 1] == families[j]);
                    }
                }
            },
        }
    }
}

/// The position of the first of `families` that is general and can give
/// `count` queues.
pub fn select_queue_family(families: &Vec<QueueFamilyInfo>, count: usize) -> (choice: Option<usize>)
    ensures
        matches_position(choice, first_suitable(families@, count)),
        choice matches Some(i) ==> i < families@.len() && suits(families@[i as int], count),
{
    let mut n: usize = 0;
    while n < families.len()
        invariant
            n <= families@.len(),
            forall|j: int| 0 <= j < n ==> !suits(#[trigger] families@[j], count),
        decreases families@.len() - n,
    {
        let family = &families[n];
        if family.queue_type == QueueType::General && count <= family.max_queues {
            proof {
                lemma_first_suitable(families@, count);
            }
            return Some(n);
        }
        n = n + 1;
    }
    proof {
        lemma_first_suitable(families@, count);
    }
    None
}

/// Whether an adapter that supports `supported` can enable all of
/// `requested`.
pub fn extensions_supported(supported: &Extensions, requested: &Extensions) -> (covered: bool)
    ensures
        covered == supports(*supported, *requested),
{
    !requested.anisotropic_filtering || supported.anisotropic_filtering
}

/// Decides whether a device can be opened on the adapter under `adapter_id`
/// as `desc` asks, and on which queue family.
pub fn plan_device(adapters: &Registry<Adapter>, adapter_id: AdapterId, desc: &DeviceDescriptor) -> (planned:
    Result<DevicePlan, Error>)
    ensures
        planned == plan(adapters@, adapter_id, *desc),
        planned matches Ok(p) ==> {
            &&& lookup(adapters@, adapter_id) matches Some(adapter)
            &&& p.family < adapter.queue_families@.len()
            &&& suits(adapter.queue_families@[p.family as int], QUEUE_COUNT)
            &&& supports(adapter.extensions, p.extensions)
        },
{
    proof {
        if let Some(adapter) = lookup(adapters@, adapter_id) {
            lemma_first_suitable(adapter.queue_families@, QUEUE_COUNT);
        }
    }
    let adapter = match adapters.get(adapter_id) {
        Ok(adapter) => adapter,
        Err(e) => {
            return Err(e);
        },
    };
    match select_queue_family(&adapter.queue_families, QUEUE_COUNT) {
        None => Err(Error::NoSuitableQueueFamily { adapter: adapter_id }),
        Some(family) => {
            if extensions_supported(&adapter.extensions, &desc.extensions) {
                Ok(DevicePlan { family, extensions: desc.extensions })
            } else {
                Err(Error::UnsupportedExtension { adapter: adapter_id, requested: desc.extensions })
            }
        },
    }
}

/// The device that is registered for what the backend opened on the adapter
/// under `adapter_id`: it holds the raw device, its queues and the snapshot
/// of the memory properties, and refers back to the adapter.
pub open spec fn opened_device(
    adapter_id: AdapterId,
    raw: gfx_backend_empty::Device,
    queue_group: QueueGroup,
    mem_props: gfx_hal::adapter::MemoryProperties,
) -> LogicalDevice {
    LogicalDevice { raw, adapter_id: WeaklyStored(adapter_id), queue_group, mem_props }
}

/// What registering an opened device does: `opened_device` of the four
/// enters under the fresh handle `id`.
pub open spec fn device_registered(
    before: Seq<LogicalDevice>,
    adapter_id: AdapterId,
    raw: gfx_backend_empty::Device,
    queue_group: QueueGroup,
    mem_props: gfx_hal::adapter::MemoryProperties,
    id: DeviceId,
    after: Seq<LogicalDevice>,
) -> bool {
    registered(before, opened_device(adapter_id, raw, queue_group, mem_props), id, after)
}

/// Registers a device that holds `raw`, `queue_group` and the snapshot
/// `mem_props`, and that refers back to the adapter under `adapter_id`.
pub fn register_device(
    devices: &mut Registry<LogicalDevice>,
    adapter_id: AdapterId,
    raw: gfx_backend_empty::Device,
    queue_group: QueueGroup,
    mem_props: gfx_hal::adapter::MemoryProperties,
) -> (id: DeviceId)
    ensures
        device_registered(
            old(devices)@,
            adapter_id,
            raw,
            queue_group,
            mem_props,
            id,
            final(devices)@,
        ),
{
    devices.register(
        LogicalDevice { raw, adapter_id: WeaklyStored(adapter_id), queue_group, mem_props },
    )
}

impl LogicalDevice {
    /// Resolves the back-reference: the adapter this device was opened on,
    /// as it is now, or `HandleNotFound` where the handle names no adapter.
    pub fn adapter<'a>(&self, adapters: &'a Registry<Adapter>) -> (found: Result<&'a Adapter, Error>)
        ensures
            match found {
                Ok(adapter) => lookup(adapters@, self.adapter_id.0) == Some(*adapter),
                Err(e) => e == Error::HandleNotFound && lookup(adapters@, self.adapter_id.0) is None,
            },
    {
        adapters.get(self.adapter_id.0)
    }
}

/// Back-reference: a device registered for the adapter under `adapter_id`
/// refers to a handle that resolves, and resolves to that adapter.
pub proof fn lemma_back_reference_resolves(
    adapters: Seq<Adapter>,
    adapter_id: AdapterId,
    desc: DeviceDescriptor,
    before: Seq<LogicalDevice>,
    raw: gfx_backend_empty::Device,
    queue_group: QueueGroup,
    mem_props: gfx_hal::adapter::MemoryProperties,
    id: DeviceId,
    after: Seq<LogicalDevice>,
)
    requires
        plan(adapters, adapter_id, desc) is Ok,
        device_registered(before, adapter_id, raw, queue_group, mem_props, id, after),
    ensures
        lookup(after, id) matches Some(device) && lookup(adapters, device.adapter_id.0) is Some
            && lookup(adapters, device.adapter_id.0) == lookup(adapters, adapter_id),
{
}

/// Back-reference: what a device's back-reference resolves to is not
/// disturbed when another adapter is registered. Adapters are never removed,
/// so a back-reference that resolved once resolves ever after.
pub proof fn lemma_back_reference_kept(
    device: LogicalDevice,
    before: Seq<Adapter>,
    adapter: Adapter,
    id: AdapterId,
    after: Seq<Adapter>,
)
    requires
        registered(before, adapter, id, after),
        lookup(before, device.adapter_id.0) is Some,
    ensures
        lookup(after, device.adapter_id.0) == lookup(before, device.adapter_id.0),
{
}

} // verus!
