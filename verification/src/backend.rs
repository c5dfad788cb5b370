//! The graphics backend: the types of `gfx-hal` and `gfx-backend-empty` that
//! the object model carries, and the calls it makes into them. Verus sees
//! nothing inside these types and takes the contracts here on trust.

use vstd::prelude::*;
use crate::adapter::{DeviceType, QueueType, RawAdapter};
use crate::instance::Extensions;

verus! {

/// An instance of the mock backend.
#[verifier::external_type_specification]
#[verifier::external_body]
pub struct ExInstance(gfx_backend_empty::Instance);

/// A physical device of the mock backend.
#[verifier::external_type_specification]
#[verifier::external_body]
pub struct ExPhysicalDevice(gfx_backend_empty::PhysicalDevice);

/// A queue family of the mock backend.
#[verifier::external_type_specification]
#[verifier::external_body]
pub struct ExQueueFamily(gfx_backend_empty::QueueFamily);

/// A logical device of the mock backend.
#[verifier::external_type_specification]
#[verifier::external_body]
pub struct ExDevice(gfx_backend_empty::Device);

/// A command queue of the mock backend.
#[verifier::external_type_specification]
#[verifier::external_body]
pub struct ExQueue(gfx_backend_empty::Queue);

/// A surface of the mock backend.
#[verifier::external_type_specification]
#[verifier::external_body]
pub struct ExSurface(gfx_backend_empty::Surface);

/// An adapter's name, vendor, device and device type.
#[verifier::external_type_specification]
#[verifier::external_body]
pub struct ExAdapterInfo(gfx_hal::adapter::AdapterInfo);

/// The memory types and heaps of a physical device.
#[verifier::external_type_specification]
#[verifier::external_body]
pub struct ExMemoryProperties(gfx_hal::adapter::MemoryProperties);

/// The refusal of a backend to run on the platform.
#[verifier::external_type_specification]
#[verifier::external_body]
pub struct ExUnsupportedBackend(gfx_hal::UnsupportedBackend);

/// The refusal of a backend to make a surface for a window.
#[verifier::external_type_specification]
#[verifier::external_body]
pub struct ExInitError(gfx_hal::window::InitError);

/// The device type that an adapter's info holds: what `device_type_of` reads.
pub uninterp spec fn reported_device_type(info: gfx_hal::adapter::AdapterInfo) -> DeviceType;

/// The type of the queues of a family: what `queue_type_of` reads.
pub uninterp spec fn reported_queue_type(family: gfx_backend_empty::QueueFamily) -> QueueType;

/// The number of queues a family can give: what `max_queues_of` reads.
pub uninterp spec fn reported_max_queues(family: gfx_backend_empty::QueueFamily) -> usize;

/// The extensions a physical device supports: what `supported_extensions`
/// reads.
pub uninterp spec fn reported_extensions(device: gfx_backend_empty::PhysicalDevice) -> Extensions;

/// The adapters an instance enumerates, in the backend's order: what
/// `enumerate_adapters` returns.
pub uninterp spec fn enumerated_adapters(instance: gfx_backend_empty::Instance) -> Seq<RawAdapter>;

/// The memory types and heaps of a physical device: what
/// `memory_properties_of` returns.
pub uninterp spec fn reported_memory_properties(
    device: gfx_backend_empty::PhysicalDevice,
) -> gfx_hal::adapter::MemoryProperties;

/// `gfx_hal::Instance::create` of the mock backend. The trait lets a backend
/// refuse a platform it does not support; the mock backend supports every
/// platform and always returns an instance, which is what is claimed.
#[verifier::external_body]
pub(crate) fn create_instance(name: &str, version: u32) -> (created: Result<
    gfx_backend_empty::Instance,
    gfx_hal::UnsupportedBackend,
>)
    ensures
        created is Ok,
{
    gfx_hal::Instance::create(name, version)
}

/// `gfx_hal::Instance::enumerate_adapters` of the mock backend: the adapters
/// of the instance, in the backend's order, each taken apart into its three
/// fields. The mock backend builds the same list on every call, so the
/// result is given a name; which adapters it holds, is not claimed.
#[verifier::external_body]
pub(crate) fn enumerate_adapters(instance: &gfx_backend_empty::Instance) -> (found: Vec<RawAdapter>)
    ensures
        found@ == enumerated_adapters(*instance),
{
    gfx_hal::Instance::enumerate_adapters(instance)
        .into_iter()
        .map(|a| RawAdapter {
            info: a.info,
            physical_device: a.physical_device,
            queue_families: a.queue_families,
        })
        .collect()
}

/// Reads `device_type` of a `gfx_hal::adapter::AdapterInfo`, variant for
/// variant. The result depends on the info alone and is given a name; which
/// type it is, is not claimed.
#[verifier::external_body]
pub(crate) fn device_type_of(info: &gfx_hal::adapter::AdapterInfo) -> (device_type: DeviceType)
    ensures
        device_type == reported_device_type(*info),
{
    match info.device_type {
        gfx_hal::adapter::DeviceType::Other => DeviceType::Other,
        gfx_hal::adapter::DeviceType::IntegratedGpu => DeviceType::IntegratedGpu,
        gfx_hal::adapter::DeviceType::DiscreteGpu => DeviceType::DiscreteGpu,
        gfx_hal::adapter::DeviceType::VirtualGpu => DeviceType::VirtualGpu,
        gfx_hal::adapter::DeviceType::Cpu => DeviceType::Cpu,
    }
}

/// `gfx_hal::queue::QueueFamily::queue_type`, variant for variant. The result
/// depends on the family alone and is given a name; which type it is, is not
/// claimed.
#[verifier::external_body]
pub(crate) fn queue_type_of(family: &gfx_backend_empty::QueueFamily) -> (queue_type: QueueType)
    ensures
        queue_type == reported_queue_type(*family),
{
    match gfx_hal::queue::QueueFamily::queue_type(family) {
        gfx_hal::queue::QueueType::General => QueueType::General,
        gfx_hal::queue::QueueType::Graphics => QueueType::Graphics,
        gfx_hal::queue::QueueType::Compute => QueueType::Compute,
        gfx_hal::queue::QueueType::Transfer => QueueType::Transfer,
    }
}

/// `gfx_hal::queue::QueueFamily::max_queues`: how many queues the family can
/// give. The result depends on the family alone and is given a name; how
/// many there are, is not claimed.
#[verifier::external_body]
pub(crate) fn max_queues_of(family: &gfx_backend_empty::QueueFamily) -> (max_queues: usize)
    ensures
        max_queues == reported_max_queues(*family),
{
    gfx_hal::queue::QueueFamily::max_queues(family)
}

/// `gfx_hal::adapter::PhysicalDevice::features`, of which the one flag that
/// stands for an extension is kept. The result depends on the device alone
/// and is given a name; which extensions there are, is not claimed.
#[verifier::external_body]
pub(crate) fn supported_extensions(device: &gfx_backend_empty::PhysicalDevice) -> (supported:
    Extensions)
    ensures
        supported == reported_extensions(*device),
{
    let features = gfx_hal::adapter::PhysicalDevice::features(device);
    Extensions { anisotropic_filtering: features.contains(gfx_hal::Features::SAMPLER_ANISOTROPY) }
}

/// `gfx_hal::adapter::PhysicalDevice::memory_properties` of the mock backend:
/// the memory types and heaps of the device. The mock backend returns the
/// same values on every call, so the result is given a name; which values
/// they are, is not claimed.
#[verifier::external_body]
pub(crate) fn memory_properties_of(device: &gfx_backend_empty::PhysicalDevice) -> (properties:
    gfx_hal::adapter::MemoryProperties)
    ensures
        properties == reported_memory_properties(*device),
{
    gfx_hal::adapter::PhysicalDevice::memory_properties(device)
}

} // verus!
