//! The operations on the object model: creating an instance, selecting an
//! adapter, registering a device and a surface.
//!
//! Each takes the registries it works on, shared where it only reads and
//! exclusive where it registers, in the order instances, adapters, devices,
//! surfaces.

use vstd::prelude::*;
use vstd::pervasive::unreached;
use crate::adapter::{
    adopt_adapter, adopted, device_types, pick, Adapter, AdapterId, RawAdapter,
};
use crate::backend;
use crate::backend::{enumerated_adapters, reported_memory_properties};
use crate::device::{
    device_registered, plan, plan_device, register_device, DeviceId, LogicalDevice, QueueGroup,
};
use crate::error::Error;
use crate::registry::{lookup, registered, Id, Registry};
use crate::surface::{plan_surface, surface_plan, SurfaceId};

verus! {

/// Handle of an instance.
pub type InstanceId = Id;

/// The name under which instances are created at the backend.
pub const APPLICATION_NAME: &'static str = "wgpu";

/// The version under which instances are created at the backend.
pub const APPLICATION_VERSION: u32 = 1;

/// What the caller would rather have: a frugal adapter or a fast one.
#[derive(Clone, Copy, Debug, PartialEq, Eq, Structural, Hash)]
pub enum PowerPreference {
    Default,
    LowPower,
    HighPerformance,
}

/// How to choose an adapter.
#[derive(Clone, Copy, Debug, PartialEq, Eq, Structural, Hash)]
pub struct AdapterDescriptor {
    pub power_preference: PowerPreference,
}

/// The optional capabilities of a device: those an adapter supports, or those
/// a caller asks to have enabled.
#[derive(Clone, Copy, Debug, PartialEq, Eq, Structural, Hash)]
pub struct Extensions {
    pub anisotropic_filtering: bool,
}

/// What a new device must offer.
#[derive(Clone, Copy, Debug, PartialEq, Eq, Structural, Hash)]
pub struct DeviceDescriptor {
    pub extensions: Extensions,
}

/// Creates an instance at the backend and registers it. Every call makes a
/// new instance under a new handle.
pub fn wgpu_create_instance(instances: &mut Registry<gfx_backend_empty::Instance>) -> (id:
    InstanceId)
    ensures
        lookup(final(instances)@, id) matches Some(instance) && registered(
            old(instances)@,
            instance,
            id,
            final(instances)@,
        ),
{
    match backend::create_instance(APPLICATION_NAME, APPLICATION_VERSION) {
        Ok(instance) => instances.register(instance),
        Err(_) => unreached(),
    }
}

/// `candidates` are the adapters `raws`, in order, each with the plain
/// values that the backend reports of it.
pub open spec fn describes_all(raws: Seq<RawAdapter>, candidates: Seq<Adapter>) -> bool {
    &&& candidates.len() == raws.len()
    &&& forall|k: int|
        0 <= k < raws.len() ==> (#[trigger] candidates[k]).raw == raws[k]
            && candidates[k].describes_raw()
}

/// Describes each enumerated adapter, keeping the order.
fn describe_all(raws: Vec<RawAdapter>) -> (described: Vec<Adapter>)
    ensures
        describes_all(raws@, described@),
{
    let mut described: Vec<Adapter> = Vec::new();
    for raw in it: raws
        invariant
            described@.len() == it.index(),
            forall|k: int|
                0 <= k < it.index() ==> (#[trigger] described@[k]).raw == it.seq()[k]
                    && described@[k].describes_raw(),
    {
        described.push(Adapter::describe(raw));
    }
    described
}

/// What selecting an adapter of `instance` does: the candidates are the
/// adapters that the instance enumerates, each described, and the outcome is
/// that of adopting one of them by `preference`.
pub open spec fn adapter_selected(
    instance: gfx_backend_empty::Instance,
    before: Seq<Adapter>,
    preference: PowerPreference,
    outcome: Result<AdapterId, Error>,
    after: Seq<Adapter>,
) -> bool {
    exists|candidates: Seq<Adapter>|
        {
            &&& describes_all(enumerated_adapters(instance), candidates)
            &&& #[trigger] adopted(before, candidates, preference, outcome, after)
        }
}

/// Enumerates the adapters of the instance under `instance_id`, selects one
/// by the power preference in `desc`, registers it and returns its handle.
///
/// An unknown instance gives `HandleNotFound`. For a known one, the adapter
/// that the preference selects among those the instance enumerates is
/// registered, with what the backend reports of it; where the instance
/// enumerates none, and only there, the outcome is `NoAdapterAvailable`.
pub fn wgpu_instance_get_adapter(
    instances: &Registry<gfx_backend_empty::Instance>,
    adapters: &mut Registry<Adapter>,
    instance_id: InstanceId,
    desc: &AdapterDescriptor,
) -> (outcome: Result<AdapterId, Error>)
    ensures
        match lookup(instances@, instance_id) {
            None => outcome == Err::<AdapterId, Error>(Error::HandleNotFound) && final(adapters)@
                == old(adapters)@,
            Some(instance) => {
                &&& adapter_selected(
                    instance,
                    old(adapters)@,
                    desc.power_preference,
                    outcome,
                    final(adapters)@,
                )
                &&& outcome is Ok <==> enumerated_adapters(instance).len() > 0
            },
        },
{
    let instance = match instances.get(instance_id) {
        Ok(instance) => instance,
        Err(e) => {
            return Err(e);
        },
    };
    let candidates = describe_all(backend::enumerate_adapters(instance));
    let ghost described = candidates@;
    let outcome = adopt_adapter(adapters, candidates, desc.power_preference);
    proof {
        assert(describes_all(enumerated_adapters(*instance), described));
        assert(adopted(old(adapters)@, described, desc.power_preference, outcome, adapters@));
    }
    outcome
}

/// What creating a device on the adapter under `adapter_id` does: a device
/// that holds `raw` and `queue_group`, refers back to `adapter_id`, and holds
/// the memory properties of that adapter's physical device has entered
/// under the fresh handle `id`.
pub open spec fn device_created(
    adapters: Seq<Adapter>,
    before: Seq<LogicalDevice>,
    adapter_id: AdapterId,
    raw: gfx_backend_empty::Device,
    queue_group: QueueGroup,
    id: DeviceId,
    after: Seq<LogicalDevice>,
) -> bool {
    &&& lookup(adapters, adapter_id) is Some
    &&& device_registered(
        before,
        adapter_id,
        raw,
        queue_group,
        reported_memory_properties(adapters[adapter_id as int].raw.physical_device),
        id,
        after,
    )
}

/// Registers the device that the backend opened on the adapter under
/// `adapter_id`, together with a snapshot of the adapter's memory properties
/// and a back-reference to the adapter.
///
/// The caller has the backend open `raw` and `queue_group` as `plan_device`
/// said. The plan is made again here: where it fails nothing is registered,
/// and the error is the plan's. Else the backend is asked for the memory
/// properties of the physical device of the adapter under `adapter_id`, and
/// `register_device` registers the device with them. The adapter is held
/// exclusively for the duration and left as it was.
pub fn wgpu_adapter_create_device(
    adapters: &mut Registry<Adapter>,
    devices: &mut Registry<LogicalDevice>,
    adapter_id: AdapterId,
    desc: &DeviceDescriptor,
    raw: gfx_backend_empty::Device,
    queue_group: QueueGroup,
) -> (outcome: Result<DeviceId, Error>)
    ensures
        final(adapters)@ == old(adapters)@,
        match plan(old(adapters)@, adapter_id, *desc) {
            Ok(_) => outcome matches Ok(id) && device_created(
                old(adapters)@,
                old(devices)@,
                adapter_id,
                raw,
                queue_group,
                id,
                final(devices)@,
            ),
            Err(e) => outcome == Err::<DeviceId, Error>(e) && final(devices)@ == old(devices)@,
        },
{
    match plan_device(adapters, adapter_id, desc) {
        Ok(_) => {},
        Err(e) => {
            return Err(e);
        },
    }
    let adapter = match adapters.get(adapter_id) {
        Ok(adapter) => adapter,
        Err(e) => {
            return Err(e);
        },
    };
    let mem_props = backend::memory_properties_of(&adapter.raw.physical_device);
    Ok(register_device(devices, adapter_id, raw, queue_group, mem_props))
}

/// A device created on the handle that a selection returned belongs to the
/// adapter that was selected: the handle names that adapter, the device
/// refers back to the handle, and the snapshot it holds is that of the
/// adapter's physical device.
pub proof fn lemma_device_on_selected_adapter(
    adapters_before: Seq<Adapter>,
    candidates: Seq<Adapter>,
    preference: PowerPreference,
    adapter_id: AdapterId,
    adapters: Seq<Adapter>,
    devices_before: Seq<LogicalDevice>,
    raw: gfx_backend_empty::Device,
    queue_group: QueueGroup,
    id: DeviceId,
    devices: Seq<LogicalDevice>,
)
    requires
        adopted(
            adapters_before,
            candidates,
            preference,
            Ok::<AdapterId, Error>(adapter_id),
            adapters,
        ),
        device_created(adapters, devices_before, adapter_id, raw, queue_group, id, devices),
    ensures
        ({
            &&& pick(device_types(candidates), preference) matches Some(i)
            &&& lookup(adapters, adapter_id) == Some(candidates[i])
            &&& lookup(devices, id) matches Some(device)
            &&& device.adapter_id.0 == adapter_id
            &&& device.mem_props == reported_memory_properties(candidates[i].raw.physical_device)
        }),
{
}

/// What creating a surface does. Where the plan fails, the error is the
/// plan's and nothing is registered: `UnsupportedPlatform` without a path,
/// whatever the handle, and else `HandleNotFound` for an unknown instance.
/// Where it holds, the backend was asked: its surface is registered under a
/// fresh handle, and its refusal is `UnsupportedPlatform`.
pub open spec fn surface_created(
    instances: Seq<gfx_backend_empty::Instance>,
    before: Seq<gfx_backend_empty::Surface>,
    instance_id: InstanceId,
    has_path: bool,
    created: Result<gfx_backend_empty::Surface, gfx_hal::window::InitError>,
    outcome: Result<SurfaceId, Error>,
    after: Seq<gfx_backend_empty::Surface>,
) -> bool {
    match surface_plan(instances, instance_id, has_path) {
        Err(e) => outcome == Err::<SurfaceId, Error>(e) && after == before,
        Ok(_) => match created {
            Ok(surface) => outcome matches Ok(id) && registered(before, surface, id, after),
            Err(_) => outcome == Err::<SurfaceId, Error>(Error::UnsupportedPlatform) && after
                == before,
        },
    }
}

/// Registers the surface that the backend made for a window from the
/// instance under `instance_id`.
///
/// The caller asks the backend only where `plan_surface` said so, and hands
/// in what it returned as `created`. The plan is made again here: where it
/// fails, `created` is not looked at.
pub fn wgpu_instance_create_surface(
    instances: &Registry<gfx_backend_empty::Instance>,
    surfaces: &mut Registry<gfx_backend_empty::Surface>,
    instance_id: InstanceId,
    has_path: bool,
    created: Result<gfx_backend_empty::Surface, gfx_hal::window::InitError>,
) -> (outcome: Result<SurfaceId, Error>)
    ensures
        surface_created(
            instances@,
            old(surfaces)@,
            instance_id,
            has_path,
            created,
            outcome,
            final(surfaces)@,
        ),
{
    match plan_surface(instances, instance_id, has_path) {
        Ok(_) => {},
        Err(e) => {
            return Err(e);
        },
    }
    match created {
        Ok(surface) => Ok(surfaces.register(surface)),
        Err(_) => Err(Error::UnsupportedPlatform),
    }
}

} // verus!
