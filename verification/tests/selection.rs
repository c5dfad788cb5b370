use wgpu_native::adapter::{
    adopt_adapter, classify, select_adapter, Adapter, DeviceType, PowerClass, QueueFamilyInfo,
    QueueType, RawAdapter,
};
use wgpu_native::error::Error;
use wgpu_native::instance::{Extensions, PowerPreference};
use wgpu_native::registry::Registry;

fn raw(name: &str, device_type: gfx_hal::adapter::DeviceType) -> RawAdapter {
    RawAdapter {
        info: gfx_hal::adapter::AdapterInfo {
            name: String::from(name),
            vendor: 0,
            device: 0,
            device_type,
        },
        physical_device: gfx_backend_empty::PhysicalDevice,
        queue_families: vec![gfx_backend_empty::QueueFamily],
    }
}

fn hal_type(device_type: DeviceType) -> gfx_hal::adapter::DeviceType {
    match device_type {
        DeviceType::Other => gfx_hal::adapter::DeviceType::Other,
        DeviceType::IntegratedGpu => gfx_hal::adapter::DeviceType::IntegratedGpu,
        DeviceType::DiscreteGpu => gfx_hal::adapter::DeviceType::DiscreteGpu,
        DeviceType::VirtualGpu => gfx_hal::adapter::DeviceType::VirtualGpu,
        DeviceType::Cpu => gfx_hal::adapter::DeviceType::Cpu,
    }
}

fn adapter(name: &str, device_type: DeviceType) -> Adapter {
    Adapter {
        device_type,
        extensions: Extensions { anisotropic_filtering: false },
        queue_families: vec![QueueFamilyInfo { queue_type: QueueType::General, max_queues: 1 }],
        raw: raw(name, hal_type(device_type)),
    }
}

fn adapters(types: &[DeviceType]) -> Vec<Adapter> {
    types.iter().enumerate().map(|(n, t)| adapter(&format!("gpu{}", n), *t)).collect()
}

fn adopted_name(types: &[DeviceType], preference: PowerPreference) -> String {
    let mut registry = Registry::new();
    let id = adopt_adapter(&mut registry, adapters(types), preference).unwrap();
    registry.get(id).unwrap().raw.info.name.clone()
}

#[test]
fn classify_puts_integrated_low_and_discrete_high() {
    assert_eq!(classify(DeviceType::IntegratedGpu), PowerClass::Low);
    assert_eq!(classify(DeviceType::DiscreteGpu), PowerClass::High);
}

#[test]
fn classify_puts_everything_else_in_other() {
    assert_eq!(classify(DeviceType::Other), PowerClass::Other);
    assert_eq!(classify(DeviceType::VirtualGpu), PowerClass::Other);
    assert_eq!(classify(DeviceType::Cpu), PowerClass::Other);
}

#[test]
fn low_power_picks_the_integrated_adapter() {
    let list = adapters(&[DeviceType::IntegratedGpu, DeviceType::DiscreteGpu]);
    assert_eq!(select_adapter(&list, PowerPreference::LowPower), Some(0));
}

#[test]
fn high_performance_picks_the_discrete_adapter() {
    let list = adapters(&[DeviceType::IntegratedGpu, DeviceType::DiscreteGpu]);
    assert_eq!(select_adapter(&list, PowerPreference::HighPerformance), Some(1));
}

#[test]
fn default_picks_the_discrete_adapter() {
    let list = adapters(&[DeviceType::IntegratedGpu, DeviceType::DiscreteGpu]);
    assert_eq!(select_adapter(&list, PowerPreference::Default), Some(1));
}

#[test]
fn order_of_enumeration_does_not_change_the_class_picked() {
    let list = adapters(&[DeviceType::DiscreteGpu, DeviceType::IntegratedGpu]);
    assert_eq!(select_adapter(&list, PowerPreference::LowPower), Some(1));
    assert_eq!(select_adapter(&list, PowerPreference::HighPerformance), Some(0));
    assert_eq!(select_adapter(&list, PowerPreference::Default), Some(0));
}

#[test]
fn a_lone_other_adapter_is_picked_by_every_preference() {
    let list = adapters(&[DeviceType::Other]);
    assert_eq!(select_adapter(&list, PowerPreference::LowPower), Some(0));
    assert_eq!(select_adapter(&list, PowerPreference::HighPerformance), Some(0));
    assert_eq!(select_adapter(&list, PowerPreference::Default), Some(0));
}

#[test]
fn low_power_never_falls_through_to_other() {
    let list = adapters(&[DeviceType::IntegratedGpu, DeviceType::DiscreteGpu, DeviceType::Other]);
    assert_eq!(select_adapter(&list, PowerPreference::LowPower), Some(0));
}

#[test]
fn high_performance_never_falls_through_to_other() {
    let list = adapters(&[DeviceType::Other, DeviceType::IntegratedGpu, DeviceType::Cpu]);
    assert_eq!(select_adapter(&list, PowerPreference::HighPerformance), Some(1));
    assert_eq!(select_adapter(&list, PowerPreference::Default), Some(1));
}

#[test]
fn low_power_falls_back_on_discrete_before_other() {
    let list = adapters(&[DeviceType::DiscreteGpu, DeviceType::VirtualGpu]);
    assert_eq!(select_adapter(&list, PowerPreference::LowPower), Some(0));
}

#[test]
fn high_performance_falls_back_on_integrated_before_other() {
    let list = adapters(&[DeviceType::Cpu, DeviceType::IntegratedGpu]);
    assert_eq!(select_adapter(&list, PowerPreference::HighPerformance), Some(1));
}

#[test]
fn the_last_adapter_of_a_class_wins() {
    let list = adapters(&[
        DeviceType::DiscreteGpu,
        DeviceType::IntegratedGpu,
        DeviceType::DiscreteGpu,
        DeviceType::IntegratedGpu,
        DeviceType::Other,
        DeviceType::Cpu,
    ]);
    assert_eq!(select_adapter(&list, PowerPreference::LowPower), Some(3));
    assert_eq!(select_adapter(&list, PowerPreference::HighPerformance), Some(2));
}

#[test]
fn the_last_of_the_other_class_wins_across_its_device_types() {
    let list = adapters(&[DeviceType::Cpu, DeviceType::Other, DeviceType::VirtualGpu]);
    assert_eq!(select_adapter(&list, PowerPreference::Default), Some(2));
}

#[test]
fn nothing_is_selected_from_no_adapters() {
    let list = adapters(&[]);
    assert_eq!(select_adapter(&list, PowerPreference::LowPower), None);
    assert_eq!(select_adapter(&list, PowerPreference::HighPerformance), None);
    assert_eq!(select_adapter(&list, PowerPreference::Default), None);
}

#[test]
fn adopting_from_no_adapters_fails() {
    let mut registry: Registry<Adapter> = Registry::new();
    assert_eq!(
        adopt_adapter(&mut registry, Vec::new(), PowerPreference::Default),
        Err(Error::NoAdapterAvailable)
    );
    assert_eq!(registry.len(), 0);
}

#[test]
fn adopting_registers_the_selected_adapter() {
    let types = [DeviceType::IntegratedGpu, DeviceType::DiscreteGpu];
    assert_eq!(adopted_name(&types, PowerPreference::LowPower), "gpu0");
    assert_eq!(adopted_name(&types, PowerPreference::HighPerformance), "gpu1");
    assert_eq!(adopted_name(&types, PowerPreference::Default), "gpu1");
}

#[test]
fn adopting_registers_exactly_one_adapter() {
    let mut registry = Registry::new();
    let types = [DeviceType::Other, DeviceType::DiscreteGpu, DeviceType::IntegratedGpu];
    let id = adopt_adapter(&mut registry, adapters(&types), PowerPreference::LowPower);
    assert_eq!(id, Ok(0));
    assert_eq!(registry.len(), 1);
    assert_eq!(registry.get(0).unwrap().device_type, DeviceType::IntegratedGpu);
}

#[test]
fn adopting_twice_gives_two_handles() {
    let mut registry = Registry::new();
    let types = [DeviceType::DiscreteGpu];
    let first = adopt_adapter(&mut registry, adapters(&types), PowerPreference::Default);
    let second = adopt_adapter(&mut registry, adapters(&types), PowerPreference::Default);
    assert_eq!(first, Ok(0));
    assert_eq!(second, Ok(1));
}

#[test]
fn describe_reads_the_device_type_of_the_backend() {
    let kinds = [
        DeviceType::Other,
        DeviceType::IntegratedGpu,
        DeviceType::DiscreteGpu,
        DeviceType::VirtualGpu,
        DeviceType::Cpu,
    ];
    for kind in kinds {
        let described = Adapter::describe(raw("gpu", hal_type(kind)));
        assert_eq!(described.device_type, kind);
    }
}

#[test]
fn describe_keeps_what_the_backend_handed_out() {
    let described = Adapter::describe(raw("Radeon", gfx_hal::adapter::DeviceType::DiscreteGpu));
    assert_eq!(described.raw.info.name, "Radeon");
    assert_eq!(described.raw.queue_families.len(), 1);
}

#[test]
fn describe_reads_each_queue_family() {
    let mut two = raw("gpu", gfx_hal::adapter::DeviceType::Other);
    two.queue_families.push(gfx_backend_empty::QueueFamily);
    let described = Adapter::describe(two);
    let general = QueueFamilyInfo { queue_type: QueueType::General, max_queues: 1 };
    assert_eq!(described.queue_families, vec![general, general]);
}

#[test]
fn describe_of_an_adapter_without_queue_families_has_none() {
    let mut none = raw("gpu", gfx_hal::adapter::DeviceType::Other);
    none.queue_families.clear();
    assert_eq!(Adapter::describe(none).queue_families, Vec::new());
}

#[test]
fn describe_reads_the_supported_extensions() {
    let described = Adapter::describe(raw("gpu", gfx_hal::adapter::DeviceType::Other));
    assert_eq!(described.extensions, Extensions { anisotropic_filtering: false });
}
