use wgpu_native::error::Error;
use wgpu_native::registry::Registry;

#[test]
fn new_registry_is_empty() {
    let registry: Registry<u32> = Registry::new();
    assert_eq!(registry.len(), 0);
    assert!(!registry.contains(0));
}

#[test]
fn register_returns_fresh_handles_in_order() {
    let mut registry = Registry::new();
    assert_eq!(registry.register("a"), 0);
    assert_eq!(registry.register("b"), 1);
    assert_eq!(registry.register("c"), 2);
    assert_eq!(registry.len(), 3);
}

#[test]
fn registered_handles_are_pairwise_distinct() {
    let mut registry = Registry::new();
    let mut ids = Vec::new();
    for n in 0..64u32 {
        ids.push(registry.register(n));
    }
    for i in 0..ids.len() {
        for j in (i + 1)..ids.len() {
            assert_ne!(ids[i], ids[j]);
        }
    }
}

#[test]
fn equal_objects_get_different_handles() {
    let mut registry = Registry::new();
    let first = registry.register(7u8);
    let second = registry.register(7u8);
    assert_ne!(first, second);
    assert_eq!(registry.get(first), Ok(&7));
    assert_eq!(registry.get(second), Ok(&7));
}

#[test]
fn get_finds_what_was_registered() {
    let mut registry = Registry::new();
    let id = registry.register(String::from("adapter"));
    assert_eq!(registry.get(id), Ok(&String::from("adapter")));
}

#[test]
fn earlier_objects_stay_under_their_handles() {
    let mut registry = Registry::new();
    let first = registry.register(10u64);
    let second = registry.register(20u64);
    let third = registry.register(30u64);
    assert_eq!(registry.get(first), Ok(&10));
    assert_eq!(registry.get(second), Ok(&20));
    assert_eq!(registry.get(third), Ok(&30));
}

#[test]
fn get_on_empty_registry_is_not_found() {
    let registry: Registry<u32> = Registry::new();
    assert_eq!(registry.get(0), Err(Error::HandleNotFound));
}

#[test]
fn get_on_unissued_handle_is_not_found() {
    let mut registry = Registry::new();
    registry.register(1u32);
    registry.register(2u32);
    assert_eq!(registry.get(2), Err(Error::HandleNotFound));
    assert_eq!(registry.get(usize::MAX), Err(Error::HandleNotFound));
}

#[test]
fn get_mut_on_unissued_handle_is_not_found() {
    let mut registry = Registry::new();
    registry.register(1u32);
    assert_eq!(registry.get_mut(1), Err(Error::HandleNotFound));
    assert_eq!(registry.get_mut(usize::MAX), Err(Error::HandleNotFound));
    assert_eq!(registry.len(), 1);
    assert_eq!(registry.get(0), Ok(&1));
}

#[test]
fn get_mut_finds_what_was_registered() {
    let mut registry = Registry::new();
    let id = registry.register(5i32);
    assert_eq!(registry.get_mut(id), Ok(&mut 5));
}

#[test]
fn get_mut_changes_that_object_alone() {
    let mut registry = Registry::new();
    let first = registry.register(1u32);
    let second = registry.register(2u32);
    let third = registry.register(3u32);
    *registry.get_mut(second).unwrap() = 20;
    assert_eq!(registry.get(first), Ok(&1));
    assert_eq!(registry.get(second), Ok(&20));
    assert_eq!(registry.get(third), Ok(&3));
    assert_eq!(registry.len(), 3);
}

#[test]
fn contains_tells_issued_from_unissued() {
    let mut registry = Registry::new();
    let id = registry.register('x');
    assert!(registry.contains(id));
    assert!(!registry.contains(id + 1));
}

#[test]
fn many_registrations_lose_nothing() {
    let batches = 8usize;
    let per_batch = 25usize;
    let mut registry = Registry::new();
    let mut issued = Vec::new();
    for batch in 0..batches {
        for item in 0..per_batch {
            let object = batch * 1000 + item;
            issued.push((registry.register(object), object));
        }
    }
    assert_eq!(registry.len(), batches * per_batch);
    let mut seen = vec![false; batches * per_batch];
    for (id, object) in issued {
        assert_eq!(registry.get(id), Ok(&object));
        assert!(!seen[id]);
        seen[id] = true;
    }
    assert!(seen.iter().all(|s| *s));
}

#[test]
fn registries_issue_handles_independently() {
    let mut adapters: Registry<&str> = Registry::new();
    let mut devices: Registry<&str> = Registry::new();
    let adapter = adapters.register("adapter");
    let device = devices.register("device");
    assert_eq!(adapter, device);
    assert_eq!(adapters.get(adapter), Ok(&"adapter"));
    assert_eq!(devices.get(device), Ok(&"device"));
}
