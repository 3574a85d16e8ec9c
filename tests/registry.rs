use particle_sim::buffer::{BufferWrapper, ResourceKind};
use particle_sim::registry::Resources;

#[test]
fn lookup_on_empty_registry_misses() {
    let resources = Resources::new();
    assert_eq!(resources.get(ResourceKind::Particle, "x"), None);
}

#[test]
fn published_value_is_found_under_its_kind_and_name() {
    let mut resources = Resources::new();
    resources.insert(ResourceKind::Particle, "x", BufferWrapper::new(7, 1000));
    assert_eq!(resources.get(ResourceKind::Particle, "x"), Some(&BufferWrapper::new(7, 1000)));
    assert_eq!(resources.get(ResourceKind::Particle, "y"), None);
}

#[test]
fn lookup_with_other_kind_misses() {
    let mut resources = Resources::new();
    resources.insert(ResourceKind::Particle, "x", BufferWrapper::new(1, 10));
    assert_eq!(resources.get(ResourceKind::Vertex, "x"), None);
    assert_eq!(resources.get(ResourceKind::Params, "x"), None);
}

#[test]
fn same_name_with_two_kinds_holds_two_values() {
    let mut resources = Resources::new();
    resources.insert(ResourceKind::Particle, "x", BufferWrapper::new(1, 10));
    resources.insert(ResourceKind::Vertex, "x", BufferWrapper::new(2, 3));
    assert_eq!(resources.get(ResourceKind::Particle, "x"), Some(&BufferWrapper::new(1, 10)));
    assert_eq!(resources.get(ResourceKind::Vertex, "x"), Some(&BufferWrapper::new(2, 3)));
}

#[test]
fn second_publish_overwrites_first() {
    let mut resources = Resources::new();
    resources.insert(ResourceKind::Particle, "x", BufferWrapper::new(1, 10));
    resources.insert(ResourceKind::Particle, "x", BufferWrapper::new(2, 20));
    assert_eq!(resources.get(ResourceKind::Particle, "x"), Some(&BufferWrapper::new(2, 20)));
}

#[test]
fn overwrite_leaves_other_names_alone() {
    let mut resources = Resources::new();
    resources.insert(ResourceKind::Particle, "a", BufferWrapper::new(1, 10));
    resources.insert(ResourceKind::Particle, "b", BufferWrapper::new(2, 20));
    resources.insert(ResourceKind::Particle, "a", BufferWrapper::new(3, 30));
    assert_eq!(resources.get(ResourceKind::Particle, "a"), Some(&BufferWrapper::new(3, 30)));
    assert_eq!(resources.get(ResourceKind::Particle, "b"), Some(&BufferWrapper::new(2, 20)));
}
