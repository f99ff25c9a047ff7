use rusty_d3d12::{DsvFlags, HeapFlags, ResourceFlags, ResourceStates};

#[test]
fn flag_union_and_contains() {
    let rt = ResourceFlags::allow_render_target();
    let uav = ResourceFlags::allow_unordered_access();
    let both = rt.union(uav);
    assert_eq!(both, uav.union(rt));
    assert!(both.contains(rt));
    assert!(both.contains(uav));
    assert!(both.contains(ResourceFlags::empty()));
    assert!(!rt.contains(both));
    assert_eq!(both.union(rt), both);
}

#[test]
fn flag_values() {
    assert_eq!(ResourceStates::generic_read().bits(), 0xac3);
    assert!(ResourceStates::generic_read().contains(ResourceStates::copy_source()));
    assert_eq!(HeapFlags::shared_cross_adapter().bits(), 0x20);
    assert_eq!(DsvFlags::from_bits_retain(3), DsvFlags::read_only_depth().union(DsvFlags::read_only_stencil()));
}
