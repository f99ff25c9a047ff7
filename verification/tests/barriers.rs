use rusty_d3d12::{
    PlacedSubresourceFootprint, Resource, ResourceAliasingBarrier, ResourceBarrier,
    ResourceBarrierFlags, ResourceBarrierType, ResourceStates, ResourceTransitionBarrier,
    ResourceUavBarrier, TextureCopyLocation, TextureCopyType, ByteCount,
    RESOURCE_BARRIER_ALL_SUBRESOURCES,
};

#[test]
fn transition_barrier_round_trip() {
    let res = Resource { this: 0xdead_0000 };
    let t = ResourceTransitionBarrier::default()
        .with_resource(&res)
        .with_subresource(Some(3))
        .with_state_before(ResourceStates::copy_dest())
        .with_state_after(ResourceStates::pixel_shader_resource());
    assert_eq!(t.resource(), res);
    assert_eq!(t.subresource(), Some(3));
    assert_eq!(t.state_before(), ResourceStates::copy_dest());
    assert_eq!(t.state_after().bits(), 0x80);
    let b = ResourceBarrier::new_transition(&t);
    assert_eq!(b.barrier_type(), ResourceBarrierType::Transition);
    assert_eq!(b.flags(), ResourceBarrierFlags::empty());
    assert_eq!(b.transition(), Some(t));
    assert_eq!(b.aliasing(), None);
    assert_eq!(b.uav(), None);
}

#[test]
fn subresource_all_and_reserved_index() {
    let t = ResourceTransitionBarrier::default().with_subresource(None);
    assert_eq!(t.subresource, RESOURCE_BARRIER_ALL_SUBRESOURCES);
    assert_eq!(t.subresource(), None);
    let t = t.with_subresource(Some(u32::MAX));
    assert_eq!(t.subresource(), None);
    assert_eq!(t.with_subresource(Some(0)).subresource(), Some(0));
}

#[test]
fn aliasing_and_uav_barriers() {
    let a = ResourceAliasingBarrier::default()
        .with_resource_before(&Resource { this: 1 })
        .with_resource_after(&Resource { this: 2 });
    let b = ResourceBarrier::new_aliasing(&a);
    assert_eq!(b.aliasing(), Some(a));
    assert_eq!(b.aliasing().unwrap().resource_after(), Resource { this: 2 });
    assert_eq!(b.transition(), None);
    let u = ResourceUavBarrier::default().with_resource(&Resource { this: 9 });
    let b = ResourceBarrier::new_uav(&u).with_flags(ResourceBarrierFlags::begin_only());
    assert_eq!(b.uav(), Some(u));
    assert_eq!(b.flags().bits(), 1);
}

#[test]
fn retagged_barrier_reads_as_nothing() {
    let b = ResourceBarrier::new_uav(&ResourceUavBarrier::default()).with_barrier_type(ResourceBarrierType::Transition);
    assert_eq!(b.transition(), None);
    assert_eq!(b.uav(), None);
}

#[test]
fn texture_copy_locations() {
    let res = Resource { this: 77 };
    let l = TextureCopyLocation::new_subresource_index(&res, 5);
    assert_eq!(l.copy_type(), TextureCopyType::SubresourceIndex);
    assert_eq!(l.resource(), res);
    let fp = PlacedSubresourceFootprint::default().with_offset(ByteCount(1024));
    let l = TextureCopyLocation::new_placed_footprint(&res, fp);
    assert_eq!(l.copy_type(), TextureCopyType::PlacedFootprint);
}
