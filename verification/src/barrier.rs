//! Resource barriers, subresource indices and texture-copy locations.

use vstd::prelude::*;

use crate::enums::{ResourceBarrierFlags, ResourceBarrierType, ResourceStates, TextureCopyType};
use crate::resource::{PlacedSubresourceFootprint, Resource};

verus! {

/// What a texture copy location points at in its resource (`D3D12_TEXTURE_COPY_LOCATION`'s union).
#[derive(Clone, Copy, Debug, PartialEq, Eq)]
pub enum TextureCopySource {
    SubresourceIndex(u32),
    PlacedFootprint(PlacedSubresourceFootprint),
}

/// A texture region in a resource: a subresource by index, or a footprint placed in a buffer
/// (`D3D12_TEXTURE_COPY_LOCATION`).
#[derive(Clone, Copy, Debug, PartialEq, Eq)]
pub struct TextureCopyLocation {
    pub resource: Resource,
    pub location: TextureCopySource,
}

impl TextureCopyLocation {
    /// The location of `footprint` inside the buffer `resource`.
    pub fn new_placed_footprint(resource: &Resource, footprint: PlacedSubresourceFootprint) -> (r: Self)
        ensures
            r == (TextureCopyLocation {
                resource: *resource,
                location: TextureCopySource::PlacedFootprint(footprint),
            }),
    {
        TextureCopyLocation { resource: *resource, location: TextureCopySource::PlacedFootprint(footprint) }
    }

    /// The location of subresource `index` of `resource`.
    pub fn new_subresource_index(resource: &Resource, index: u32) -> (r: Self)
        ensures
            r == (TextureCopyLocation { resource: *resource, location: TextureCopySource::SubresourceIndex(index) }),
    {
        TextureCopyLocation { resource: *resource, location: TextureCopySource::SubresourceIndex(index) }
    }

    /// The resource the location lies in.
    pub fn resource(&self) -> (r: Resource)
        ensures
            r == self.resource,
    {
        self.resource
    }

    /// How the location addresses its data: by subresource index or by placed footprint.
    pub fn copy_type(&self) -> (r: TextureCopyType)
        ensures
            r == (match self.location {
                TextureCopySource::SubresourceIndex(_) => TextureCopyType::SubresourceIndex,
                TextureCopySource::PlacedFootprint(_) => TextureCopyType::PlacedFootprint,
            }),
    {
        match self.location {
            TextureCopySource::SubresourceIndex(_) => TextureCopyType::SubresourceIndex,
            TextureCopySource::PlacedFootprint(_) => TextureCopyType::PlacedFootprint,
        }
    }
}

/// `Subresource` value that designates every subresource of a resource
/// (`D3D12_RESOURCE_BARRIER_ALL_SUBRESOURCES`).
pub const RESOURCE_BARRIER_ALL_SUBRESOURCES: u32 = 0xffff_ffff;

/// How a choice of subresource is stored: the index, or the all-subresources value.
pub open spec fn encode_subresource(subresource: Option<u32>) -> u32 {
    match subresource {
        Some(index) => index,
        None => RESOURCE_BARRIER_ALL_SUBRESOURCES,
    }
}

/// How a stored subresource value reads back.
pub open spec fn decode_subresource(raw: u32) -> Option<u32> {
    if raw == RESOURCE_BARRIER_ALL_SUBRESOURCES {
        None
    } else {
        Some(raw)
    }
}

/// A transition barrier's subresource reads back as it was set, unless an index equal to the
/// all-subresources value was set, which reads back as `None`.
pub proof fn lemma_subresource_round_trip(subresource: Option<u32>)
    requires
        subresource != Some(RESOURCE_BARRIER_ALL_SUBRESOURCES),
    ensures
        decode_subresource(encode_subresource(subresource)) == subresource,
{
}

/// A chosen index is stored as itself and "all subresources" as `0xffff_ffff`; a stored value
/// reads back as itself, except `0xffff_ffff`, which reads back as "all subresources".
pub proof fn lemma_subresource_encoding(index: u32)
    ensures
        RESOURCE_BARRIER_ALL_SUBRESOURCES == 0xffff_ffffu32,
        encode_subresource(Some(index)) == index,
        encode_subresource(None) == 0xffff_ffffu32,
        index != 0xffff_ffffu32 ==> decode_subresource(index) == Some(index),
        decode_subresource(0xffff_ffffu32) is None,
{
}

/// A transition of a resource between usage states (`D3D12_RESOURCE_TRANSITION_BARRIER`).
#[derive(Clone, Copy, Debug, PartialEq, Eq)]
pub struct ResourceTransitionBarrier {
    pub resource: Resource,
    pub subresource: u32,
    pub state_before: ResourceStates,
    pub state_after: ResourceStates,
}

impl Default for ResourceTransitionBarrier {
    /// A transition of no resource, of subresource zero, between the common states.
    fn default() -> (r: Self)
        ensures
            r == (ResourceTransitionBarrier {
                resource: (Resource { this: 0 }),
                subresource: 0,
                state_before: (ResourceStates { bits: 0 }),
                state_after: (ResourceStates { bits: 0 }),
            }),
    {
        ResourceTransitionBarrier {
            resource: (Resource { this: 0 }),
            subresource: 0,
            state_before: ResourceStates::empty(),
            state_after: ResourceStates::empty(),
        }
    }
}

impl ResourceTransitionBarrier {
    /// Replaces the resource.
    pub fn with_resource(self, resource: &Resource) -> (r: Self)
        ensures
            r == (ResourceTransitionBarrier { resource: *resource, ..self }),
    {
        ResourceTransitionBarrier { resource: *resource, ..self }
    }

    /// As [`Self::with_resource`], on the value in place.
    pub fn set_resource(&mut self, resource: &Resource) -> (r: &mut Self)
        ensures
            (*r) == (ResourceTransitionBarrier { resource: *resource, ..(*old(self)) }),
            *final(self) == *final(r),
    {
        let v = (*self).with_resource(resource);
        *self = v;
        self
    }

    /// The resource.
    pub fn resource(&self) -> (r: Resource)
        ensures
            r == self.resource,
    {
        self.resource
    }

    /// Replaces the state before.
    pub fn with_state_before(self, state_before: ResourceStates) -> (r: Self)
        ensures
            r == (ResourceTransitionBarrier { state_before: state_before, ..self }),
    {
        ResourceTransitionBarrier { state_before: state_before, ..self }
    }

    /// As [`Self::with_state_before`], on the value in place.
    pub fn set_state_before(&mut self, state_before: ResourceStates) -> (r: &mut Self)
        ensures
            (*r) == (ResourceTransitionBarrier { state_before: state_before, ..(*old(self)) }),
            *final(self) == *final(r),
    {
        let v = (*self).with_state_before(state_before);
        *self = v;
        self
    }

    /// The state before.
    pub fn state_before(&self) -> (r: ResourceStates)
        ensures
            r == self.state_before,
    {
        self.state_before
    }

    /// Replaces the state after.
    pub fn with_state_after(self, state_after: ResourceStates) -> (r: Self)
        ensures
            r == (ResourceTransitionBarrier { state_after: state_after, ..self }),
    {
        ResourceTransitionBarrier { state_after: state_after, ..self }
    }

    /// As [`Self::with_state_after`], on the value in place.
    pub fn set_state_after(&mut self, state_after: ResourceStates) -> (r: &mut Self)
        ensures
            (*r) == (ResourceTransitionBarrier { state_after: state_after, ..(*old(self)) }),
            *final(self) == *final(r),
    {
        let v = (*self).with_state_after(state_after);
        *self = v;
        self
    }

    /// The state after.
    pub fn state_after(&self) -> (r: ResourceStates)
        ensures
            r == self.state_after,
    {
        self.state_after
    }

    /// Selects the subresource to transition; `None` selects all of them.
    pub fn with_subresource(self, subresource: Option<u32>) -> (r: Self)
        ensures
            r == (ResourceTransitionBarrier { subresource: encode_subresource(subresource), ..self }),
            subresource matches Some(index) ==> r.subresource == index,
            subresource is None ==> r.subresource == 0xffff_ffffu32,
            r.resource == self.resource && r.state_before == self.state_before && r.state_after == self.state_after,
    {
        match subresource {
            Some(index) => ResourceTransitionBarrier { subresource: index, ..self },
            None => ResourceTransitionBarrier { subresource: RESOURCE_BARRIER_ALL_SUBRESOURCES, ..self },
        }
    }

    /// As [`Self::with_subresource`], on the value in place.
    pub fn set_subresource(&mut self, subresource: Option<u32>) -> (r: &mut Self)
        ensures
            (*r) == (ResourceTransitionBarrier { subresource: encode_subresource(subresource), ..(*old(self)) }),
            subresource matches Some(index) ==> (*r).subresource == index,
            subresource is None ==> (*r).subresource == 0xffff_ffffu32,
            (*r).resource == (*old(self)).resource && (*r).state_before == (*old(self)).state_before && (*r).state_after == (*old(self)).state_after,
            *final(self) == *final(r),
    {
        let v = (*self).with_subresource(subresource);
        *self = v;
        self
    }

    /// The transitioned subresource; `None` when all of them are.
    pub fn subresource(&self) -> (r: Option<u32>)
        ensures
            r == decode_subresource(self.subresource),
            self.subresource == 0xffff_ffffu32 ==> r is None,
            self.subresource != 0xffff_ffffu32 ==> r == Some(self.subresource),
    {
        if self.subresource == RESOURCE_BARRIER_ALL_SUBRESOURCES {
            None
        } else {
            Some(self.subresource)
        }
    }
}

/// A change of which resource uses an aliased memory range (`D3D12_RESOURCE_ALIASING_BARRIER`).
#[derive(Clone, Copy, Debug, PartialEq, Eq)]
pub struct ResourceAliasingBarrier {
    pub resource_before: Resource,
    pub resource_after: Resource,
}

impl Default for ResourceAliasingBarrier {
    /// An aliasing barrier between no resources.
    fn default() -> (r: Self)
        ensures
            r == (ResourceAliasingBarrier {
                resource_before: (Resource { this: 0 }),
                resource_after: (Resource { this: 0 }),
            }),
    {
        ResourceAliasingBarrier {
            resource_before: (Resource { this: 0 }),
            resource_after: (Resource { this: 0 }),
        }
    }
}

impl ResourceAliasingBarrier {
    /// Replaces the resource before.
    pub fn with_resource_before(self, resource_before: &Resource) -> (r: Self)
        ensures
            r == (ResourceAliasingBarrier { resource_before: *resource_before, ..self }),
    {
        ResourceAliasingBarrier { resource_before: *resource_before, ..self }
    }

    /// As [`Self::with_resource_before`], on the value in place.
    pub fn set_resource_before(&mut self, resource_before: &Resource) -> (r: &mut Self)
        ensures
            (*r) == (ResourceAliasingBarrier { resource_before: *resource_before, ..(*old(self)) }),
            *final(self) == *final(r),
    {
        let v = (*self).with_resource_before(resource_before);
        *self = v;
        self
    }

    /// The resource before.
    pub fn resource_before(&self) -> (r: Resource)
        ensures
            r == self.resource_before,
    {
        self.resource_before
    }

    /// Replaces the resource after.
    pub fn with_resource_after(self, resource_after: &Resource) -> (r: Self)
        ensures
            r == (ResourceAliasingBarrier { resource_after: *resource_after, ..self }),
    {
        ResourceAliasingBarrier { resource_after: *resource_after, ..self }
    }

    /// As [`Self::with_resource_after`], on the value in place.
    pub fn set_resource_after(&mut self, resource_after: &Resource) -> (r: &mut Self)
        ensures
            (*r) == (ResourceAliasingBarrier { resource_after: *resource_after, ..(*old(self)) }),
            *final(self) == *final(r),
    {
        let v = (*self).with_resource_after(resource_after);
        *self = v;
        self
    }

    /// The resource after.
    pub fn resource_after(&self) -> (r: Resource)
        ensures
            r == self.resource_after,
    {
        self.resource_after
    }
}

/// A wait for unordered access writes to a resource (`D3D12_RESOURCE_UAV_BARRIER`).
#[derive(Clone, Copy, Debug, PartialEq, Eq)]
pub struct ResourceUavBarrier {
    pub resource: Resource,
}

impl Default for ResourceUavBarrier {
    /// An unordered access barrier on no particular resource.
    fn default() -> (r: Self)
        ensures
            r == (ResourceUavBarrier {
                resource: (Resource { this: 0 }),
            }),
    {
        ResourceUavBarrier {
            resource: (Resource { this: 0 }),
        }
    }
}

impl ResourceUavBarrier {
    /// Replaces the resource.
    pub fn with_resource(self, resource: &Resource) -> (r: Self)
        ensures
            r == (ResourceUavBarrier { resource: *resource, ..self }),
    {
        ResourceUavBarrier { resource: *resource, ..self }
    }

    /// As [`Self::with_resource`], on the value in place.
    pub fn set_resource(&mut self, resource: &Resource) -> (r: &mut Self)
        ensures
            (*r) == (ResourceUavBarrier { resource: *resource, ..(*old(self)) }),
            *final(self) == *final(r),
    {
        let v = (*self).with_resource(resource);
        *self = v;
        self
    }

    /// The resource.
    pub fn resource(&self) -> (r: Resource)
        ensures
            r == self.resource,
    {
        self.resource
    }
}

/// The barrier-specific part of a resource barrier (`D3D12_RESOURCE_BARRIER`'s union).
#[derive(Clone, Copy, Debug, PartialEq, Eq)]
pub enum ResourceBarrierPayload {
    Transition(ResourceTransitionBarrier),
    Aliasing(ResourceAliasingBarrier),
    Uav(ResourceUavBarrier),
}

/// A resource barrier (`D3D12_RESOURCE_BARRIER`): its kind tag, its flags and its payload.
#[derive(Clone, Copy, Debug, PartialEq, Eq)]
pub struct ResourceBarrier {
    pub barrier_type: ResourceBarrierType,
    pub flags: ResourceBarrierFlags,
    pub payload: ResourceBarrierPayload,
}

/// A barrier of `kind` with no flags and payload `payload`.
pub open spec fn unflagged_barrier(kind: ResourceBarrierType, payload: ResourceBarrierPayload) -> ResourceBarrier {
    ResourceBarrier { barrier_type: kind, flags: ResourceBarrierFlags { bits: 0 }, payload }
}

/// The transition a barrier holds, when tagged and filled as one.
pub open spec fn transition_of(b: ResourceBarrier) -> Option<ResourceTransitionBarrier> {
    match (b.barrier_type, b.payload) {
        (ResourceBarrierType::Transition, ResourceBarrierPayload::Transition(t)) => Some(t),
        _ => None,
    }
}

/// The aliasing barrier a barrier holds, when tagged and filled as one.
pub open spec fn aliasing_of(b: ResourceBarrier) -> Option<ResourceAliasingBarrier> {
    match (b.barrier_type, b.payload) {
        (ResourceBarrierType::Aliasing, ResourceBarrierPayload::Aliasing(a)) => Some(a),
        _ => None,
    }
}

/// The unordered access barrier a barrier holds, when tagged and filled as one.
pub open spec fn uav_of(b: ResourceBarrier) -> Option<ResourceUavBarrier> {
    match (b.barrier_type, b.payload) {
        (ResourceBarrierType::Uav, ResourceBarrierPayload::Uav(u)) => Some(u),
        _ => None,
    }
}

/// A barrier built as one kind reads back as that kind, with the description it was built
/// from, and as none of the other kinds.
pub proof fn lemma_barrier_kinds(t: ResourceTransitionBarrier, a: ResourceAliasingBarrier, u: ResourceUavBarrier)
    ensures
        transition_of(unflagged_barrier(ResourceBarrierType::Transition, ResourceBarrierPayload::Transition(t))) == Some(t),
        aliasing_of(unflagged_barrier(ResourceBarrierType::Transition, ResourceBarrierPayload::Transition(t))) is None,
        uav_of(unflagged_barrier(ResourceBarrierType::Transition, ResourceBarrierPayload::Transition(t))) is None,
        aliasing_of(unflagged_barrier(ResourceBarrierType::Aliasing, ResourceBarrierPayload::Aliasing(a))) == Some(a),
        transition_of(unflagged_barrier(ResourceBarrierType::Aliasing, ResourceBarrierPayload::Aliasing(a))) is None,
        uav_of(unflagged_barrier(ResourceBarrierType::Aliasing, ResourceBarrierPayload::Aliasing(a))) is None,
        uav_of(unflagged_barrier(ResourceBarrierType::Uav, ResourceBarrierPayload::Uav(u))) == Some(u),
        transition_of(unflagged_barrier(ResourceBarrierType::Uav, ResourceBarrierPayload::Uav(u))) is None,
        aliasing_of(unflagged_barrier(ResourceBarrierType::Uav, ResourceBarrierPayload::Uav(u))) is None,
{
}

impl ResourceBarrier {
    /// Replaces the kind tag; the payload is left as it is.
    pub fn with_barrier_type(self, barrier_type: ResourceBarrierType) -> (r: Self)
        ensures
            r == (ResourceBarrier { barrier_type: barrier_type, ..self }),
    {
        ResourceBarrier { barrier_type: barrier_type, ..self }
    }

    /// As [`Self::with_barrier_type`], on the value in place.
    pub fn set_barrier_type(&mut self, barrier_type: ResourceBarrierType) -> (r: &mut Self)
        ensures
            (*r) == (ResourceBarrier { barrier_type: barrier_type, ..(*old(self)) }),
            *final(self) == *final(r),
    {
        let v = (*self).with_barrier_type(barrier_type);
        *self = v;
        self
    }

    /// The kind tag.
    pub fn barrier_type(&self) -> (r: ResourceBarrierType)
        ensures
            r == self.barrier_type,
    {
        self.barrier_type
    }

    /// Replaces the flags.
    pub fn with_flags(self, flags: ResourceBarrierFlags) -> (r: Self)
        ensures
            r == (ResourceBarrier { flags: flags, ..self }),
    {
        ResourceBarrier { flags: flags, ..self }
    }

    /// As [`Self::with_flags`], on the value in place.
    pub fn set_flags(&mut self, flags: ResourceBarrierFlags) -> (r: &mut Self)
        ensures
            (*r) == (ResourceBarrier { flags: flags, ..(*old(self)) }),
            *final(self) == *final(r),
    {
        let v = (*self).with_flags(flags);
        *self = v;
        self
    }

    /// The flags.
    pub fn flags(&self) -> (r: ResourceBarrierFlags)
        ensures
            r == self.flags,
    {
        self.flags
    }

    /// A transition barrier with no flags.
    pub fn new_transition(desc: &ResourceTransitionBarrier) -> (r: Self)
        ensures
            r == unflagged_barrier(ResourceBarrierType::Transition, ResourceBarrierPayload::Transition(*desc)),
    {
        ResourceBarrier {
            barrier_type: ResourceBarrierType::Transition,
            flags: ResourceBarrierFlags::empty(),
            payload: ResourceBarrierPayload::Transition(*desc),
        }
    }

    /// The transition, when the barrier is tagged and filled as one.
    pub fn transition(&self) -> (r: Option<ResourceTransitionBarrier>)
        ensures
            r == transition_of(*self),
    {
        match (self.barrier_type, self.payload) {
            (ResourceBarrierType::Transition, ResourceBarrierPayload::Transition(t)) => Some(t),
            _ => None,
        }
    }

    /// An aliasing barrier with no flags.
    pub fn new_aliasing(desc: &ResourceAliasingBarrier) -> (r: Self)
        ensures
            r == unflagged_barrier(ResourceBarrierType::Aliasing, ResourceBarrierPayload::Aliasing(*desc)),
    {
        ResourceBarrier {
            barrier_type: ResourceBarrierType::Aliasing,
            flags: ResourceBarrierFlags::empty(),
            payload: ResourceBarrierPayload::Aliasing(*desc),
        }
    }

    /// The aliasing barrier, when the barrier is tagged and filled as one.
    pub fn aliasing(&self) -> (r: Option<ResourceAliasingBarrier>)
        ensures
            r == aliasing_of(*self),
    {
        match (self.barrier_type, self.payload) {
            (ResourceBarrierType::Aliasing, ResourceBarrierPayload::Aliasing(a)) => Some(a),
            _ => None,
        }
    }

    /// An unordered access barrier with no flags.
    pub fn new_uav(desc: &ResourceUavBarrier) -> (r: Self)
        ensures
            r == unflagged_barrier(ResourceBarrierType::Uav, ResourceBarrierPayload::Uav(*desc)),
    {
        ResourceBarrier {
            barrier_type: ResourceBarrierType::Uav,
            flags: ResourceBarrierFlags::empty(),
            payload: ResourceBarrierPayload::Uav(*desc),
        }
    }

    /// The unordered access barrier, when the barrier is tagged and filled as one.
    pub fn uav(&self) -> (r: Option<ResourceUavBarrier>)
        ensures
            r == uav_of(*self),
    {
        match (self.barrier_type, self.payload) {
            (ResourceBarrierType::Uav, ResourceBarrierPayload::Uav(u)) => Some(u),
            _ => None,
        }
    }
}

} // verus!
