//! CPU and GPU descriptor handles and their arithmetic.

use vstd::prelude::*;

verus! {

/// Number of render targets a pipeline can write at once (`D3D12_SIMULTANEOUS_RENDER_TARGET_COUNT`).
pub const SIMULTANEOUS_RENDER_TARGET_COUNT: usize = 8;

/// A CPU-visible descriptor handle (`D3D12_CPU_DESCRIPTOR_HANDLE::ptr`) together with the
/// descriptor size of the heap it belongs to.
#[derive(Clone, Copy, Debug, PartialEq, Eq)]
pub struct CpuDescriptorHandle {
    pub hw_handle: u64,
    pub handle_size: u32,
}

/// A GPU-visible descriptor handle (`D3D12_GPU_DESCRIPTOR_HANDLE::ptr`) together with the
/// descriptor size of the heap it belongs to.
#[derive(Clone, Copy, Debug, PartialEq, Eq)]
pub struct GpuDescriptorHandle {
    pub hw_handle: u64,
    pub handle_size: u32,
}

impl CpuDescriptorHandle {
    /// The handle `distance` descriptors further into the heap.
    pub open spec fn offset_by(self, distance: int) -> Self {
        CpuDescriptorHandle {
            hw_handle: (self.hw_handle + distance * self.handle_size) as u64,
            handle_size: self.handle_size,
        }
    }

    /// The handle `distance` descriptors further into the heap; the byte distance must fit in
    /// 32 bits and the new handle in 64.
    pub fn advance(self, distance: u32) -> (r: Self)
        requires
            distance * self.handle_size <= u32::MAX,
            self.hw_handle + distance * self.handle_size <= u64::MAX,
        ensures
            r == self.offset_by(distance as int),
            r.hw_handle == self.hw_handle + distance * self.handle_size,
    {
        CpuDescriptorHandle {
            hw_handle: self.hw_handle + (distance * self.handle_size) as u64,
            handle_size: self.handle_size,
        }
    }
}

impl GpuDescriptorHandle {
    /// The handle `distance` descriptors further into the heap.
    pub open spec fn offset_by(self, distance: int) -> Self {
        GpuDescriptorHandle {
            hw_handle: (self.hw_handle + distance * self.handle_size) as u64,
            handle_size: self.handle_size,
        }
    }

    /// The handle `distance` descriptors further into the heap; the byte distance must fit in
    /// 32 bits and the new handle in 64.
    pub fn advance(self, distance: u32) -> (r: Self)
        requires
            distance * self.handle_size <= u32::MAX,
            self.hw_handle + distance * self.handle_size <= u64::MAX,
        ensures
            r == self.offset_by(distance as int),
            r.hw_handle == self.hw_handle + distance * self.handle_size,
    {
        GpuDescriptorHandle {
            hw_handle: self.hw_handle + (distance * self.handle_size) as u64,
            handle_size: self.handle_size,
        }
    }
}

/// Advancing a CPU handle by `a` and then by `b` descriptors lands where advancing it by
/// `a + b` does.
pub proof fn lemma_cpu_advance_adds(h: CpuDescriptorHandle, a: nat, b: nat)
    requires
        h.hw_handle + (a + b) * h.handle_size <= u64::MAX,
    ensures
        h.offset_by(a as int).offset_by(b as int) == h.offset_by((a + b) as int),
{
    assert((a + b) * h.handle_size == a * h.handle_size + b * h.handle_size) by (nonlinear_arith);
    assert(0 <= a * h.handle_size && 0 <= b * h.handle_size) by (nonlinear_arith);
}

/// Advancing a GPU handle by `a` and then by `b` descriptors lands where advancing it by
/// `a + b` does.
pub proof fn lemma_gpu_advance_adds(h: GpuDescriptorHandle, a: nat, b: nat)
    requires
        h.hw_handle + (a + b) * h.handle_size <= u64::MAX,
    ensures
        h.offset_by(a as int).offset_by(b as int) == h.offset_by((a + b) as int),
{
    assert((a + b) * h.handle_size == a * h.handle_size + b * h.handle_size) by (nonlinear_arith);
    assert(0 <= a * h.handle_size && 0 <= b * h.handle_size) by (nonlinear_arith);
}

/// The raw render target handles that `OMSetRenderTargets` receives: the handles of
/// `descriptors` in order, then zeros up to [`SIMULTANEOUS_RENDER_TARGET_COUNT`].
pub fn render_target_handles(descriptors: &[CpuDescriptorHandle]) -> (r: [u64; 8])
    requires
        descriptors@.len() <= SIMULTANEOUS_RENDER_TARGET_COUNT,
    ensures
        forall|i: int| 0 <= i < descriptors@.len() ==> r@[i] == descriptors@[i].hw_handle,
        forall|i: int| descriptors@.len() <= i < 8 ==> r@[i] == 0,
{
    let mut hw_descriptors = [0u64; 8];
    let mut i: usize = 0;
    while i < descriptors.len()
        invariant
            descriptors@.len() <= 8,
            i <= descriptors@.len(),
            forall|j: int| 0 <= j < i ==> hw_descriptors@[j] == descriptors@[j].hw_handle,
            forall|j: int| i <= j < 8 ==> hw_descriptors@[j] == 0,
        decreases descriptors@.len() - i,
    {
        hw_descriptors[i] = descriptors[i].hw_handle;
        i = i + 1;
    }
    hw_descriptors
}

} // verus!
