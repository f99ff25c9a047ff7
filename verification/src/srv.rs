//! Shader-resource views and the shader component mapping.

use vstd::prelude::*;
use vstd::std_specs::convert::FromSpecImpl;

use crate::enums::{BufferSrvFlags, Format, SrvDimension};
use crate::resource::GpuVirtualAddress;
use crate::utils::ByteCount;

verus! {

/// Where a shader reads one component of a view from (`D3D12_SHADER_COMPONENT_MAPPING`).
#[derive(Clone, Copy, Debug, PartialEq, Eq, Structural)]
pub enum ShaderComponentSource {
    FromMemoryComponent0,
    FromMemoryComponent1,
    FromMemoryComponent2,
    FromMemoryComponent3,
    ForceValue0,
    ForceValue1,
}

/// The three-bit code of a component source.
pub open spec fn component_source_code(s: ShaderComponentSource) -> u32 {
    match s {
        ShaderComponentSource::FromMemoryComponent0 => 0,
        ShaderComponentSource::FromMemoryComponent1 => 1,
        ShaderComponentSource::FromMemoryComponent2 => 2,
        ShaderComponentSource::FromMemoryComponent3 => 3,
        ShaderComponentSource::ForceValue0 => 4,
        ShaderComponentSource::ForceValue1 => 5,
    }
}

impl ShaderComponentSource {
    /// The three-bit code of the source.
    pub fn code(self) -> (r: u32)
        ensures
            r == component_source_code(self),
    {
        match self {
            ShaderComponentSource::FromMemoryComponent0 => 0,
            ShaderComponentSource::FromMemoryComponent1 => 1,
            ShaderComponentSource::FromMemoryComponent2 => 2,
            ShaderComponentSource::FromMemoryComponent3 => 3,
            ShaderComponentSource::ForceValue0 => 4,
            ShaderComponentSource::ForceValue1 => 5,
        }
    }
}

/// The sources of the four components a shader reads from a view, encoded as
/// `D3D12_ENCODE_SHADER_4_COMPONENT_MAPPING` does: three bits per component from the lowest,
/// and bit 12 always set.
#[derive(Clone, Copy, Debug, PartialEq, Eq, Structural)]
pub struct ShaderComponentMapping(pub u32);

/// `D3D12_ENCODE_SHADER_4_COMPONENT_MAPPING(c0, c1, c2, c3)`.
pub open spec fn encode_component_mapping(c0: u32, c1: u32, c2: u32, c3: u32) -> u32 {
    (c0 & 7) | ((c1 & 7) << 3u32) | ((c2 & 7) << 6u32) | ((c3 & 7) << 9u32) | (1u32 << 12u32)
}

impl ShaderComponentMapping {
    /// Component `i` of the view read from `c_i`.
    pub fn new(
        c0: ShaderComponentSource,
        c1: ShaderComponentSource,
        c2: ShaderComponentSource,
        c3: ShaderComponentSource,
    ) -> (r: Self)
        ensures
            r.0 == encode_component_mapping(
                component_source_code(c0),
                component_source_code(c1),
                component_source_code(c2),
                component_source_code(c3),
            ),
    {
        let (a, b, c, d) = (c0.code(), c1.code(), c2.code(), c3.code());
        ShaderComponentMapping((a & 7) | ((b & 7) << 3u32) | ((c & 7) << 6u32) | ((d & 7) << 9u32) | (1u32 << 12u32))
    }

    /// The three-bit source code of component `component` (`D3D12_DECODE_SHADER_4_COMPONENT_MAPPING`).
    pub fn component(&self, component: u32) -> (r: u32)
        requires
            component < 4,
        ensures
            r == (self.0 >> (3 * component) as u32) & 7,
    {
        (self.0 >> (3 * component)) & 7
    }
}

/// Decoding component `i` of an encoded mapping gives back the code it was built from.
pub proof fn lemma_component_mapping_round_trip(c0: u32, c1: u32, c2: u32, c3: u32)
    requires
        c0 < 8 && c1 < 8 && c2 < 8 && c3 < 8,
    ensures
        (encode_component_mapping(c0, c1, c2, c3) >> 0u32) & 7 == c0,
        (encode_component_mapping(c0, c1, c2, c3) >> 3u32) & 7 == c1,
        (encode_component_mapping(c0, c1, c2, c3) >> 6u32) & 7 == c2,
        (encode_component_mapping(c0, c1, c2, c3) >> 9u32) & 7 == c3,
{
    let m = encode_component_mapping(c0, c1, c2, c3);
    assert((m >> 0u32) & 7 == c0 && (m >> 3u32) & 7 == c1 && (m >> 6u32) & 7 == c2 && (m >> 9u32) & 7 == c3) by (bit_vector)
        requires
            c0 < 8 && c1 < 8 && c2 < 8 && c3 < 8,
            m == (c0 & 7) | ((c1 & 7) << 3u32) | ((c2 & 7) << 6u32) | ((c3 & 7) << 9u32) | (1u32 << 12u32),
    ;
}

impl Default for ShaderComponentMapping {
    /// Every component read from the component of the same index (`D3D12_DEFAULT_SHADER_4_COMPONENT_MAPPING`).
    fn default() -> (r: Self)
        ensures
            r.0 == 0x1688,
    {
        ShaderComponentMapping(0x1688)
    }
}

impl From<ShaderComponentMapping> for u32 {
    fn from(mapping: ShaderComponentMapping) -> (r: u32) {
        mapping.0
    }
}

impl FromSpecImpl<ShaderComponentMapping> for u32 {
    open spec fn obeys_from_spec() -> bool {
        true
    }

    open spec fn from_spec(v: ShaderComponentMapping) -> u32 {
        v.0
    }
}

impl From<u32> for ShaderComponentMapping {
    fn from(encoded: u32) -> (r: ShaderComponentMapping) {
        ShaderComponentMapping(encoded)
    }
}

impl FromSpecImpl<u32> for ShaderComponentMapping {
    open spec fn obeys_from_spec() -> bool {
        true
    }

    open spec fn from_spec(v: u32) -> ShaderComponentMapping {
        ShaderComponentMapping(v)
    }
}

/// A buffer seen through a shader resource view (`D3D12_BUFFER_SRV`).
#[derive(Clone, Copy, Debug, PartialEq, Eq)]
pub struct BufferSrv {
    pub first_element: u64,
    pub num_elements: u32,
    pub structure_byte_stride: u32,
    pub flags: BufferSrvFlags,
}

impl Default for BufferSrv {
    /// No elements, no stride, no flags.
    fn default() -> (r: Self)
        ensures
            r == (BufferSrv {
                first_element: 0,
                num_elements: 0,
                structure_byte_stride: 0,
                flags: (BufferSrvFlags { bits: 0 }),
            }),
    {
        BufferSrv {
            first_element: 0,
            num_elements: 0,
            structure_byte_stride: 0,
            flags: BufferSrvFlags::empty(),
        }
    }
}

impl BufferSrv {
    /// Replaces the first element.
    pub fn with_first_element(self, first_element: u64) -> (r: Self)
        ensures
            r == (BufferSrv { first_element: first_element, ..self }),
    {
        BufferSrv { first_element: first_element, ..self }
    }

    /// As [`Self::with_first_element`], on the value in place.
    pub fn set_first_element(&mut self, first_element: u64) -> (r: &mut Self)
        ensures
            (*r) == (BufferSrv { first_element: first_element, ..(*old(self)) }),
            *final(self) == *final(r),
    {
        let v = (*self).with_first_element(first_element);
        *self = v;
        self
    }

    /// The first element.
    pub fn first_element(&self) -> (r: u64)
        ensures
            r == self.first_element,
    {
        self.first_element
    }

    /// Replaces the num elements.
    pub fn with_num_elements(self, num_elements: u32) -> (r: Self)
        ensures
            r == (BufferSrv { num_elements: num_elements, ..self }),
    {
        BufferSrv { num_elements: num_elements, ..self }
    }

    /// As [`Self::with_num_elements`], on the value in place.
    pub fn set_num_elements(&mut self, num_elements: u32) -> (r: &mut Self)
        ensures
            (*r) == (BufferSrv { num_elements: num_elements, ..(*old(self)) }),
            *final(self) == *final(r),
    {
        let v = (*self).with_num_elements(num_elements);
        *self = v;
        self
    }

    /// The num elements.
    pub fn num_elements(&self) -> (r: u32)
        ensures
            r == self.num_elements,
    {
        self.num_elements
    }

    /// Replaces the structure byte stride.
    pub fn with_structure_byte_stride(self, structure_byte_stride: ByteCount) -> (r: Self)
        ensures
            r == (BufferSrv { structure_byte_stride: structure_byte_stride.0 as u32, ..self }),
    {
        BufferSrv { structure_byte_stride: structure_byte_stride.0 as u32, ..self }
    }

    /// As [`Self::with_structure_byte_stride`], on the value in place.
    pub fn set_structure_byte_stride(&mut self, structure_byte_stride: ByteCount) -> (r: &mut Self)
        ensures
            (*r) == (BufferSrv { structure_byte_stride: structure_byte_stride.0 as u32, ..(*old(self)) }),
            *final(self) == *final(r),
    {
        let v = (*self).with_structure_byte_stride(structure_byte_stride);
        *self = v;
        self
    }

    /// The structure byte stride.
    pub fn structure_byte_stride(&self) -> (r: ByteCount)
        ensures
            r == ByteCount(self.structure_byte_stride as u64),
    {
        ByteCount(self.structure_byte_stride as u64)
    }

    /// Replaces the flags.
    pub fn with_flags(self, flags: BufferSrvFlags) -> (r: Self)
        ensures
            r == (BufferSrv { flags: flags, ..self }),
    {
        BufferSrv { flags: flags, ..self }
    }

    /// As [`Self::with_flags`], on the value in place.
    pub fn set_flags(&mut self, flags: BufferSrvFlags) -> (r: &mut Self)
        ensures
            (*r) == (BufferSrv { flags: flags, ..(*old(self)) }),
            *final(self) == *final(r),
    {
        let v = (*self).with_flags(flags);
        *self = v;
        self
    }

    /// The flags.
    pub fn flags(&self) -> (r: BufferSrvFlags)
        ensures
            r == self.flags,
    {
        self.flags
    }
}

/// A 1D texture seen through a shader resource view (`D3D12_TEX1D_SRV`); the clamp is an IEEE-754 bit pattern.
#[derive(Clone, Copy, Debug, PartialEq, Eq)]
pub struct Tex1DSrv {
    pub most_detailed_mip: u32,
    pub mip_levels: u32,
    pub resource_min_lod_clamp_bits: u32,
}

impl Default for Tex1DSrv {
    /// All zero.
    fn default() -> (r: Self)
        ensures
            r == (Tex1DSrv {
                most_detailed_mip: 0,
                mip_levels: 0,
                resource_min_lod_clamp_bits: 0,
            }),
    {
        Tex1DSrv {
            most_detailed_mip: 0,
            mip_levels: 0,
            resource_min_lod_clamp_bits: 0,
        }
    }
}

impl Tex1DSrv {
    /// Replaces the most detailed mip.
    pub fn with_most_detailed_mip(self, most_detailed_mip: u32) -> (r: Self)
        ensures
            r == (Tex1DSrv { most_detailed_mip: most_detailed_mip, ..self }),
    {
        Tex1DSrv { most_detailed_mip: most_detailed_mip, ..self }
    }

    /// As [`Self::with_most_detailed_mip`], on the value in place.
    pub fn set_most_detailed_mip(&mut self, most_detailed_mip: u32) -> (r: &mut Self)
        ensures
            (*r) == (Tex1DSrv { most_detailed_mip: most_detailed_mip, ..(*old(self)) }),
            *final(self) == *final(r),
    {
        let v = (*self).with_most_detailed_mip(most_detailed_mip);
        *self = v;
        self
    }

    /// The most detailed mip.
    pub fn most_detailed_mip(&self) -> (r: u32)
        ensures
            r == self.most_detailed_mip,
    {
        self.most_detailed_mip
    }

    /// Replaces the mip levels.
    pub fn with_mip_levels(self, mip_levels: u32) -> (r: Self)
        ensures
            r == (Tex1DSrv { mip_levels: mip_levels, ..self }),
    {
        Tex1DSrv { mip_levels: mip_levels, ..self }
    }

    /// As [`Self::with_mip_levels`], on the value in place.
    pub fn set_mip_levels(&mut self, mip_levels: u32) -> (r: &mut Self)
        ensures
            (*r) == (Tex1DSrv { mip_levels: mip_levels, ..(*old(self)) }),
            *final(self) == *final(r),
    {
        let v = (*self).with_mip_levels(mip_levels);
        *self = v;
        self
    }

    /// The mip levels.
    pub fn mip_levels(&self) -> (r: u32)
        ensures
            r == self.mip_levels,
    {
        self.mip_levels
    }

    /// Replaces the resource min lod clamp bits.
    pub fn with_resource_min_lod_clamp_bits(self, resource_min_lod_clamp_bits: u32) -> (r: Self)
        ensures
            r == (Tex1DSrv { resource_min_lod_clamp_bits: resource_min_lod_clamp_bits, ..self }),
    {
        Tex1DSrv { resource_min_lod_clamp_bits: resource_min_lod_clamp_bits, ..self }
    }

    /// As [`Self::with_resource_min_lod_clamp_bits`], on the value in place.
    pub fn set_resource_min_lod_clamp_bits(&mut self, resource_min_lod_clamp_bits: u32) -> (r: &mut Self)
        ensures
            (*r) == (Tex1DSrv { resource_min_lod_clamp_bits: resource_min_lod_clamp_bits, ..(*old(self)) }),
            *final(self) == *final(r),
    {
        let v = (*self).with_resource_min_lod_clamp_bits(resource_min_lod_clamp_bits);
        *self = v;
        self
    }

    /// The resource min lod clamp bits.
    pub fn resource_min_lod_clamp_bits(&self) -> (r: u32)
        ensures
            r == self.resource_min_lod_clamp_bits,
    {
        self.resource_min_lod_clamp_bits
    }
}

/// A 1D texture array seen through a shader resource view (`D3D12_TEX1D_ARRAY_SRV`); the clamp is an IEEE-754 bit pattern.
#[derive(Clone, Copy, Debug, PartialEq, Eq)]
pub struct Tex1DArraySrv {
    pub most_detailed_mip: u32,
    pub mip_levels: u32,
    pub first_array_slice: u32,
    pub array_size: u32,
    pub resource_min_lod_clamp_bits: u32,
}

impl Default for Tex1DArraySrv {
    /// All zero.
    fn default() -> (r: Self)
        ensures
            r == (Tex1DArraySrv {
                most_detailed_mip: 0,
                mip_levels: 0,
                first_array_slice: 0,
                array_size: 0,
                resource_min_lod_clamp_bits: 0,
            }),
    {
        Tex1DArraySrv {
            most_detailed_mip: 0,
            mip_levels: 0,
            first_array_slice: 0,
            array_size: 0,
            resource_min_lod_clamp_bits: 0,
        }
    }
}

impl Tex1DArraySrv {
    /// Replaces the most detailed mip.
    pub fn with_most_detailed_mip(self, most_detailed_mip: u32) -> (r: Self)
        ensures
            r == (Tex1DArraySrv { most_detailed_mip: most_detailed_mip, ..self }),
    {
        Tex1DArraySrv { most_detailed_mip: most_detailed_mip, ..self }
    }

    /// As [`Self::with_most_detailed_mip`], on the value in place.
    pub fn set_most_detailed_mip(&mut self, most_detailed_mip: u32) -> (r: &mut Self)
        ensures
            (*r) == (Tex1DArraySrv { most_detailed_mip: most_detailed_mip, ..(*old(self)) }),
            *final(self) == *final(r),
    {
        let v = (*self).with_most_detailed_mip(most_detailed_mip);
        *self = v;
        self
    }

    /// The most detailed mip.
    pub fn most_detailed_mip(&self) -> (r: u32)
        ensures
            r == self.most_detailed_mip,
    {
        self.most_detailed_mip
    }

    /// Replaces the mip levels.
    pub fn with_mip_levels(self, mip_levels: u32) -> (r: Self)
        ensures
            r == (Tex1DArraySrv { mip_levels: mip_levels, ..self }),
    {
        Tex1DArraySrv { mip_levels: mip_levels, ..self }
    }

    /// As [`Self::with_mip_levels`], on the value in place.
    pub fn set_mip_levels(&mut self, mip_levels: u32) -> (r: &mut Self)
        ensures
            (*r) == (Tex1DArraySrv { mip_levels: mip_levels, ..(*old(self)) }),
            *final(self) == *final(r),
    {
        let v = (*self).with_mip_levels(mip_levels);
        *self = v;
        self
    }

    /// The mip levels.
    pub fn mip_levels(&self) -> (r: u32)
        ensures
            r == self.mip_levels,
    {
        self.mip_levels
    }

    /// Replaces the first array slice.
    pub fn with_first_array_slice(self, first_array_slice: u32) -> (r: Self)
        ensures
            r == (Tex1DArraySrv { first_array_slice: first_array_slice, ..self }),
    {
        Tex1DArraySrv { first_array_slice: first_array_slice, ..self }
    }

    /// As [`Self::with_first_array_slice`], on the value in place.
    pub fn set_first_array_slice(&mut self, first_array_slice: u32) -> (r: &mut Self)
        ensures
            (*r) == (Tex1DArraySrv { first_array_slice: first_array_slice, ..(*old(self)) }),
            *final(self) == *final(r),
    {
        let v = (*self).with_first_array_slice(first_array_slice);
        *self = v;
        self
    }

    /// The first array slice.
    pub fn first_array_slice(&self) -> (r: u32)
        ensures
            r == self.first_array_slice,
    {
        self.first_array_slice
    }

    /// Replaces the array size.
    pub fn with_array_size(self, array_size: u32) -> (r: Self)
        ensures
            r == (Tex1DArraySrv { array_size: array_size, ..self }),
    {
        Tex1DArraySrv { array_size: array_size, ..self }
    }

    /// As [`Self::with_array_size`], on the value in place.
    pub fn set_array_size(&mut self, array_size: u32) -> (r: &mut Self)
        ensures
            (*r) == (Tex1DArraySrv { array_size: array_size, ..(*old(self)) }),
            *final(self) == *final(r),
    {
        let v = (*self).with_array_size(array_size);
        *self = v;
        self
    }

    /// The array size.
    pub fn array_size(&self) -> (r: u32)
        ensures
            r == self.array_size,
    {
        self.array_size
    }

    /// Replaces the resource min lod clamp bits.
    pub fn with_resource_min_lod_clamp_bits(self, resource_min_lod_clamp_bits: u32) -> (r: Self)
        ensures
            r == (Tex1DArraySrv { resource_min_lod_clamp_bits: resource_min_lod_clamp_bits, ..self }),
    {
        Tex1DArraySrv { resource_min_lod_clamp_bits: resource_min_lod_clamp_bits, ..self }
    }

    /// As [`Self::with_resource_min_lod_clamp_bits`], on the value in place.
    pub fn set_resource_min_lod_clamp_bits(&mut self, resource_min_lod_clamp_bits: u32) -> (r: &mut Self)
        ensures
            (*r) == (Tex1DArraySrv { resource_min_lod_clamp_bits: resource_min_lod_clamp_bits, ..(*old(self)) }),
            *final(self) == *final(r),
    {
        let v = (*self).with_resource_min_lod_clamp_bits(resource_min_lod_clamp_bits);
        *self = v;
        self
    }

    /// The resource min lod clamp bits.
    pub fn resource_min_lod_clamp_bits(&self) -> (r: u32)
        ensures
            r == self.resource_min_lod_clamp_bits,
    {
        self.resource_min_lod_clamp_bits
    }
}

/// A 2D texture seen through a shader resource view (`D3D12_TEX2D_SRV`); the clamp is an IEEE-754 bit pattern.
#[derive(Clone, Copy, Debug, PartialEq, Eq)]
pub struct Tex2DSrv {
    pub most_detailed_mip: u32,
    pub mip_levels: u32,
    pub plane_slice: u32,
    pub resource_min_lod_clamp_bits: u32,
}

impl Default for Tex2DSrv {
    /// All zero.
    fn default() -> (r: Self)
        ensures
            r == (Tex2DSrv {
                most_detailed_mip: 0,
                mip_levels: 0,
                plane_slice: 0,
                resource_min_lod_clamp_bits: 0,
            }),
    {
        Tex2DSrv {
            most_detailed_mip: 0,
            mip_levels: 0,
            plane_slice: 0,
            resource_min_lod_clamp_bits: 0,
        }
    }
}

impl Tex2DSrv {
    /// Replaces the most detailed mip.
    pub fn with_most_detailed_mip(self, most_detailed_mip: u32) -> (r: Self)
        ensures
            r == (Tex2DSrv { most_detailed_mip: most_detailed_mip, ..self }),
    {
        Tex2DSrv { most_detailed_mip: most_detailed_mip, ..self }
    }

    /// As [`Self::with_most_detailed_mip`], on the value in place.
    pub fn set_most_detailed_mip(&mut self, most_detailed_mip: u32) -> (r: &mut Self)
        ensures
            (*r) == (Tex2DSrv { most_detailed_mip: most_detailed_mip, ..(*old(self)) }),
            *final(self) == *final(r),
    {
        let v = (*self).with_most_detailed_mip(most_detailed_mip);
        *self = v;
        self
    }

    /// The most detailed mip.
    pub fn most_detailed_mip(&self) -> (r: u32)
        ensures
            r == self.most_detailed_mip,
    {
        self.most_detailed_mip
    }

    /// Replaces the mip levels.
    pub fn with_mip_levels(self, mip_levels: u32) -> (r: Self)
        ensures
            r == (Tex2DSrv { mip_levels: mip_levels, ..self }),
    {
        Tex2DSrv { mip_levels: mip_levels, ..self }
    }

    /// As [`Self::with_mip_levels`], on the value in place.
    pub fn set_mip_levels(&mut self, mip_levels: u32) -> (r: &mut Self)
        ensures
            (*r) == (Tex2DSrv { mip_levels: mip_levels, ..(*old(self)) }),
            *final(self) == *final(r),
    {
        let v = (*self).with_mip_levels(mip_levels);
        *self = v;
        self
    }

    /// The mip levels.
    pub fn mip_levels(&self) -> (r: u32)
        ensures
            r == self.mip_levels,
    {
        self.mip_levels
    }

    /// Replaces the plane slice.
    pub fn with_plane_slice(self, plane_slice: u32) -> (r: Self)
        ensures
            r == (Tex2DSrv { plane_slice: plane_slice, ..self }),
    {
        Tex2DSrv { plane_slice: plane_slice, ..self }
    }

    /// As [`Self::with_plane_slice`], on the value in place.
    pub fn set_plane_slice(&mut self, plane_slice: u32) -> (r: &mut Self)
        ensures
            (*r) == (Tex2DSrv { plane_slice: plane_slice, ..(*old(self)) }),
            *final(self) == *final(r),
    {
        let v = (*self).with_plane_slice(plane_slice);
        *self = v;
        self
    }

    /// The plane slice.
    pub fn plane_slice(&self) -> (r: u32)
        ensures
            r == self.plane_slice,
    {
        self.plane_slice
    }

    /// Replaces the resource min lod clamp bits.
    pub fn with_resource_min_lod_clamp_bits(self, resource_min_lod_clamp_bits: u32) -> (r: Self)
        ensures
            r == (Tex2DSrv { resource_min_lod_clamp_bits: resource_min_lod_clamp_bits, ..self }),
    {
        Tex2DSrv { resource_min_lod_clamp_bits: resource_min_lod_clamp_bits, ..self }
    }

    /// As [`Self::with_resource_min_lod_clamp_bits`], on the value in place.
    pub fn set_resource_min_lod_clamp_bits(&mut self, resource_min_lod_clamp_bits: u32) -> (r: &mut Self)
        ensures
            (*r) == (Tex2DSrv { resource_min_lod_clamp_bits: resource_min_lod_clamp_bits, ..(*old(self)) }),
            *final(self) == *final(r),
    {
        let v = (*self).with_resource_min_lod_clamp_bits(resource_min_lod_clamp_bits);
        *self = v;
        self
    }

    /// The resource min lod clamp bits.
    pub fn resource_min_lod_clamp_bits(&self) -> (r: u32)
        ensures
            r == self.resource_min_lod_clamp_bits,
    {
        self.resource_min_lod_clamp_bits
    }
}

/// A 2D texture array seen through a shader resource view (`D3D12_TEX2D_ARRAY_SRV`); the clamp is an IEEE-754 bit pattern.
#[derive(Clone, Copy, Debug, PartialEq, Eq)]
pub struct Tex2DArraySrv {
    pub most_detailed_mip: u32,
    pub mip_levels: u32,
    pub first_array_slice: u32,
    pub array_size: u32,
    pub plane_slice: u32,
    pub resource_min_lod_clamp_bits: u32,
}

impl Default for Tex2DArraySrv {
    /// All zero.
    fn default() -> (r: Self)
        ensures
            r == (Tex2DArraySrv {
                most_detailed_mip: 0,
                mip_levels: 0,
                first_array_slice: 0,
                array_size: 0,
                plane_slice: 0,
                resource_min_lod_clamp_bits: 0,
            }),
    {
        Tex2DArraySrv {
            most_detailed_mip: 0,
            mip_levels: 0,
            first_array_slice: 0,
            array_size: 0,
            plane_slice: 0,
            resource_min_lod_clamp_bits: 0,
        }
    }
}

impl Tex2DArraySrv {
    /// Replaces the most detailed mip.
    pub fn with_most_detailed_mip(self, most_detailed_mip: u32) -> (r: Self)
        ensures
            r == (Tex2DArraySrv { most_detailed_mip: most_detailed_mip, ..self }),
    {
        Tex2DArraySrv { most_detailed_mip: most_detailed_mip, ..self }
    }

    /// As [`Self::with_most_detailed_mip`], on the value in place.
    pub fn set_most_detailed_mip(&mut self, most_detailed_mip: u32) -> (r: &mut Self)
        ensures
            (*r) == (Tex2DArraySrv { most_detailed_mip: most_detailed_mip, ..(*old(self)) }),
            *final(self) == *final(r),
    {
        let v = (*self).with_most_detailed_mip(most_detailed_mip);
        *self = v;
        self
    }

    /// The most detailed mip.
    pub fn most_detailed_mip(&self) -> (r: u32)
        ensures
            r == self.most_detailed_mip,
    {
        self.most_detailed_mip
    }

    /// Replaces the mip levels.
    pub fn with_mip_levels(self, mip_levels: u32) -> (r: Self)
        ensures
            r == (Tex2DArraySrv { mip_levels: mip_levels, ..self }),
    {
        Tex2DArraySrv { mip_levels: mip_levels, ..self }
    }

    /// As [`Self::with_mip_levels`], on the value in place.
    pub fn set_mip_levels(&mut self, mip_levels: u32) -> (r: &mut Self)
        ensures
            (*r) == (Tex2DArraySrv { mip_levels: mip_levels, ..(*old(self)) }),
            *final(self) == *final(r),
    {
        let v = (*self).with_mip_levels(mip_levels);
        *self = v;
        self
    }

    /// The mip levels.
    pub fn mip_levels(&self) -> (r: u32)
        ensures
            r == self.mip_levels,
    {
        self.mip_levels
    }

    /// Replaces the first array slice.
    pub fn with_first_array_slice(self, first_array_slice: u32) -> (r: Self)
        ensures
            r == (Tex2DArraySrv { first_array_slice: first_array_slice, ..self }),
    {
        Tex2DArraySrv { first_array_slice: first_array_slice, ..self }
    }

    /// As [`Self::with_first_array_slice`], on the value in place.
    pub fn set_first_array_slice(&mut self, first_array_slice: u32) -> (r: &mut Self)
        ensures
            (*r) == (Tex2DArraySrv { first_array_slice: first_array_slice, ..(*old(self)) }),
            *final(self) == *final(r),
    {
        let v = (*self).with_first_array_slice(first_array_slice);
        *self = v;
        self
    }

    /// The first array slice.
    pub fn first_array_slice(&self) -> (r: u32)
        ensures
            r == self.first_array_slice,
    {
        self.first_array_slice
    }

    /// Replaces the array size.
    pub fn with_array_size(self, array_size: u32) -> (r: Self)
        ensures
            r == (Tex2DArraySrv { array_size: array_size, ..self }),
    {
        Tex2DArraySrv { array_size: array_size, ..self }
    }

    /// As [`Self::with_array_size`], on the value in place.
    pub fn set_array_size(&mut self, array_size: u32) -> (r: &mut Self)
        ensures
            (*r) == (Tex2DArraySrv { array_size: array_size, ..(*old(self)) }),
            *final(self) == *final(r),
    {
        let v = (*self).with_array_size(array_size);
        *self = v;
        self
    }

    /// The array size.
    pub fn array_size(&self) -> (r: u32)
        ensures
            r == self.array_size,
    {
        self.array_size
    }

    /// Replaces the plane slice.
    pub fn with_plane_slice(self, plane_slice: u32) -> (r: Self)
        ensures
            r == (Tex2DArraySrv { plane_slice: plane_slice, ..self }),
    {
        Tex2DArraySrv { plane_slice: plane_slice, ..self }
    }

    /// As [`Self::with_plane_slice`], on the value in place.
    pub fn set_plane_slice(&mut self, plane_slice: u32) -> (r: &mut Self)
        ensures
            (*r) == (Tex2DArraySrv { plane_slice: plane_slice, ..(*old(self)) }),
            *final(self) == *final(r),
    {
        let v = (*self).with_plane_slice(plane_slice);
        *self = v;
        self
    }

    /// The plane slice.
    pub fn plane_slice(&self) -> (r: u32)
        ensures
            r == self.plane_slice,
    {
        self.plane_slice
    }

    /// Replaces the resource min lod clamp bits.
    pub fn with_resource_min_lod_clamp_bits(self, resource_min_lod_clamp_bits: u32) -> (r: Self)
        ensures
            r == (Tex2DArraySrv { resource_min_lod_clamp_bits: resource_min_lod_clamp_bits, ..self }),
    {
        Tex2DArraySrv { resource_min_lod_clamp_bits: resource_min_lod_clamp_bits, ..self }
    }

    /// As [`Self::with_resource_min_lod_clamp_bits`], on the value in place.
    pub fn set_resource_min_lod_clamp_bits(&mut self, resource_min_lod_clamp_bits: u32) -> (r: &mut Self)
        ensures
            (*r) == (Tex2DArraySrv { resource_min_lod_clamp_bits: resource_min_lod_clamp_bits, ..(*old(self)) }),
            *final(self) == *final(r),
    {
        let v = (*self).with_resource_min_lod_clamp_bits(resource_min_lod_clamp_bits);
        *self = v;
        self
    }

    /// The resource min lod clamp bits.
    pub fn resource_min_lod_clamp_bits(&self) -> (r: u32)
        ensures
            r == self.resource_min_lod_clamp_bits,
    {
        self.resource_min_lod_clamp_bits
    }
}

/// A 3D texture seen through a shader resource view (`D3D12_TEX3D_SRV`); the clamp is an IEEE-754 bit pattern.
#[derive(Clone, Copy, Debug, PartialEq, Eq)]
pub struct Tex3DSrv {
    pub most_detailed_mip: u32,
    pub mip_levels: u32,
    pub resource_min_lod_clamp_bits: u32,
}

impl Default for Tex3DSrv {
    /// All zero.
    fn default() -> (r: Self)
        ensures
            r == (Tex3DSrv {
                most_detailed_mip: 0,
                mip_levels: 0,
                resource_min_lod_clamp_bits: 0,
            }),
    {
        Tex3DSrv {
            most_detailed_mip: 0,
            mip_levels: 0,
            resource_min_lod_clamp_bits: 0,
        }
    }
}

impl Tex3DSrv {
    /// Replaces the most detailed mip.
    pub fn with_most_detailed_mip(self, most_detailed_mip: u32) -> (r: Self)
        ensures
            r == (Tex3DSrv { most_detailed_mip: most_detailed_mip, ..self }),
    {
        Tex3DSrv { most_detailed_mip: most_detailed_mip, ..self }
    }

    /// As [`Self::with_most_detailed_mip`], on the value in place.
    pub fn set_most_detailed_mip(&mut self, most_detailed_mip: u32) -> (r: &mut Self)
        ensures
            (*r) == (Tex3DSrv { most_detailed_mip: most_detailed_mip, ..(*old(self)) }),
            *final(self) == *final(r),
    {
        let v = (*self).with_most_detailed_mip(most_detailed_mip);
        *self = v;
        self
    }

    /// The most detailed mip.
    pub fn most_detailed_mip(&self) -> (r: u32)
        ensures
            r == self.most_detailed_mip,
    {
        self.most_detailed_mip
    }

    /// Replaces the mip levels.
    pub fn with_mip_levels(self, mip_levels: u32) -> (r: Self)
        ensures
            r == (Tex3DSrv { mip_levels: mip_levels, ..self }),
    {
        Tex3DSrv { mip_levels: mip_levels, ..self }
    }

    /// As [`Self::with_mip_levels`], on the value in place.
    pub fn set_mip_levels(&mut self, mip_levels: u32) -> (r: &mut Self)
        ensures
            (*r) == (Tex3DSrv { mip_levels: mip_levels, ..(*old(self)) }),
            *final(self) == *final(r),
    {
        let v = (*self).with_mip_levels(mip_levels);
        *self = v;
        self
    }

    /// The mip levels.
    pub fn mip_levels(&self) -> (r: u32)
        ensures
            r == self.mip_levels,
    {
        self.mip_levels
    }

    /// Replaces the resource min lod clamp bits.
    pub fn with_resource_min_lod_clamp_bits(self, resource_min_lod_clamp_bits: u32) -> (r: Self)
        ensures
            r == (Tex3DSrv { resource_min_lod_clamp_bits: resource_min_lod_clamp_bits, ..self }),
    {
        Tex3DSrv { resource_min_lod_clamp_bits: resource_min_lod_clamp_bits, ..self }
    }

    /// As [`Self::with_resource_min_lod_clamp_bits`], on the value in place.
    pub fn set_resource_min_lod_clamp_bits(&mut self, resource_min_lod_clamp_bits: u32) -> (r: &mut Self)
        ensures
            (*r) == (Tex3DSrv { resource_min_lod_clamp_bits: resource_min_lod_clamp_bits, ..(*old(self)) }),
            *final(self) == *final(r),
    {
        let v = (*self).with_resource_min_lod_clamp_bits(resource_min_lod_clamp_bits);
        *self = v;
        self
    }

    /// The resource min lod clamp bits.
    pub fn resource_min_lod_clamp_bits(&self) -> (r: u32)
        ensures
            r == self.resource_min_lod_clamp_bits,
    {
        self.resource_min_lod_clamp_bits
    }
}

/// A cube texture seen through a shader resource view (`D3D12_TEXCUBE_SRV`); the clamp is an IEEE-754 bit pattern.
#[derive(Clone, Copy, Debug, PartialEq, Eq)]
pub struct TexcubeSrv {
    pub most_detailed_mip: u32,
    pub mip_levels: u32,
    pub resource_min_lod_clamp_bits: u32,
}

impl Default for TexcubeSrv {
    /// All zero.
    fn default() -> (r: Self)
        ensures
            r == (TexcubeSrv {
                most_detailed_mip: 0,
                mip_levels: 0,
                resource_min_lod_clamp_bits: 0,
            }),
    {
        TexcubeSrv {
            most_detailed_mip: 0,
            mip_levels: 0,
            resource_min_lod_clamp_bits: 0,
        }
    }
}

impl TexcubeSrv {
    /// Replaces the most detailed mip.
    pub fn with_most_detailed_mip(self, most_detailed_mip: u32) -> (r: Self)
        ensures
            r == (TexcubeSrv { most_detailed_mip: most_detailed_mip, ..self }),
    {
        TexcubeSrv { most_detailed_mip: most_detailed_mip, ..self }
    }

    /// As [`Self::with_most_detailed_mip`], on the value in place.
    pub fn set_most_detailed_mip(&mut self, most_detailed_mip: u32) -> (r: &mut Self)
        ensures
            (*r) == (TexcubeSrv { most_detailed_mip: most_detailed_mip, ..(*old(self)) }),
            *final(self) == *final(r),
    {
        let v = (*self).with_most_detailed_mip(most_detailed_mip);
        *self = v;
        self
    }

    /// The most detailed mip.
    pub fn most_detailed_mip(&self) -> (r: u32)
        ensures
            r == self.most_detailed_mip,
    {
        self.most_detailed_mip
    }

    /// Replaces the mip levels.
    pub fn with_mip_levels(self, mip_levels: u32) -> (r: Self)
        ensures
            r == (TexcubeSrv { mip_levels: mip_levels, ..self }),
    {
        TexcubeSrv { mip_levels: mip_levels, ..self }
    }

    /// As [`Self::with_mip_levels`], on the value in place.
    pub fn set_mip_levels(&mut self, mip_levels: u32) -> (r: &mut Self)
        ensures
            (*r) == (TexcubeSrv { mip_levels: mip_levels, ..(*old(self)) }),
            *final(self) == *final(r),
    {
        let v = (*self).with_mip_levels(mip_levels);
        *self = v;
        self
    }

    /// The mip levels.
    pub fn mip_levels(&self) -> (r: u32)
        ensures
            r == self.mip_levels,
    {
        self.mip_levels
    }

    /// Replaces the resource min lod clamp bits.
    pub fn with_resource_min_lod_clamp_bits(self, resource_min_lod_clamp_bits: u32) -> (r: Self)
        ensures
            r == (TexcubeSrv { resource_min_lod_clamp_bits: resource_min_lod_clamp_bits, ..self }),
    {
        TexcubeSrv { resource_min_lod_clamp_bits: resource_min_lod_clamp_bits, ..self }
    }

    /// As [`Self::with_resource_min_lod_clamp_bits`], on the value in place.
    pub fn set_resource_min_lod_clamp_bits(&mut self, resource_min_lod_clamp_bits: u32) -> (r: &mut Self)
        ensures
            (*r) == (TexcubeSrv { resource_min_lod_clamp_bits: resource_min_lod_clamp_bits, ..(*old(self)) }),
            *final(self) == *final(r),
    {
        let v = (*self).with_resource_min_lod_clamp_bits(resource_min_lod_clamp_bits);
        *self = v;
        self
    }

    /// The resource min lod clamp bits.
    pub fn resource_min_lod_clamp_bits(&self) -> (r: u32)
        ensures
            r == self.resource_min_lod_clamp_bits,
    {
        self.resource_min_lod_clamp_bits
    }
}

/// A cube texture array seen through a shader resource view (`D3D12_TEXCUBE_ARRAY_SRV`); the clamp is an IEEE-754 bit pattern.
#[derive(Clone, Copy, Debug, PartialEq, Eq)]
pub struct TexcubeArraySrv {
    pub most_detailed_mip: u32,
    pub mip_levels: u32,
    pub first_2d_array_face: u32,
    pub num_cubes: u32,
    pub resource_min_lod_clamp_bits: u32,
}

impl Default for TexcubeArraySrv {
    /// All zero.
    fn default() -> (r: Self)
        ensures
            r == (TexcubeArraySrv {
                most_detailed_mip: 0,
                mip_levels: 0,
                first_2d_array_face: 0,
                num_cubes: 0,
                resource_min_lod_clamp_bits: 0,
            }),
    {
        TexcubeArraySrv {
            most_detailed_mip: 0,
            mip_levels: 0,
            first_2d_array_face: 0,
            num_cubes: 0,
            resource_min_lod_clamp_bits: 0,
        }
    }
}

impl TexcubeArraySrv {
    /// Replaces the most detailed mip.
    pub fn with_most_detailed_mip(self, most_detailed_mip: u32) -> (r: Self)
        ensures
            r == (TexcubeArraySrv { most_detailed_mip: most_detailed_mip, ..self }),
    {
        TexcubeArraySrv { most_detailed_mip: most_detailed_mip, ..self }
    }

    /// As [`Self::with_most_detailed_mip`], on the value in place.
    pub fn set_most_detailed_mip(&mut self, most_detailed_mip: u32) -> (r: &mut Self)
        ensures
            (*r) == (TexcubeArraySrv { most_detailed_mip: most_detailed_mip, ..(*old(self)) }),
            *final(self) == *final(r),
    {
        let v = (*self).with_most_detailed_mip(most_detailed_mip);
        *self = v;
        self
    }

    /// The most detailed mip.
    pub fn most_detailed_mip(&self) -> (r: u32)
        ensures
            r == self.most_detailed_mip,
    {
        self.most_detailed_mip
    }

    /// Replaces the mip levels.
    pub fn with_mip_levels(self, mip_levels: u32) -> (r: Self)
        ensures
            r == (TexcubeArraySrv { mip_levels: mip_levels, ..self }),
    {
        TexcubeArraySrv { mip_levels: mip_levels, ..self }
    }

    /// As [`Self::with_mip_levels`], on the value in place.
    pub fn set_mip_levels(&mut self, mip_levels: u32) -> (r: &mut Self)
        ensures
            (*r) == (TexcubeArraySrv { mip_levels: mip_levels, ..(*old(self)) }),
            *final(self) == *final(r),
    {
        let v = (*self).with_mip_levels(mip_levels);
        *self = v;
        self
    }

    /// The mip levels.
    pub fn mip_levels(&self) -> (r: u32)
        ensures
            r == self.mip_levels,
    {
        self.mip_levels
    }

    /// Replaces the first 2d array face.
    pub fn with_first_2d_array_face(self, first_2d_array_face: u32) -> (r: Self)
        ensures
            r == (TexcubeArraySrv { first_2d_array_face: first_2d_array_face, ..self }),
    {
        TexcubeArraySrv { first_2d_array_face: first_2d_array_face, ..self }
    }

    /// As [`Self::with_first_2d_array_face`], on the value in place.
    pub fn set_first_2d_array_face(&mut self, first_2d_array_face: u32) -> (r: &mut Self)
        ensures
            (*r) == (TexcubeArraySrv { first_2d_array_face: first_2d_array_face, ..(*old(self)) }),
            *final(self) == *final(r),
    {
        let v = (*self).with_first_2d_array_face(first_2d_array_face);
        *self = v;
        self
    }

    /// The first 2d array face.
    pub fn first2_d_array_face(&self) -> (r: u32)
        ensures
            r == self.first_2d_array_face,
    {
        self.first_2d_array_face
    }

    /// Replaces the num cubes.
    pub fn with_num_cubes(self, num_cubes: u32) -> (r: Self)
        ensures
            r == (TexcubeArraySrv { num_cubes: num_cubes, ..self }),
    {
        TexcubeArraySrv { num_cubes: num_cubes, ..self }
    }

    /// As [`Self::with_num_cubes`], on the value in place.
    pub fn set_num_cubes(&mut self, num_cubes: u32) -> (r: &mut Self)
        ensures
            (*r) == (TexcubeArraySrv { num_cubes: num_cubes, ..(*old(self)) }),
            *final(self) == *final(r),
    {
        let v = (*self).with_num_cubes(num_cubes);
        *self = v;
        self
    }

    /// The num cubes.
    pub fn num_cubes(&self) -> (r: u32)
        ensures
            r == self.num_cubes,
    {
        self.num_cubes
    }

    /// Replaces the resource min lod clamp bits.
    pub fn with_resource_min_lod_clamp_bits(self, resource_min_lod_clamp_bits: u32) -> (r: Self)
        ensures
            r == (TexcubeArraySrv { resource_min_lod_clamp_bits: resource_min_lod_clamp_bits, ..self }),
    {
        TexcubeArraySrv { resource_min_lod_clamp_bits: resource_min_lod_clamp_bits, ..self }
    }

    /// As [`Self::with_resource_min_lod_clamp_bits`], on the value in place.
    pub fn set_resource_min_lod_clamp_bits(&mut self, resource_min_lod_clamp_bits: u32) -> (r: &mut Self)
        ensures
            (*r) == (TexcubeArraySrv { resource_min_lod_clamp_bits: resource_min_lod_clamp_bits, ..(*old(self)) }),
            *final(self) == *final(r),
    {
        let v = (*self).with_resource_min_lod_clamp_bits(resource_min_lod_clamp_bits);
        *self = v;
        self
    }

    /// The resource min lod clamp bits.
    pub fn resource_min_lod_clamp_bits(&self) -> (r: u32)
        ensures
            r == self.resource_min_lod_clamp_bits,
    {
        self.resource_min_lod_clamp_bits
    }
}

/// A multisampled 2D texture seen through a shader resource view (`D3D12_TEX2DMS_SRV`).
#[derive(Clone, Copy, Debug, PartialEq, Eq)]
pub struct Tex2DMsSrv {
    pub unused_field_nothing_to_define: u32,
}

impl Default for Tex2DMsSrv {
    /// The only value.
    fn default() -> (r: Self)
        ensures
            r == (Tex2DMsSrv {
                unused_field_nothing_to_define: 0,
            }),
    {
        Tex2DMsSrv {
            unused_field_nothing_to_define: 0,
        }
    }
}

/// A multisampled 2D texture array seen through a shader resource view (`D3D12_TEX2DMS_ARRAY_SRV`).
#[derive(Clone, Copy, Debug, PartialEq, Eq)]
pub struct Tex2DMsArraySrv {
    pub first_array_slice: u32,
    pub array_size: u32,
}

impl Default for Tex2DMsArraySrv {
    /// All zero.
    fn default() -> (r: Self)
        ensures
            r == (Tex2DMsArraySrv {
                first_array_slice: 0,
                array_size: 0,
            }),
    {
        Tex2DMsArraySrv {
            first_array_slice: 0,
            array_size: 0,
        }
    }
}

impl Tex2DMsArraySrv {
    /// Replaces the first array slice.
    pub fn with_first_array_slice(self, first_array_slice: u32) -> (r: Self)
        ensures
            r == (Tex2DMsArraySrv { first_array_slice: first_array_slice, ..self }),
    {
        Tex2DMsArraySrv { first_array_slice: first_array_slice, ..self }
    }

    /// As [`Self::with_first_array_slice`], on the value in place.
    pub fn set_first_array_slice(&mut self, first_array_slice: u32) -> (r: &mut Self)
        ensures
            (*r) == (Tex2DMsArraySrv { first_array_slice: first_array_slice, ..(*old(self)) }),
            *final(self) == *final(r),
    {
        let v = (*self).with_first_array_slice(first_array_slice);
        *self = v;
        self
    }

    /// The first array slice.
    pub fn first_array_slice(&self) -> (r: u32)
        ensures
            r == self.first_array_slice,
    {
        self.first_array_slice
    }

    /// Replaces the array size.
    pub fn with_array_size(self, array_size: u32) -> (r: Self)
        ensures
            r == (Tex2DMsArraySrv { array_size: array_size, ..self }),
    {
        Tex2DMsArraySrv { array_size: array_size, ..self }
    }

    /// As [`Self::with_array_size`], on the value in place.
    pub fn set_array_size(&mut self, array_size: u32) -> (r: &mut Self)
        ensures
            (*r) == (Tex2DMsArraySrv { array_size: array_size, ..(*old(self)) }),
            *final(self) == *final(r),
    {
        let v = (*self).with_array_size(array_size);
        *self = v;
        self
    }

    /// The array size.
    pub fn array_size(&self) -> (r: u32)
        ensures
            r == self.array_size,
    {
        self.array_size
    }
}

/// A raytracing acceleration structure seen through a shader resource view (`D3D12_RAYTRACING_ACCELERATION_STRUCTURE_SRV`).
#[derive(Clone, Copy, Debug, PartialEq, Eq)]
pub struct RaytracingAccelerationStructureSrv {
    pub location: GpuVirtualAddress,
}

impl Default for RaytracingAccelerationStructureSrv {
    /// Address zero.
    fn default() -> (r: Self)
        ensures
            r == (RaytracingAccelerationStructureSrv {
                location: GpuVirtualAddress(0),
            }),
    {
        RaytracingAccelerationStructureSrv {
            location: GpuVirtualAddress(0),
        }
    }
}

impl RaytracingAccelerationStructureSrv {
    /// Replaces the location.
    pub fn with_location(self, location: GpuVirtualAddress) -> (r: Self)
        ensures
            r == (RaytracingAccelerationStructureSrv { location: location, ..self }),
    {
        RaytracingAccelerationStructureSrv { location: location, ..self }
    }

    /// As [`Self::with_location`], on the value in place.
    pub fn set_location(&mut self, location: GpuVirtualAddress) -> (r: &mut Self)
        ensures
            (*r) == (RaytracingAccelerationStructureSrv { location: location, ..(*old(self)) }),
            *final(self) == *final(r),
    {
        let v = (*self).with_location(location);
        *self = v;
        self
    }

    /// The location.
    pub fn location(&self) -> (r: GpuVirtualAddress)
        ensures
            r == self.location,
    {
        self.location
    }
}

/// The dimension-specific part of a shader resource view description (`D3D12_SHADER_RESOURCE_VIEW_DESC`'s union).
#[derive(Clone, Copy, Debug, PartialEq, Eq)]
pub enum SrvView {
    Buffer(BufferSrv),
    Texture1D(Tex1DSrv),
    Texture1DArray(Tex1DArraySrv),
    Texture2D(Tex2DSrv),
    Texture2DArray(Tex2DArraySrv),
    Texture2DMs(Tex2DMsSrv),
    Texture2DMsArray(Tex2DMsArraySrv),
    Texture3D(Tex3DSrv),
    TextureCube(TexcubeSrv),
    TextureCubeArray(TexcubeArraySrv),
    RaytracingAccelerationStructure(RaytracingAccelerationStructureSrv),
}

/// Description of a shader resource view (`D3D12_SHADER_RESOURCE_VIEW_DESC`): format, dimension tag, component mapping and view.
#[derive(Clone, Copy, Debug, PartialEq, Eq)]
pub struct ShaderResourceViewDesc {
    pub format: Format,
    pub view_dimension: SrvDimension,
    pub shader4_component_mapping: ShaderComponentMapping,
    pub view: SrvView,
}

impl Default for ShaderResourceViewDesc {
    /// An untyped description of unknown dimension with an all-zero mapping and a zero buffer view.
    fn default() -> (r: Self)
        ensures
            r == (ShaderResourceViewDesc {
                format: Format::Unknown,
                view_dimension: SrvDimension::Unknown,
                shader4_component_mapping: ShaderComponentMapping(0),
                view: SrvView::Buffer(BufferSrv { first_element: 0, num_elements: 0, structure_byte_stride: 0, flags: BufferSrvFlags { bits: 0 } }),
            }),
    {
        ShaderResourceViewDesc {
            format: Format::Unknown,
            view_dimension: SrvDimension::Unknown,
            shader4_component_mapping: ShaderComponentMapping(0),
            view: SrvView::Buffer(BufferSrv::default()),
        }
    }
}

impl ShaderResourceViewDesc {
    /// Replaces the format.
    pub fn with_format(self, format: Format) -> (r: Self)
        ensures
            r == (ShaderResourceViewDesc { format: format, ..self }),
    {
        ShaderResourceViewDesc { format: format, ..self }
    }

    /// As [`Self::with_format`], on the value in place.
    pub fn set_format(&mut self, format: Format) -> (r: &mut Self)
        ensures
            (*r) == (ShaderResourceViewDesc { format: format, ..(*old(self)) }),
            *final(self) == *final(r),
    {
        let v = (*self).with_format(format);
        *self = v;
        self
    }

    /// The format.
    pub fn format(&self) -> (r: Format)
        ensures
            r == self.format,
    {
        self.format
    }

    /// The view dimension.
    pub fn view_dimension(&self) -> (r: SrvDimension)
        ensures
            r == self.view_dimension,
    {
        self.view_dimension
    }

    /// Replaces the shader4 component mapping.
    pub fn with_shader4_component_mapping(self, shader4_component_mapping: ShaderComponentMapping) -> (r: Self)
        ensures
            r == (ShaderResourceViewDesc { shader4_component_mapping: shader4_component_mapping, ..self }),
    {
        ShaderResourceViewDesc { shader4_component_mapping: shader4_component_mapping, ..self }
    }

    /// As [`Self::with_shader4_component_mapping`], on the value in place.
    pub fn set_shader4_component_mapping(&mut self, shader4_component_mapping: ShaderComponentMapping) -> (r: &mut Self)
        ensures
            (*r) == (ShaderResourceViewDesc { shader4_component_mapping: shader4_component_mapping, ..(*old(self)) }),
            *final(self) == *final(r),
    {
        let v = (*self).with_shader4_component_mapping(shader4_component_mapping);
        *self = v;
        self
    }

    /// The shader4 component mapping.
    pub fn shader4_component_mapping(&self) -> (r: ShaderComponentMapping)
        ensures
            r == self.shader4_component_mapping,
    {
        self.shader4_component_mapping
    }

    /// This description made a buffer view of `view`.
    pub open spec fn holding_buffer(self, view: BufferSrv) -> Self {
        ShaderResourceViewDesc { view_dimension: SrvDimension::Buffer, view: SrvView::Buffer(view), ..self }
    }

    /// The buffer view, when the description is tagged and filled as one.
    pub open spec fn buffer_of(self) -> Option<BufferSrv> {
        match (self.view_dimension, self.view) {
            (SrvDimension::Buffer, SrvView::Buffer(d)) => Some(d),
            _ => None,
        }
    }

    /// Makes this a buffer view of `buffer`.
    pub fn new_buffer(self, buffer: &BufferSrv) -> (r: Self)
        ensures
            r == self.holding_buffer(*buffer),
    {
        ShaderResourceViewDesc { view_dimension: SrvDimension::Buffer, view: SrvView::Buffer(*buffer), ..self }
    }

    /// The buffer view, when the description is tagged and filled as one.
    pub fn buffer(&self) -> (r: Option<BufferSrv>)
        ensures
            r == self.buffer_of(),
    {
        match (self.view_dimension, self.view) {
            (SrvDimension::Buffer, SrvView::Buffer(d)) => Some(d),
            _ => None,
        }
    }

    /// This description made a texture 1d view of `view`.
    pub open spec fn holding_texture_1d(self, view: Tex1DSrv) -> Self {
        ShaderResourceViewDesc { view_dimension: SrvDimension::Texture1D, view: SrvView::Texture1D(view), ..self }
    }

    /// The texture 1d view, when the description is tagged and filled as one.
    pub open spec fn texture_1d_of(self) -> Option<Tex1DSrv> {
        match (self.view_dimension, self.view) {
            (SrvDimension::Texture1D, SrvView::Texture1D(d)) => Some(d),
            _ => None,
        }
    }

    /// Makes this a texture 1d view of `texture_1d`.
    pub fn new_texture_1d(self, texture_1d: &Tex1DSrv) -> (r: Self)
        ensures
            r == self.holding_texture_1d(*texture_1d),
    {
        ShaderResourceViewDesc { view_dimension: SrvDimension::Texture1D, view: SrvView::Texture1D(*texture_1d), ..self }
    }

    /// The texture 1d view, when the description is tagged and filled as one.
    pub fn texture_1d(&self) -> (r: Option<Tex1DSrv>)
        ensures
            r == self.texture_1d_of(),
    {
        match (self.view_dimension, self.view) {
            (SrvDimension::Texture1D, SrvView::Texture1D(d)) => Some(d),
            _ => None,
        }
    }

    /// This description made a texture 1d array view of `view`.
    pub open spec fn holding_texture_1d_array(self, view: Tex1DArraySrv) -> Self {
        ShaderResourceViewDesc { view_dimension: SrvDimension::Texture1DArray, view: SrvView::Texture1DArray(view), ..self }
    }

    /// The texture 1d array view, when the description is tagged and filled as one.
    pub open spec fn texture_1d_array_of(self) -> Option<Tex1DArraySrv> {
        match (self.view_dimension, self.view) {
            (SrvDimension::Texture1DArray, SrvView::Texture1DArray(d)) => Some(d),
            _ => None,
        }
    }

    /// Makes this a texture 1d array view of `texture_1d_array`.
    pub fn new_texture_1d_array(self, texture_1d_array: &Tex1DArraySrv) -> (r: Self)
        ensures
            r == self.holding_texture_1d_array(*texture_1d_array),
    {
        ShaderResourceViewDesc { view_dimension: SrvDimension::Texture1DArray, view: SrvView::Texture1DArray(*texture_1d_array), ..self }
    }

    /// The texture 1d array view, when the description is tagged and filled as one.
    pub fn texture_1d_array(&self) -> (r: Option<Tex1DArraySrv>)
        ensures
            r == self.texture_1d_array_of(),
    {
        match (self.view_dimension, self.view) {
            (SrvDimension::Texture1DArray, SrvView::Texture1DArray(d)) => Some(d),
            _ => None,
        }
    }

    /// This description made a texture 2d view of `view`.
    pub open spec fn holding_texture_2d(self, view: Tex2DSrv) -> Self {
        ShaderResourceViewDesc { view_dimension: SrvDimension::Texture2D, view: SrvView::Texture2D(view), ..self }
    }

    /// The texture 2d view, when the description is tagged and filled as one.
    pub open spec fn texture_2d_of(self) -> Option<Tex2DSrv> {
        match (self.view_dimension, self.view) {
            (SrvDimension::Texture2D, SrvView::Texture2D(d)) => Some(d),
            _ => None,
        }
    }

    /// Makes this a texture 2d view of `texture_2d`.
    pub fn new_texture_2d(self, texture_2d: &Tex2DSrv) -> (r: Self)
        ensures
            r == self.holding_texture_2d(*texture_2d),
    {
        ShaderResourceViewDesc { view_dimension: SrvDimension::Texture2D, view: SrvView::Texture2D(*texture_2d), ..self }
    }

    /// The texture 2d view, when the description is tagged and filled as one.
    pub fn texture_2d(&self) -> (r: Option<Tex2DSrv>)
        ensures
            r == self.texture_2d_of(),
    {
        match (self.view_dimension, self.view) {
            (SrvDimension::Texture2D, SrvView::Texture2D(d)) => Some(d),
            _ => None,
        }
    }

    /// This description made a texture 2d array view of `view`.
    pub open spec fn holding_texture_2d_array(self, view: Tex2DArraySrv) -> Self {
        ShaderResourceViewDesc { view_dimension: SrvDimension::Texture2DArray, view: SrvView::Texture2DArray(view), ..self }
    }

    /// The texture 2d array view, when the description is tagged and filled as one.
    pub open spec fn texture_2d_array_of(self) -> Option<Tex2DArraySrv> {
        match (self.view_dimension, self.view) {
            (SrvDimension::Texture2DArray, SrvView::Texture2DArray(d)) => Some(d),
            _ => None,
        }
    }

    /// Makes this a texture 2d array view of `texture_2d_array`.
    pub fn new_texture_2d_array(self, texture_2d_array: &Tex2DArraySrv) -> (r: Self)
        ensures
            r == self.holding_texture_2d_array(*texture_2d_array),
    {
        ShaderResourceViewDesc { view_dimension: SrvDimension::Texture2DArray, view: SrvView::Texture2DArray(*texture_2d_array), ..self }
    }

    /// The texture 2d array view, when the description is tagged and filled as one.
    pub fn texture_2d_array(&self) -> (r: Option<Tex2DArraySrv>)
        ensures
            r == self.texture_2d_array_of(),
    {
        match (self.view_dimension, self.view) {
            (SrvDimension::Texture2DArray, SrvView::Texture2DArray(d)) => Some(d),
            _ => None,
        }
    }

    /// This description made a texture 2d ms view of `view`.
    pub open spec fn holding_texture_2d_ms(self, view: Tex2DMsSrv) -> Self {
        ShaderResourceViewDesc { view_dimension: SrvDimension::Texture2DMs, view: SrvView::Texture2DMs(view), ..self }
    }

    /// The texture 2d ms view, when the description is tagged and filled as one.
    pub open spec fn texture_2d_ms_of(self) -> Option<Tex2DMsSrv> {
        match (self.view_dimension, self.view) {
            (SrvDimension::Texture2DMs, SrvView::Texture2DMs(d)) => Some(d),
            _ => None,
        }
    }

    /// Makes this a texture 2d ms view of `texture_2d_ms`.
    pub fn new_texture_2d_ms(self, texture_2d_ms: &Tex2DMsSrv) -> (r: Self)
        ensures
            r == self.holding_texture_2d_ms(*texture_2d_ms),
    {
        ShaderResourceViewDesc { view_dimension: SrvDimension::Texture2DMs, view: SrvView::Texture2DMs(*texture_2d_ms), ..self }
    }

    /// The texture 2d ms view, when the description is tagged and filled as one.
    pub fn texture_2d_ms(&self) -> (r: Option<Tex2DMsSrv>)
        ensures
            r == self.texture_2d_ms_of(),
    {
        match (self.view_dimension, self.view) {
            (SrvDimension::Texture2DMs, SrvView::Texture2DMs(d)) => Some(d),
            _ => None,
        }
    }

    /// This description made a texture 2d ms array view of `view`.
    pub open spec fn holding_texture_2d_ms_array(self, view: Tex2DMsArraySrv) -> Self {
        ShaderResourceViewDesc { view_dimension: SrvDimension::Texture2DMsArray, view: SrvView::Texture2DMsArray(view), ..self }
    }

    /// The texture 2d ms array view, when the description is tagged and filled as one.
    pub open spec fn texture_2d_ms_array_of(self) -> Option<Tex2DMsArraySrv> {
        match (self.view_dimension, self.view) {
            (SrvDimension::Texture2DMsArray, SrvView::Texture2DMsArray(d)) => Some(d),
            _ => None,
        }
    }

    /// Makes this a texture 2d ms array view of `texture_2d_ms_array`.
    pub fn new_texture_2d_ms_array(self, texture_2d_ms_array: &Tex2DMsArraySrv) -> (r: Self)
        ensures
            r == self.holding_texture_2d_ms_array(*texture_2d_ms_array),
    {
        ShaderResourceViewDesc { view_dimension: SrvDimension::Texture2DMsArray, view: SrvView::Texture2DMsArray(*texture_2d_ms_array), ..self }
    }

    /// The texture 2d ms array view, when the description is tagged and filled as one.
    pub fn texture_2d_ms_array(&self) -> (r: Option<Tex2DMsArraySrv>)
        ensures
            r == self.texture_2d_ms_array_of(),
    {
        match (self.view_dimension, self.view) {
            (SrvDimension::Texture2DMsArray, SrvView::Texture2DMsArray(d)) => Some(d),
            _ => None,
        }
    }

    /// This description made a texture 3d view of `view`.
    pub open spec fn holding_texture_3d(self, view: Tex3DSrv) -> Self {
        ShaderResourceViewDesc { view_dimension: SrvDimension::Texture3D, view: SrvView::Texture3D(view), ..self }
    }

    /// The texture 3d view, when the description is tagged and filled as one.
    pub open spec fn texture_3d_of(self) -> Option<Tex3DSrv> {
        match (self.view_dimension, self.view) {
            (SrvDimension::Texture3D, SrvView::Texture3D(d)) => Some(d),
            _ => None,
        }
    }

    /// Makes this a texture 3d view of `texture_3d`.
    pub fn new_texture_3d(self, texture_3d: &Tex3DSrv) -> (r: Self)
        ensures
            r == self.holding_texture_3d(*texture_3d),
    {
        ShaderResourceViewDesc { view_dimension: SrvDimension::Texture3D, view: SrvView::Texture3D(*texture_3d), ..self }
    }

    /// The texture 3d view, when the description is tagged and filled as one.
    pub fn texture_3d(&self) -> (r: Option<Tex3DSrv>)
        ensures
            r == self.texture_3d_of(),
    {
        match (self.view_dimension, self.view) {
            (SrvDimension::Texture3D, SrvView::Texture3D(d)) => Some(d),
            _ => None,
        }
    }

    /// This description made a texture cube view of `view`.
    pub open spec fn holding_texture_cube(self, view: TexcubeSrv) -> Self {
        ShaderResourceViewDesc { view_dimension: SrvDimension::TextureCube, view: SrvView::TextureCube(view), ..self }
    }

    /// The texture cube view, when the description is tagged and filled as one.
    pub open spec fn texture_cube_of(self) -> Option<TexcubeSrv> {
        match (self.view_dimension, self.view) {
            (SrvDimension::TextureCube, SrvView::TextureCube(d)) => Some(d),
            _ => None,
        }
    }

    /// Makes this a texture cube view of `texture_cube`.
    pub fn new_texture_cube(self, texture_cube: &TexcubeSrv) -> (r: Self)
        ensures
            r == self.holding_texture_cube(*texture_cube),
    {
        ShaderResourceViewDesc { view_dimension: SrvDimension::TextureCube, view: SrvView::TextureCube(*texture_cube), ..self }
    }

    /// The texture cube view, when the description is tagged and filled as one.
    pub fn texture_cube(&self) -> (r: Option<TexcubeSrv>)
        ensures
            r == self.texture_cube_of(),
    {
        match (self.view_dimension, self.view) {
            (SrvDimension::TextureCube, SrvView::TextureCube(d)) => Some(d),
            _ => None,
        }
    }

    /// This description made a texture cube array view of `view`.
    pub open spec fn holding_texture_cube_array(self, view: TexcubeArraySrv) -> Self {
        ShaderResourceViewDesc { view_dimension: SrvDimension::TextureCubeArray, view: SrvView::TextureCubeArray(view), ..self }
    }

    /// The texture cube array view, when the description is tagged and filled as one.
    pub open spec fn texture_cube_array_of(self) -> Option<TexcubeArraySrv> {
        match (self.view_dimension, self.view) {
            (SrvDimension::TextureCubeArray, SrvView::TextureCubeArray(d)) => Some(d),
            _ => None,
        }
    }

    /// Makes this a texture cube array view of `texture_cube_array`.
    pub fn new_texture_cube_array(self, texture_cube_array: &TexcubeArraySrv) -> (r: Self)
        ensures
            r == self.holding_texture_cube_array(*texture_cube_array),
    {
        ShaderResourceViewDesc { view_dimension: SrvDimension::TextureCubeArray, view: SrvView::TextureCubeArray(*texture_cube_array), ..self }
    }

    /// The texture cube array view, when the description is tagged and filled as one.
    pub fn texture_cube_array(&self) -> (r: Option<TexcubeArraySrv>)
        ensures
            r == self.texture_cube_array_of(),
    {
        match (self.view_dimension, self.view) {
            (SrvDimension::TextureCubeArray, SrvView::TextureCubeArray(d)) => Some(d),
            _ => None,
        }
    }

    /// This description made a raytracing acceleration structure view of `view`.
    pub open spec fn holding_raytracing_acceleration_structure(self, view: RaytracingAccelerationStructureSrv) -> Self {
        ShaderResourceViewDesc { view_dimension: SrvDimension::RaytracingAccelerationStructure, view: SrvView::RaytracingAccelerationStructure(view), ..self }
    }

    /// The raytracing acceleration structure view, when the description is tagged and filled as one.
    pub open spec fn raytracing_acceleration_structure_of(self) -> Option<RaytracingAccelerationStructureSrv> {
        match (self.view_dimension, self.view) {
            (SrvDimension::RaytracingAccelerationStructure, SrvView::RaytracingAccelerationStructure(d)) => Some(d),
            _ => None,
        }
    }

    /// Makes this a raytracing acceleration structure view of `raytracing_acceleration_structure`.
    pub fn new_raytracing_acceleration_structure(self, raytracing_acceleration_structure: &RaytracingAccelerationStructureSrv) -> (r: Self)
        ensures
            r == self.holding_raytracing_acceleration_structure(*raytracing_acceleration_structure),
    {
        ShaderResourceViewDesc { view_dimension: SrvDimension::RaytracingAccelerationStructure, view: SrvView::RaytracingAccelerationStructure(*raytracing_acceleration_structure), ..self }
    }

    /// The raytracing acceleration structure view, when the description is tagged and filled as one.
    pub fn raytracing_acceleration_structure(&self) -> (r: Option<RaytracingAccelerationStructureSrv>)
        ensures
            r == self.raytracing_acceleration_structure_of(),
    {
        match (self.view_dimension, self.view) {
            (SrvDimension::RaytracingAccelerationStructure, SrvView::RaytracingAccelerationStructure(d)) => Some(d),
            _ => None,
        }
    }
}

/// A view description made of one kind reads back, with the matching dimension tag, the
/// view it was made of.
pub proof fn lemma_srv_views(desc: ShaderResourceViewDesc, buffer: BufferSrv, texture_1d: Tex1DSrv, texture_1d_array: Tex1DArraySrv, texture_2d: Tex2DSrv, texture_2d_array: Tex2DArraySrv, texture_2d_ms: Tex2DMsSrv, texture_2d_ms_array: Tex2DMsArraySrv, texture_3d: Tex3DSrv, texture_cube: TexcubeSrv, texture_cube_array: TexcubeArraySrv, raytracing_acceleration_structure: RaytracingAccelerationStructureSrv)
    ensures
        desc.holding_buffer(buffer).buffer_of() == Some(buffer),
        desc.holding_buffer(buffer).view_dimension == SrvDimension::Buffer,
        desc.holding_texture_1d(texture_1d).texture_1d_of() == Some(texture_1d),
        desc.holding_texture_1d(texture_1d).view_dimension == SrvDimension::Texture1D,
        desc.holding_texture_1d_array(texture_1d_array).texture_1d_array_of() == Some(texture_1d_array),
        desc.holding_texture_1d_array(texture_1d_array).view_dimension == SrvDimension::Texture1DArray,
        desc.holding_texture_2d(texture_2d).texture_2d_of() == Some(texture_2d),
        desc.holding_texture_2d(texture_2d).view_dimension == SrvDimension::Texture2D,
        desc.holding_texture_2d_array(texture_2d_array).texture_2d_array_of() == Some(texture_2d_array),
        desc.holding_texture_2d_array(texture_2d_array).view_dimension == SrvDimension::Texture2DArray,
        desc.holding_texture_2d_ms(texture_2d_ms).texture_2d_ms_of() == Some(texture_2d_ms),
        desc.holding_texture_2d_ms(texture_2d_ms).view_dimension == SrvDimension::Texture2DMs,
        desc.holding_texture_2d_ms_array(texture_2d_ms_array).texture_2d_ms_array_of() == Some(texture_2d_ms_array),
        desc.holding_texture_2d_ms_array(texture_2d_ms_array).view_dimension == SrvDimension::Texture2DMsArray,
        desc.holding_texture_3d(texture_3d).texture_3d_of() == Some(texture_3d),
        desc.holding_texture_3d(texture_3d).view_dimension == SrvDimension::Texture3D,
        desc.holding_texture_cube(texture_cube).texture_cube_of() == Some(texture_cube),
        desc.holding_texture_cube(texture_cube).view_dimension == SrvDimension::TextureCube,
        desc.holding_texture_cube_array(texture_cube_array).texture_cube_array_of() == Some(texture_cube_array),
        desc.holding_texture_cube_array(texture_cube_array).view_dimension == SrvDimension::TextureCubeArray,
        desc.holding_raytracing_acceleration_structure(raytracing_acceleration_structure).raytracing_acceleration_structure_of() == Some(raytracing_acceleration_structure),
        desc.holding_raytracing_acceleration_structure(raytracing_acceleration_structure).view_dimension == SrvDimension::RaytracingAccelerationStructure,
{
}

} // verus!
