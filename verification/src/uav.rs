//! Unordered-access views.

use vstd::prelude::*;

use crate::enums::{BufferUavFlags, Format, UavDimension};
use crate::utils::ByteCount;

verus! {

/// A buffer seen through an unordered access view (`D3D12_BUFFER_UAV`).
#[derive(Clone, Copy, Debug, PartialEq, Eq)]
pub struct BufferUav {
    pub first_element: u64,
    pub num_elements: u32,
    pub structure_byte_stride: u32,
    pub counter_offset_in_bytes: u64,
    pub flags: BufferUavFlags,
}

impl Default for BufferUav {
    /// All zero.
    fn default() -> (r: Self)
        ensures
            r == (BufferUav {
                first_element: 0,
                num_elements: 0,
                structure_byte_stride: 0,
                counter_offset_in_bytes: 0,
                flags: (BufferUavFlags { bits: 0 }),
            }),
    {
        BufferUav {
            first_element: 0,
            num_elements: 0,
            structure_byte_stride: 0,
            counter_offset_in_bytes: 0,
            flags: BufferUavFlags::empty(),
        }
    }
}

impl BufferUav {
    /// Replaces the first element.
    pub fn with_first_element(self, first_element: u64) -> (r: Self)
        ensures
            r == (BufferUav { first_element: first_element, ..self }),
    {
        BufferUav { first_element: first_element, ..self }
    }

    /// As [`Self::with_first_element`], on the value in place.
    pub fn set_first_element(&mut self, first_element: u64) -> (r: &mut Self)
        ensures
            (*r) == (BufferUav { first_element: first_element, ..(*old(self)) }),
            *final(self) == *final(r),
    {
        let v = (*self).with_first_element(first_element);
        *self = v;
        self
    }

    /// The first element.
    pub fn first_element(&self) -> (r: u64)
        ensures
            r == self.first_element,
    {
        self.first_element
    }

    /// Replaces the num elements.
    pub fn with_num_elements(self, num_elements: u32) -> (r: Self)
        ensures
            r == (BufferUav { num_elements: num_elements, ..self }),
    {
        BufferUav { num_elements: num_elements, ..self }
    }

    /// As [`Self::with_num_elements`], on the value in place.
    pub fn set_num_elements(&mut self, num_elements: u32) -> (r: &mut Self)
        ensures
            (*r) == (BufferUav { num_elements: num_elements, ..(*old(self)) }),
            *final(self) == *final(r),
    {
        let v = (*self).with_num_elements(num_elements);
        *self = v;
        self
    }

    /// The num elements.
    pub fn num_elements(&self) -> (r: u32)
        ensures
            r == self.num_elements,
    {
        self.num_elements
    }

    /// Replaces the structure byte stride.
    pub fn with_structure_byte_stride(self, structure_byte_stride: ByteCount) -> (r: Self)
        ensures
            r == (BufferUav { structure_byte_stride: structure_byte_stride.0 as u32, ..self }),
    {
        BufferUav { structure_byte_stride: structure_byte_stride.0 as u32, ..self }
    }

    /// As [`Self::with_structure_byte_stride`], on the value in place.
    pub fn set_structure_byte_stride(&mut self, structure_byte_stride: ByteCount) -> (r: &mut Self)
        ensures
            (*r) == (BufferUav { structure_byte_stride: structure_byte_stride.0 as u32, ..(*old(self)) }),
            *final(self) == *final(r),
    {
        let v = (*self).with_structure_byte_stride(structure_byte_stride);
        *self = v;
        self
    }

    /// The structure byte stride.
    pub fn structure_byte_stride(&self) -> (r: ByteCount)
        ensures
            r == ByteCount(self.structure_byte_stride as u64),
    {
        ByteCount(self.structure_byte_stride as u64)
    }

    /// Replaces the counter offset in bytes.
    pub fn with_counter_offset_in_bytes(self, counter_offset_in_bytes: ByteCount) -> (r: Self)
        ensures
            r == (BufferUav { counter_offset_in_bytes: counter_offset_in_bytes.0, ..self }),
    {
        BufferUav { counter_offset_in_bytes: counter_offset_in_bytes.0, ..self }
    }

    /// As [`Self::with_counter_offset_in_bytes`], on the value in place.
    pub fn set_counter_offset_in_bytes(&mut self, counter_offset_in_bytes: ByteCount) -> (r: &mut Self)
        ensures
            (*r) == (BufferUav { counter_offset_in_bytes: counter_offset_in_bytes.0, ..(*old(self)) }),
            *final(self) == *final(r),
    {
        let v = (*self).with_counter_offset_in_bytes(counter_offset_in_bytes);
        *self = v;
        self
    }

    /// The counter offset in bytes.
    pub fn counter_offset_in_bytes(&self) -> (r: ByteCount)
        ensures
            r == ByteCount(self.counter_offset_in_bytes),
    {
        ByteCount(self.counter_offset_in_bytes)
    }

    /// Replaces the flags.
    pub fn with_flags(self, flags: BufferUavFlags) -> (r: Self)
        ensures
            r == (BufferUav { flags: flags, ..self }),
    {
        BufferUav { flags: flags, ..self }
    }

    /// As [`Self::with_flags`], on the value in place.
    pub fn set_flags(&mut self, flags: BufferUavFlags) -> (r: &mut Self)
        ensures
            (*r) == (BufferUav { flags: flags, ..(*old(self)) }),
            *final(self) == *final(r),
    {
        let v = (*self).with_flags(flags);
        *self = v;
        self
    }

    /// The flags.
    pub fn flags(&self) -> (r: BufferUavFlags)
        ensures
            r == self.flags,
    {
        self.flags
    }
}

/// A 1D texture seen through an unordered access view (`D3D12_TEX1D_UAV`).
#[derive(Clone, Copy, Debug, PartialEq, Eq)]
pub struct Tex1DUav {
    pub mip_slice: u32,
}

impl Default for Tex1DUav {
    /// All zero.
    fn default() -> (r: Self)
        ensures
            r == (Tex1DUav {
                mip_slice: 0,
            }),
    {
        Tex1DUav {
            mip_slice: 0,
        }
    }
}

impl Tex1DUav {
    /// Replaces the mip slice.
    pub fn with_mip_slice(self, mip_slice: u32) -> (r: Self)
        ensures
            r == (Tex1DUav { mip_slice: mip_slice, ..self }),
    {
        Tex1DUav { mip_slice: mip_slice, ..self }
    }

    /// As [`Self::with_mip_slice`], on the value in place.
    pub fn set_mip_slice(&mut self, mip_slice: u32) -> (r: &mut Self)
        ensures
            (*r) == (Tex1DUav { mip_slice: mip_slice, ..(*old(self)) }),
            *final(self) == *final(r),
    {
        let v = (*self).with_mip_slice(mip_slice);
        *self = v;
        self
    }

    /// The mip slice.
    pub fn mip_slice(&self) -> (r: u32)
        ensures
            r == self.mip_slice,
    {
        self.mip_slice
    }
}

/// A 1D texture array seen through an unordered access view (`D3D12_TEX1D_ARRAY_UAV`).
#[derive(Clone, Copy, Debug, PartialEq, Eq)]
pub struct Tex1DArrayUav {
    pub mip_slice: u32,
    pub first_array_slice: u32,
    pub array_size: u32,
}

impl Default for Tex1DArrayUav {
    /// All zero.
    fn default() -> (r: Self)
        ensures
            r == (Tex1DArrayUav {
                mip_slice: 0,
                first_array_slice: 0,
                array_size: 0,
            }),
    {
        Tex1DArrayUav {
            mip_slice: 0,
            first_array_slice: 0,
            array_size: 0,
        }
    }
}

impl Tex1DArrayUav {
    /// Replaces the mip slice.
    pub fn with_mip_slice(self, mip_slice: u32) -> (r: Self)
        ensures
            r == (Tex1DArrayUav { mip_slice: mip_slice, ..self }),
    {
        Tex1DArrayUav { mip_slice: mip_slice, ..self }
    }

    /// As [`Self::with_mip_slice`], on the value in place.
    pub fn set_mip_slice(&mut self, mip_slice: u32) -> (r: &mut Self)
        ensures
            (*r) == (Tex1DArrayUav { mip_slice: mip_slice, ..(*old(self)) }),
            *final(self) == *final(r),
    {
        let v = (*self).with_mip_slice(mip_slice);
        *self = v;
        self
    }

    /// The mip slice.
    pub fn mip_slice(&self) -> (r: u32)
        ensures
            r == self.mip_slice,
    {
        self.mip_slice
    }

    /// Replaces the first array slice.
    pub fn with_first_array_slice(self, first_array_slice: u32) -> (r: Self)
        ensures
            r == (Tex1DArrayUav { first_array_slice: first_array_slice, ..self }),
    {
        Tex1DArrayUav { first_array_slice: first_array_slice, ..self }
    }

    /// As [`Self::with_first_array_slice`], on the value in place.
    pub fn set_first_array_slice(&mut self, first_array_slice: u32) -> (r: &mut Self)
        ensures
            (*r) == (Tex1DArrayUav { first_array_slice: first_array_slice, ..(*old(self)) }),
            *final(self) == *final(r),
    {
        let v = (*self).with_first_array_slice(first_array_slice);
        *self = v;
        self
    }

    /// The first array slice.
    pub fn first_array_slice(&self) -> (r: u32)
        ensures
            r == self.first_array_slice,
    {
        self.first_array_slice
    }

    /// Replaces the array size.
    pub fn with_array_size(self, array_size: u32) -> (r: Self)
        ensures
            r == (Tex1DArrayUav { array_size: array_size, ..self }),
    {
        Tex1DArrayUav { array_size: array_size, ..self }
    }

    /// As [`Self::with_array_size`], on the value in place.
    pub fn set_array_size(&mut self, array_size: u32) -> (r: &mut Self)
        ensures
            (*r) == (Tex1DArrayUav { array_size: array_size, ..(*old(self)) }),
            *final(self) == *final(r),
    {
        let v = (*self).with_array_size(array_size);
        *self = v;
        self
    }

    /// The array size.
    pub fn array_size(&self) -> (r: u32)
        ensures
            r == self.array_size,
    {
        self.array_size
    }
}

/// A 2D texture seen through an unordered access view (`D3D12_TEX2D_UAV`).
#[derive(Clone, Copy, Debug, PartialEq, Eq)]
pub struct Tex2DUav {
    pub mip_slice: u32,
    pub plane_slice: u32,
}

impl Default for Tex2DUav {
    /// All zero.
    fn default() -> (r: Self)
        ensures
            r == (Tex2DUav {
                mip_slice: 0,
                plane_slice: 0,
            }),
    {
        Tex2DUav {
            mip_slice: 0,
            plane_slice: 0,
        }
    }
}

impl Tex2DUav {
    /// Replaces the mip slice.
    pub fn with_mip_slice(self, mip_slice: u32) -> (r: Self)
        ensures
            r == (Tex2DUav { mip_slice: mip_slice, ..self }),
    {
        Tex2DUav { mip_slice: mip_slice, ..self }
    }

    /// As [`Self::with_mip_slice`], on the value in place.
    pub fn set_mip_slice(&mut self, mip_slice: u32) -> (r: &mut Self)
        ensures
            (*r) == (Tex2DUav { mip_slice: mip_slice, ..(*old(self)) }),
            *final(self) == *final(r),
    {
        let v = (*self).with_mip_slice(mip_slice);
        *self = v;
        self
    }

    /// The mip slice.
    pub fn mip_slice(&self) -> (r: u32)
        ensures
            r == self.mip_slice,
    {
        self.mip_slice
    }

    /// Replaces the plane slice.
    pub fn with_plane_slice(self, plane_slice: u32) -> (r: Self)
        ensures
            r == (Tex2DUav { plane_slice: plane_slice, ..self }),
    {
        Tex2DUav { plane_slice: plane_slice, ..self }
    }

    /// As [`Self::with_plane_slice`], on the value in place.
    pub fn set_plane_slice(&mut self, plane_slice: u32) -> (r: &mut Self)
        ensures
            (*r) == (Tex2DUav { plane_slice: plane_slice, ..(*old(self)) }),
            *final(self) == *final(r),
    {
        let v = (*self).with_plane_slice(plane_slice);
        *self = v;
        self
    }

    /// The plane slice.
    pub fn plane_slice(&self) -> (r: u32)
        ensures
            r == self.plane_slice,
    {
        self.plane_slice
    }
}

/// A 2D texture array seen through an unordered access view (`D3D12_TEX2D_ARRAY_UAV`).
#[derive(Clone, Copy, Debug, PartialEq, Eq)]
pub struct Tex2DArrayUav {
    pub mip_slice: u32,
    pub first_array_slice: u32,
    pub array_size: u32,
    pub plane_slice: u32,
}

impl Default for Tex2DArrayUav {
    /// All zero.
    fn default() -> (r: Self)
        ensures
            r == (Tex2DArrayUav {
                mip_slice: 0,
                first_array_slice: 0,
                array_size: 0,
                plane_slice: 0,
            }),
    {
        Tex2DArrayUav {
            mip_slice: 0,
            first_array_slice: 0,
            array_size: 0,
            plane_slice: 0,
        }
    }
}

impl Tex2DArrayUav {
    /// Replaces the mip slice.
    pub fn with_mip_slice(self, mip_slice: u32) -> (r: Self)
        ensures
            r == (Tex2DArrayUav { mip_slice: mip_slice, ..self }),
    {
        Tex2DArrayUav { mip_slice: mip_slice, ..self }
    }

    /// As [`Self::with_mip_slice`], on the value in place.
    pub fn set_mip_slice(&mut self, mip_slice: u32) -> (r: &mut Self)
        ensures
            (*r) == (Tex2DArrayUav { mip_slice: mip_slice, ..(*old(self)) }),
            *final(self) == *final(r),
    {
        let v = (*self).with_mip_slice(mip_slice);
        *self = v;
        self
    }

    /// The mip slice.
    pub fn mip_slice(&self) -> (r: u32)
        ensures
            r == self.mip_slice,
    {
        self.mip_slice
    }

    /// Replaces the first array slice.
    pub fn with_first_array_slice(self, first_array_slice: u32) -> (r: Self)
        ensures
            r == (Tex2DArrayUav { first_array_slice: first_array_slice, ..self }),
    {
        Tex2DArrayUav { first_array_slice: first_array_slice, ..self }
    }

    /// As [`Self::with_first_array_slice`], on the value in place.
    pub fn set_first_array_slice(&mut self, first_array_slice: u32) -> (r: &mut Self)
        ensures
            (*r) == (Tex2DArrayUav { first_array_slice: first_array_slice, ..(*old(self)) }),
            *final(self) == *final(r),
    {
        let v = (*self).with_first_array_slice(first_array_slice);
        *self = v;
        self
    }

    /// The first array slice.
    pub fn first_array_slice(&self) -> (r: u32)
        ensures
            r == self.first_array_slice,
    {
        self.first_array_slice
    }

    /// Replaces the array size.
    pub fn with_array_size(self, array_size: u32) -> (r: Self)
        ensures
            r == (Tex2DArrayUav { array_size: array_size, ..self }),
    {
        Tex2DArrayUav { array_size: array_size, ..self }
    }

    /// As [`Self::with_array_size`], on the value in place.
    pub fn set_array_size(&mut self, array_size: u32) -> (r: &mut Self)
        ensures
            (*r) == (Tex2DArrayUav { array_size: array_size, ..(*old(self)) }),
            *final(self) == *final(r),
    {
        let v = (*self).with_array_size(array_size);
        *self = v;
        self
    }

    /// The array size.
    pub fn array_size(&self) -> (r: u32)
        ensures
            r == self.array_size,
    {
        self.array_size
    }

    /// Replaces the plane slice.
    pub fn with_plane_slice(self, plane_slice: u32) -> (r: Self)
        ensures
            r == (Tex2DArrayUav { plane_slice: plane_slice, ..self }),
    {
        Tex2DArrayUav { plane_slice: plane_slice, ..self }
    }

    /// As [`Self::with_plane_slice`], on the value in place.
    pub fn set_plane_slice(&mut self, plane_slice: u32) -> (r: &mut Self)
        ensures
            (*r) == (Tex2DArrayUav { plane_slice: plane_slice, ..(*old(self)) }),
            *final(self) == *final(r),
    {
        let v = (*self).with_plane_slice(plane_slice);
        *self = v;
        self
    }

    /// The plane slice.
    pub fn plane_slice(&self) -> (r: u32)
        ensures
            r == self.plane_slice,
    {
        self.plane_slice
    }
}

/// A 3D texture seen through an unordered access view (`D3D12_TEX3D_UAV`).
#[derive(Clone, Copy, Debug, PartialEq, Eq)]
pub struct Tex3DUav {
    pub mip_slice: u32,
    pub first_w_slice: u32,
    pub w_size: u32,
}

impl Default for Tex3DUav {
    /// All zero.
    fn default() -> (r: Self)
        ensures
            r == (Tex3DUav {
                mip_slice: 0,
                first_w_slice: 0,
                w_size: 0,
            }),
    {
        Tex3DUav {
            mip_slice: 0,
            first_w_slice: 0,
            w_size: 0,
        }
    }
}

impl Tex3DUav {
    /// Replaces the mip slice.
    pub fn with_mip_slice(self, mip_slice: u32) -> (r: Self)
        ensures
            r == (Tex3DUav { mip_slice: mip_slice, ..self }),
    {
        Tex3DUav { mip_slice: mip_slice, ..self }
    }

    /// As [`Self::with_mip_slice`], on the value in place.
    pub fn set_mip_slice(&mut self, mip_slice: u32) -> (r: &mut Self)
        ensures
            (*r) == (Tex3DUav { mip_slice: mip_slice, ..(*old(self)) }),
            *final(self) == *final(r),
    {
        let v = (*self).with_mip_slice(mip_slice);
        *self = v;
        self
    }

    /// The mip slice.
    pub fn mip_slice(&self) -> (r: u32)
        ensures
            r == self.mip_slice,
    {
        self.mip_slice
    }

    /// Replaces the first w slice.
    pub fn with_first_w_slice(self, first_w_slice: u32) -> (r: Self)
        ensures
            r == (Tex3DUav { first_w_slice: first_w_slice, ..self }),
    {
        Tex3DUav { first_w_slice: first_w_slice, ..self }
    }

    /// As [`Self::with_first_w_slice`], on the value in place.
    pub fn set_first_w_slice(&mut self, first_w_slice: u32) -> (r: &mut Self)
        ensures
            (*r) == (Tex3DUav { first_w_slice: first_w_slice, ..(*old(self)) }),
            *final(self) == *final(r),
    {
        let v = (*self).with_first_w_slice(first_w_slice);
        *self = v;
        self
    }

    /// The first w slice.
    pub fn first_w_slice(&self) -> (r: u32)
        ensures
            r == self.first_w_slice,
    {
        self.first_w_slice
    }

    /// Replaces the w size.
    pub fn with_w_size(self, w_size: u32) -> (r: Self)
        ensures
            r == (Tex3DUav { w_size: w_size, ..self }),
    {
        Tex3DUav { w_size: w_size, ..self }
    }

    /// As [`Self::with_w_size`], on the value in place.
    pub fn set_w_size(&mut self, w_size: u32) -> (r: &mut Self)
        ensures
            (*r) == (Tex3DUav { w_size: w_size, ..(*old(self)) }),
            *final(self) == *final(r),
    {
        let v = (*self).with_w_size(w_size);
        *self = v;
        self
    }

    /// The w size.
    pub fn w_size(&self) -> (r: u32)
        ensures
            r == self.w_size,
    {
        self.w_size
    }
}

/// The dimension-specific part of an unordered access view description (`D3D12_UNORDERED_ACCESS_VIEW_DESC`'s union).
#[derive(Clone, Copy, Debug, PartialEq, Eq)]
pub enum UavView {
    Buffer(BufferUav),
    Texture1D(Tex1DUav),
    Texture1DArray(Tex1DArrayUav),
    Texture2D(Tex2DUav),
    Texture2DArray(Tex2DArrayUav),
    Texture3D(Tex3DUav),
}

/// Description of an unordered access view (`D3D12_UNORDERED_ACCESS_VIEW_DESC`): format, dimension tag and view.
#[derive(Clone, Copy, Debug, PartialEq, Eq)]
pub struct UnorderedAccessViewDesc {
    pub format: Format,
    pub view_dimension: UavDimension,
    pub view: UavView,
}

impl Default for UnorderedAccessViewDesc {
    /// An untyped description of unknown dimension with a zero buffer view.
    fn default() -> (r: Self)
        ensures
            r == (UnorderedAccessViewDesc {
                format: Format::Unknown,
                view_dimension: UavDimension::Unknown,
                view: UavView::Buffer(BufferUav { first_element: 0, num_elements: 0, structure_byte_stride: 0, counter_offset_in_bytes: 0, flags: BufferUavFlags { bits: 0 } }),
            }),
    {
        UnorderedAccessViewDesc {
            format: Format::Unknown,
            view_dimension: UavDimension::Unknown,
            view: UavView::Buffer(BufferUav::default()),
        }
    }
}

impl UnorderedAccessViewDesc {
    /// Replaces the format.
    pub fn with_format(self, format: Format) -> (r: Self)
        ensures
            r == (UnorderedAccessViewDesc { format: format, ..self }),
    {
        UnorderedAccessViewDesc { format: format, ..self }
    }

    /// As [`Self::with_format`], on the value in place.
    pub fn set_format(&mut self, format: Format) -> (r: &mut Self)
        ensures
            (*r) == (UnorderedAccessViewDesc { format: format, ..(*old(self)) }),
            *final(self) == *final(r),
    {
        let v = (*self).with_format(format);
        *self = v;
        self
    }

    /// The format.
    pub fn format(&self) -> (r: Format)
        ensures
            r == self.format,
    {
        self.format
    }

    /// The view dimension.
    pub fn view_dimension(&self) -> (r: UavDimension)
        ensures
            r == self.view_dimension,
    {
        self.view_dimension
    }

    /// This description made a buffer view of `view`.
    pub open spec fn holding_buffer(self, view: BufferUav) -> Self {
        UnorderedAccessViewDesc { view_dimension: UavDimension::Buffer, view: UavView::Buffer(view), ..self }
    }

    /// The buffer view, when the description is tagged and filled as one.
    pub open spec fn buffer_of(self) -> Option<BufferUav> {
        match (self.view_dimension, self.view) {
            (UavDimension::Buffer, UavView::Buffer(d)) => Some(d),
            _ => None,
        }
    }

    /// Makes this a buffer view of `buffer`.
    pub fn new_buffer(self, buffer: &BufferUav) -> (r: Self)
        ensures
            r == self.holding_buffer(*buffer),
    {
        UnorderedAccessViewDesc { view_dimension: UavDimension::Buffer, view: UavView::Buffer(*buffer), ..self }
    }

    /// The buffer view, when the description is tagged and filled as one.
    pub fn buffer(&self) -> (r: Option<BufferUav>)
        ensures
            r == self.buffer_of(),
    {
        match (self.view_dimension, self.view) {
            (UavDimension::Buffer, UavView::Buffer(d)) => Some(d),
            _ => None,
        }
    }

    /// This description made a texture 1d view of `view`.
    pub open spec fn holding_texture_1d(self, view: Tex1DUav) -> Self {
        UnorderedAccessViewDesc { view_dimension: UavDimension::Texture1D, view: UavView::Texture1D(view), ..self }
    }

    /// The texture 1d view, when the description is tagged and filled as one.
    pub open spec fn texture_1d_of(self) -> Option<Tex1DUav> {
        match (self.view_dimension, self.view) {
            (UavDimension::Texture1D, UavView::Texture1D(d)) => Some(d),
            _ => None,
        }
    }

    /// Makes this a texture 1d view of `texture_1d`.
    pub fn new_texture_1d(self, texture_1d: &Tex1DUav) -> (r: Self)
        ensures
            r == self.holding_texture_1d(*texture_1d),
    {
        UnorderedAccessViewDesc { view_dimension: UavDimension::Texture1D, view: UavView::Texture1D(*texture_1d), ..self }
    }

    /// The texture 1d view, when the description is tagged and filled as one.
    pub fn texture_1d(&self) -> (r: Option<Tex1DUav>)
        ensures
            r == self.texture_1d_of(),
    {
        match (self.view_dimension, self.view) {
            (UavDimension::Texture1D, UavView::Texture1D(d)) => Some(d),
            _ => None,
        }
    }

    /// This description made a texture 1d array view of `view`.
    pub open spec fn holding_texture_1d_array(self, view: Tex1DArrayUav) -> Self {
        UnorderedAccessViewDesc { view_dimension: UavDimension::Texture1DArray, view: UavView::Texture1DArray(view), ..self }
    }

    /// The texture 1d array view, when the description is tagged and filled as one.
    pub open spec fn texture_1d_array_of(self) -> Option<Tex1DArrayUav> {
        match (self.view_dimension, self.view) {
            (UavDimension::Texture1DArray, UavView::Texture1DArray(d)) => Some(d),
            _ => None,
        }
    }

    /// Makes this a texture 1d array view of `texture_1d_array`.
    pub fn new_texture_1d_array(self, texture_1d_array: &Tex1DArrayUav) -> (r: Self)
        ensures
            r == self.holding_texture_1d_array(*texture_1d_array),
    {
        UnorderedAccessViewDesc { view_dimension: UavDimension::Texture1DArray, view: UavView::Texture1DArray(*texture_1d_array), ..self }
    }

    /// The texture 1d array view, when the description is tagged and filled as one.
    pub fn texture_1d_array(&self) -> (r: Option<Tex1DArrayUav>)
        ensures
            r == self.texture_1d_array_of(),
    {
        match (self.view_dimension, self.view) {
            (UavDimension::Texture1DArray, UavView::Texture1DArray(d)) => Some(d),
            _ => None,
        }
    }

    /// This description made a texture 2d view of `view`.
    pub open spec fn holding_texture_2d(self, view: Tex2DUav) -> Self {
        UnorderedAccessViewDesc { view_dimension: UavDimension::Texture2D, view: UavView::Texture2D(view), ..self }
    }

    /// The texture 2d view, when the description is tagged and filled as one.
    pub open spec fn texture_2d_of(self) -> Option<Tex2DUav> {
        match (self.view_dimension, self.view) {
            (UavDimension::Texture2D, UavView::Texture2D(d)) => Some(d),
            _ => None,
        }
    }

    /// Makes this a texture 2d view of `texture_2d`.
    pub fn new_texture_2d(self, texture_2d: &Tex2DUav) -> (r: Self)
        ensures
            r == self.holding_texture_2d(*texture_2d),
    {
        UnorderedAccessViewDesc { view_dimension: UavDimension::Texture2D, view: UavView::Texture2D(*texture_2d), ..self }
    }

    /// The texture 2d view, when the description is tagged and filled as one.
    pub fn texture_2d(&self) -> (r: Option<Tex2DUav>)
        ensures
            r == self.texture_2d_of(),
    {
        match (self.view_dimension, self.view) {
            (UavDimension::Texture2D, UavView::Texture2D(d)) => Some(d),
            _ => None,
        }
    }

    /// This description made a texture 2d array view of `view`.
    pub open spec fn holding_texture_2d_array(self, view: Tex2DArrayUav) -> Self {
        UnorderedAccessViewDesc { view_dimension: UavDimension::Texture2DArray, view: UavView::Texture2DArray(view), ..self }
    }

    /// The texture 2d array view, when the description is tagged and filled as one.
    pub open spec fn texture_2d_array_of(self) -> Option<Tex2DArrayUav> {
        match (self.view_dimension, self.view) {
            (UavDimension::Texture2DArray, UavView::Texture2DArray(d)) => Some(d),
            _ => None,
        }
    }

    /// Makes this a texture 2d array view of `texture_2d_array`.
    pub fn new_texture_2d_array(self, texture_2d_array: &Tex2DArrayUav) -> (r: Self)
        ensures
            r == self.holding_texture_2d_array(*texture_2d_array),
    {
        UnorderedAccessViewDesc { view_dimension: UavDimension::Texture2DArray, view: UavView::Texture2DArray(*texture_2d_array), ..self }
    }

    /// The texture 2d array view, when the description is tagged and filled as one.
    pub fn texture_2d_array(&self) -> (r: Option<Tex2DArrayUav>)
        ensures
            r == self.texture_2d_array_of(),
    {
        match (self.view_dimension, self.view) {
            (UavDimension::Texture2DArray, UavView::Texture2DArray(d)) => Some(d),
            _ => None,
        }
    }

    /// This description made a texture 3d view of `view`.
    pub open spec fn holding_texture_3d(self, view: Tex3DUav) -> Self {
        UnorderedAccessViewDesc { view_dimension: UavDimension::Texture3D, view: UavView::Texture3D(view), ..self }
    }

    /// The texture 3d view, when the description is tagged and filled as one.
    pub open spec fn texture_3d_of(self) -> Option<Tex3DUav> {
        match (self.view_dimension, self.view) {
            (UavDimension::Texture3D, UavView::Texture3D(d)) => Some(d),
            _ => None,
        }
    }

    /// Makes this a texture 3d view of `texture_3d`.
    pub fn new_texture_3d(self, texture_3d: &Tex3DUav) -> (r: Self)
        ensures
            r == self.holding_texture_3d(*texture_3d),
    {
        UnorderedAccessViewDesc { view_dimension: UavDimension::Texture3D, view: UavView::Texture3D(*texture_3d), ..self }
    }

    /// The texture 3d view, when the description is tagged and filled as one.
    pub fn texture_3d(&self) -> (r: Option<Tex3DUav>)
        ensures
            r == self.texture_3d_of(),
    {
        match (self.view_dimension, self.view) {
            (UavDimension::Texture3D, UavView::Texture3D(d)) => Some(d),
            _ => None,
        }
    }
}

/// A view description made of one kind reads back, with the matching dimension tag, the
/// view it was made of.
pub proof fn lemma_uav_views(desc: UnorderedAccessViewDesc, buffer: BufferUav, texture_1d: Tex1DUav, texture_1d_array: Tex1DArrayUav, texture_2d: Tex2DUav, texture_2d_array: Tex2DArrayUav, texture_3d: Tex3DUav)
    ensures
        desc.holding_buffer(buffer).buffer_of() == Some(buffer),
        desc.holding_buffer(buffer).view_dimension == UavDimension::Buffer,
        desc.holding_texture_1d(texture_1d).texture_1d_of() == Some(texture_1d),
        desc.holding_texture_1d(texture_1d).view_dimension == UavDimension::Texture1D,
        desc.holding_texture_1d_array(texture_1d_array).texture_1d_array_of() == Some(texture_1d_array),
        desc.holding_texture_1d_array(texture_1d_array).view_dimension == UavDimension::Texture1DArray,
        desc.holding_texture_2d(texture_2d).texture_2d_of() == Some(texture_2d),
        desc.holding_texture_2d(texture_2d).view_dimension == UavDimension::Texture2D,
        desc.holding_texture_2d_array(texture_2d_array).texture_2d_array_of() == Some(texture_2d_array),
        desc.holding_texture_2d_array(texture_2d_array).view_dimension == UavDimension::Texture2DArray,
        desc.holding_texture_3d(texture_3d).texture_3d_of() == Some(texture_3d),
        desc.holding_texture_3d(texture_3d).view_dimension == UavDimension::Texture3D,
{
}

} // verus!
