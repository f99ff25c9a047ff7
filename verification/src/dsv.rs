//! Depth-stencil views.

use vstd::prelude::*;

use crate::enums::{DsvDimension, DsvFlags, Format};

verus! {

/// A 1D texture seen through a depth stencil view (`D3D12_TEX1D_DSV`).
#[derive(Clone, Copy, Debug, PartialEq, Eq)]
pub struct Tex1DDsv {
    pub mip_slice: u32,
}

impl Default for Tex1DDsv {
    /// All zero.
    fn default() -> (r: Self)
        ensures
            r == (Tex1DDsv {
                mip_slice: 0,
            }),
    {
        Tex1DDsv {
            mip_slice: 0,
        }
    }
}

impl Tex1DDsv {
    /// Replaces the mip slice.
    pub fn with_mip_slice(self, mip_slice: u32) -> (r: Self)
        ensures
            r == (Tex1DDsv { mip_slice: mip_slice, ..self }),
    {
        Tex1DDsv { mip_slice: mip_slice, ..self }
    }

    /// As [`Self::with_mip_slice`], on the value in place.
    pub fn set_mip_slice(&mut self, mip_slice: u32) -> (r: &mut Self)
        ensures
            (*r) == (Tex1DDsv { mip_slice: mip_slice, ..(*old(self)) }),
            *final(self) == *final(r),
    {
        let v = (*self).with_mip_slice(mip_slice);
        *self = v;
        self
    }

    /// The mip slice.
    pub fn mip_slice(&self) -> (r: u32)
        ensures
            r == self.mip_slice,
    {
        self.mip_slice
    }
}

/// A 1D texture array seen through a depth stencil view (`D3D12_TEX1D_ARRAY_DSV`).
#[derive(Clone, Copy, Debug, PartialEq, Eq)]
pub struct Tex1DArrayDsv {
    pub mip_slice: u32,
    pub first_array_slice: u32,
    pub array_size: u32,
}

impl Default for Tex1DArrayDsv {
    /// All zero.
    fn default() -> (r: Self)
        ensures
            r == (Tex1DArrayDsv {
                mip_slice: 0,
                first_array_slice: 0,
                array_size: 0,
            }),
    {
        Tex1DArrayDsv {
            mip_slice: 0,
            first_array_slice: 0,
            array_size: 0,
        }
    }
}

impl Tex1DArrayDsv {
    /// Replaces the mip slice.
    pub fn with_mip_slice(self, mip_slice: u32) -> (r: Self)
        ensures
            r == (Tex1DArrayDsv { mip_slice: mip_slice, ..self }),
    {
        Tex1DArrayDsv { mip_slice: mip_slice, ..self }
    }

    /// As [`Self::with_mip_slice`], on the value in place.
    pub fn set_mip_slice(&mut self, mip_slice: u32) -> (r: &mut Self)
        ensures
            (*r) == (Tex1DArrayDsv { mip_slice: mip_slice, ..(*old(self)) }),
            *final(self) == *final(r),
    {
        let v = (*self).with_mip_slice(mip_slice);
        *self = v;
        self
    }

    /// The mip slice.
    pub fn mip_slice(&self) -> (r: u32)
        ensures
            r == self.mip_slice,
    {
        self.mip_slice
    }

    /// Replaces the first array slice.
    pub fn with_first_array_slice(self, first_array_slice: u32) -> (r: Self)
        ensures
            r == (Tex1DArrayDsv { first_array_slice: first_array_slice, ..self }),
    {
        Tex1DArrayDsv { first_array_slice: first_array_slice, ..self }
    }

    /// As [`Self::with_first_array_slice`], on the value in place.
    pub fn set_first_array_slice(&mut self, first_array_slice: u32) -> (r: &mut Self)
        ensures
            (*r) == (Tex1DArrayDsv { first_array_slice: first_array_slice, ..(*old(self)) }),
            *final(self) == *final(r),
    {
        let v = (*self).with_first_array_slice(first_array_slice);
        *self = v;
        self
    }

    /// The first array slice.
    pub fn first_array_slice(&self) -> (r: u32)
        ensures
            r == self.first_array_slice,
    {
        self.first_array_slice
    }

    /// Replaces the array size.
    pub fn with_array_size(self, array_size: u32) -> (r: Self)
        ensures
            r == (Tex1DArrayDsv { array_size: array_size, ..self }),
    {
        Tex1DArrayDsv { array_size: array_size, ..self }
    }

    /// As [`Self::with_array_size`], on the value in place.
    pub fn set_array_size(&mut self, array_size: u32) -> (r: &mut Self)
        ensures
            (*r) == (Tex1DArrayDsv { array_size: array_size, ..(*old(self)) }),
            *final(self) == *final(r),
    {
        let v = (*self).with_array_size(array_size);
        *self = v;
        self
    }

    /// The array size.
    pub fn array_size(&self) -> (r: u32)
        ensures
            r == self.array_size,
    {
        self.array_size
    }
}

/// A 2D texture seen through a depth stencil view (`D3D12_TEX2D_DSV`).
#[derive(Clone, Copy, Debug, PartialEq, Eq)]
pub struct Tex2DDsv {
    pub mip_slice: u32,
}

impl Default for Tex2DDsv {
    /// All zero.
    fn default() -> (r: Self)
        ensures
            r == (Tex2DDsv {
                mip_slice: 0,
            }),
    {
        Tex2DDsv {
            mip_slice: 0,
        }
    }
}

impl Tex2DDsv {
    /// Replaces the mip slice.
    pub fn with_mip_slice(self, mip_slice: u32) -> (r: Self)
        ensures
            r == (Tex2DDsv { mip_slice: mip_slice, ..self }),
    {
        Tex2DDsv { mip_slice: mip_slice, ..self }
    }

    /// As [`Self::with_mip_slice`], on the value in place.
    pub fn set_mip_slice(&mut self, mip_slice: u32) -> (r: &mut Self)
        ensures
            (*r) == (Tex2DDsv { mip_slice: mip_slice, ..(*old(self)) }),
            *final(self) == *final(r),
    {
        let v = (*self).with_mip_slice(mip_slice);
        *self = v;
        self
    }

    /// The mip slice.
    pub fn mip_slice(&self) -> (r: u32)
        ensures
            r == self.mip_slice,
    {
        self.mip_slice
    }
}

/// A 2D texture array seen through a depth stencil view (`D3D12_TEX2D_ARRAY_DSV`).
#[derive(Clone, Copy, Debug, PartialEq, Eq)]
pub struct Tex2DArrayDsv {
    pub mip_slice: u32,
    pub first_array_slice: u32,
    pub array_size: u32,
}

impl Default for Tex2DArrayDsv {
    /// All zero.
    fn default() -> (r: Self)
        ensures
            r == (Tex2DArrayDsv {
                mip_slice: 0,
                first_array_slice: 0,
                array_size: 0,
            }),
    {
        Tex2DArrayDsv {
            mip_slice: 0,
            first_array_slice: 0,
            array_size: 0,
        }
    }
}

impl Tex2DArrayDsv {
    /// Replaces the mip slice.
    pub fn with_mip_slice(self, mip_slice: u32) -> (r: Self)
        ensures
            r == (Tex2DArrayDsv { mip_slice: mip_slice, ..self }),
    {
        Tex2DArrayDsv { mip_slice: mip_slice, ..self }
    }

    /// As [`Self::with_mip_slice`], on the value in place.
    pub fn set_mip_slice(&mut self, mip_slice: u32) -> (r: &mut Self)
        ensures
            (*r) == (Tex2DArrayDsv { mip_slice: mip_slice, ..(*old(self)) }),
            *final(self) == *final(r),
    {
        let v = (*self).with_mip_slice(mip_slice);
        *self = v;
        self
    }

    /// The mip slice.
    pub fn mip_slice(&self) -> (r: u32)
        ensures
            r == self.mip_slice,
    {
        self.mip_slice
    }

    /// Replaces the first array slice.
    pub fn with_first_array_slice(self, first_array_slice: u32) -> (r: Self)
        ensures
            r == (Tex2DArrayDsv { first_array_slice: first_array_slice, ..self }),
    {
        Tex2DArrayDsv { first_array_slice: first_array_slice, ..self }
    }

    /// As [`Self::with_first_array_slice`], on the value in place.
    pub fn set_first_array_slice(&mut self, first_array_slice: u32) -> (r: &mut Self)
        ensures
            (*r) == (Tex2DArrayDsv { first_array_slice: first_array_slice, ..(*old(self)) }),
            *final(self) == *final(r),
    {
        let v = (*self).with_first_array_slice(first_array_slice);
        *self = v;
        self
    }

    /// The first array slice.
    pub fn first_array_slice(&self) -> (r: u32)
        ensures
            r == self.first_array_slice,
    {
        self.first_array_slice
    }

    /// Replaces the array size.
    pub fn with_array_size(self, array_size: u32) -> (r: Self)
        ensures
            r == (Tex2DArrayDsv { array_size: array_size, ..self }),
    {
        Tex2DArrayDsv { array_size: array_size, ..self }
    }

    /// As [`Self::with_array_size`], on the value in place.
    pub fn set_array_size(&mut self, array_size: u32) -> (r: &mut Self)
        ensures
            (*r) == (Tex2DArrayDsv { array_size: array_size, ..(*old(self)) }),
            *final(self) == *final(r),
    {
        let v = (*self).with_array_size(array_size);
        *self = v;
        self
    }

    /// The array size.
    pub fn array_size(&self) -> (r: u32)
        ensures
            r == self.array_size,
    {
        self.array_size
    }
}

/// A multisampled 2D texture array seen through a depth stencil view (`D3D12_TEX2DMS_ARRAY_DSV`).
#[derive(Clone, Copy, Debug, PartialEq, Eq)]
pub struct Tex2DmsArrayDsv {
    pub first_array_slice: u32,
    pub array_size: u32,
}

impl Default for Tex2DmsArrayDsv {
    /// All zero.
    fn default() -> (r: Self)
        ensures
            r == (Tex2DmsArrayDsv {
                first_array_slice: 0,
                array_size: 0,
            }),
    {
        Tex2DmsArrayDsv {
            first_array_slice: 0,
            array_size: 0,
        }
    }
}

impl Tex2DmsArrayDsv {
    /// Replaces the first array slice.
    pub fn with_first_array_slice(self, first_array_slice: u32) -> (r: Self)
        ensures
            r == (Tex2DmsArrayDsv { first_array_slice: first_array_slice, ..self }),
    {
        Tex2DmsArrayDsv { first_array_slice: first_array_slice, ..self }
    }

    /// As [`Self::with_first_array_slice`], on the value in place.
    pub fn set_first_array_slice(&mut self, first_array_slice: u32) -> (r: &mut Self)
        ensures
            (*r) == (Tex2DmsArrayDsv { first_array_slice: first_array_slice, ..(*old(self)) }),
            *final(self) == *final(r),
    {
        let v = (*self).with_first_array_slice(first_array_slice);
        *self = v;
        self
    }

    /// The first array slice.
    pub fn first_array_slice(&self) -> (r: u32)
        ensures
            r == self.first_array_slice,
    {
        self.first_array_slice
    }

    /// Replaces the array size.
    pub fn with_array_size(self, array_size: u32) -> (r: Self)
        ensures
            r == (Tex2DmsArrayDsv { array_size: array_size, ..self }),
    {
        Tex2DmsArrayDsv { array_size: array_size, ..self }
    }

    /// As [`Self::with_array_size`], on the value in place.
    pub fn set_array_size(&mut self, array_size: u32) -> (r: &mut Self)
        ensures
            (*r) == (Tex2DmsArrayDsv { array_size: array_size, ..(*old(self)) }),
            *final(self) == *final(r),
    {
        let v = (*self).with_array_size(array_size);
        *self = v;
        self
    }

    /// The array size.
    pub fn array_size(&self) -> (r: u32)
        ensures
            r == self.array_size,
    {
        self.array_size
    }
}

/// A multisampled 2D texture seen through a depth stencil view (`D3D12_TEX2DMS_DSV`).
#[derive(Clone, Copy, Debug, PartialEq, Eq)]
pub struct Tex2DmsDsv {
    pub unused_field_nothing_to_define: u32,
}

impl Default for Tex2DmsDsv {
    /// The only value.
    fn default() -> (r: Self)
        ensures
            r == (Tex2DmsDsv {
                unused_field_nothing_to_define: 0,
            }),
    {
        Tex2DmsDsv {
            unused_field_nothing_to_define: 0,
        }
    }
}

/// The dimension-specific part of a depth stencil view description (`D3D12_DEPTH_STENCIL_VIEW_DESC`'s union).
#[derive(Clone, Copy, Debug, PartialEq, Eq)]
pub enum DsvView {
    Texture1D(Tex1DDsv),
    Texture1DArray(Tex1DArrayDsv),
    Texture2D(Tex2DDsv),
    Texture2DArray(Tex2DArrayDsv),
    Texture2DMs(Tex2DmsDsv),
    Texture2DMsArray(Tex2DmsArrayDsv),
}

/// Description of a depth stencil view (`D3D12_DEPTH_STENCIL_VIEW_DESC`): format, dimension tag, flags and view.
#[derive(Clone, Copy, Debug, PartialEq, Eq)]
pub struct DepthStencilViewDesc {
    pub format: Format,
    pub view_dimension: DsvDimension,
    pub flags: DsvFlags,
    pub view: DsvView,
}

impl Default for DepthStencilViewDesc {
    /// An untyped description of unknown dimension with no flags and a zero 1D view.
    fn default() -> (r: Self)
        ensures
            r == (DepthStencilViewDesc {
                format: Format::Unknown,
                view_dimension: DsvDimension::Unknown,
                flags: (DsvFlags { bits: 0 }),
                view: DsvView::Texture1D(Tex1DDsv { mip_slice: 0 }),
            }),
    {
        DepthStencilViewDesc {
            format: Format::Unknown,
            view_dimension: DsvDimension::Unknown,
            flags: DsvFlags::empty(),
            view: DsvView::Texture1D(Tex1DDsv::default()),
        }
    }
}

impl DepthStencilViewDesc {
    /// Replaces the format.
    pub fn with_format(self, format: Format) -> (r: Self)
        ensures
            r == (DepthStencilViewDesc { format: format, ..self }),
    {
        DepthStencilViewDesc { format: format, ..self }
    }

    /// As [`Self::with_format`], on the value in place.
    pub fn set_format(&mut self, format: Format) -> (r: &mut Self)
        ensures
            (*r) == (DepthStencilViewDesc { format: format, ..(*old(self)) }),
            *final(self) == *final(r),
    {
        let v = (*self).with_format(format);
        *self = v;
        self
    }

    /// The format.
    pub fn format(&self) -> (r: Format)
        ensures
            r == self.format,
    {
        self.format
    }

    /// Replaces the view dimension.
    pub fn with_view_dimension(self, view_dimension: DsvDimension) -> (r: Self)
        ensures
            r == (DepthStencilViewDesc { view_dimension: view_dimension, ..self }),
    {
        DepthStencilViewDesc { view_dimension: view_dimension, ..self }
    }

    /// As [`Self::with_view_dimension`], on the value in place.
    pub fn set_view_dimension(&mut self, view_dimension: DsvDimension) -> (r: &mut Self)
        ensures
            (*r) == (DepthStencilViewDesc { view_dimension: view_dimension, ..(*old(self)) }),
            *final(self) == *final(r),
    {
        let v = (*self).with_view_dimension(view_dimension);
        *self = v;
        self
    }

    /// The view dimension.
    pub fn view_dimension(&self) -> (r: DsvDimension)
        ensures
            r == self.view_dimension,
    {
        self.view_dimension
    }

    /// Replaces the flags.
    pub fn with_flags(self, flags: DsvFlags) -> (r: Self)
        ensures
            r == (DepthStencilViewDesc { flags: flags, ..self }),
    {
        DepthStencilViewDesc { flags: flags, ..self }
    }

    /// As [`Self::with_flags`], on the value in place.
    pub fn set_flags(&mut self, flags: DsvFlags) -> (r: &mut Self)
        ensures
            (*r) == (DepthStencilViewDesc { flags: flags, ..(*old(self)) }),
            *final(self) == *final(r),
    {
        let v = (*self).with_flags(flags);
        *self = v;
        self
    }

    /// The flags.
    pub fn flags(&self) -> (r: DsvFlags)
        ensures
            r == self.flags,
    {
        self.flags
    }

    /// This description made a texture 1d view of `view`.
    pub open spec fn holding_texture_1d(self, view: Tex1DDsv) -> Self {
        DepthStencilViewDesc { view_dimension: DsvDimension::Texture1D, view: DsvView::Texture1D(view), ..self }
    }

    /// The texture 1d view, when the description is tagged and filled as one.
    pub open spec fn texture_1d_of(self) -> Option<Tex1DDsv> {
        match (self.view_dimension, self.view) {
            (DsvDimension::Texture1D, DsvView::Texture1D(d)) => Some(d),
            _ => None,
        }
    }

    /// Makes this a texture 1d view of `texture_1d`.
    pub fn new_texture_1d(self, texture_1d: Tex1DDsv) -> (r: Self)
        ensures
            r == self.holding_texture_1d(texture_1d),
    {
        DepthStencilViewDesc { view_dimension: DsvDimension::Texture1D, view: DsvView::Texture1D(texture_1d), ..self }
    }

    /// The texture 1d view, when the description is tagged and filled as one.
    pub fn texture_1d(&self) -> (r: Option<Tex1DDsv>)
        ensures
            r == self.texture_1d_of(),
    {
        match (self.view_dimension, self.view) {
            (DsvDimension::Texture1D, DsvView::Texture1D(d)) => Some(d),
            _ => None,
        }
    }

    /// This description made a texture 1d array view of `view`.
    pub open spec fn holding_texture_1d_array(self, view: Tex1DArrayDsv) -> Self {
        DepthStencilViewDesc { view_dimension: DsvDimension::Texture1DArray, view: DsvView::Texture1DArray(view), ..self }
    }

    /// The texture 1d array view, when the description is tagged and filled as one.
    pub open spec fn texture_1d_array_of(self) -> Option<Tex1DArrayDsv> {
        match (self.view_dimension, self.view) {
            (DsvDimension::Texture1DArray, DsvView::Texture1DArray(d)) => Some(d),
            _ => None,
        }
    }

    /// Makes this a texture 1d array view of `texture_1d_array`.
    pub fn new_texture_1d_array(self, texture_1d_array: Tex1DArrayDsv) -> (r: Self)
        ensures
            r == self.holding_texture_1d_array(texture_1d_array),
    {
        DepthStencilViewDesc { view_dimension: DsvDimension::Texture1DArray, view: DsvView::Texture1DArray(texture_1d_array), ..self }
    }

    /// The texture 1d array view, when the description is tagged and filled as one.
    pub fn texture_1d_array(&self) -> (r: Option<Tex1DArrayDsv>)
        ensures
            r == self.texture_1d_array_of(),
    {
        match (self.view_dimension, self.view) {
            (DsvDimension::Texture1DArray, DsvView::Texture1DArray(d)) => Some(d),
            _ => None,
        }
    }

    /// This description made a texture 2d view of `view`.
    pub open spec fn holding_texture_2d(self, view: Tex2DDsv) -> Self {
        DepthStencilViewDesc { view_dimension: DsvDimension::Texture2D, view: DsvView::Texture2D(view), ..self }
    }

    /// The texture 2d view, when the description is tagged and filled as one.
    pub open spec fn texture_2d_of(self) -> Option<Tex2DDsv> {
        match (self.view_dimension, self.view) {
            (DsvDimension::Texture2D, DsvView::Texture2D(d)) => Some(d),
            _ => None,
        }
    }

    /// Makes this a texture 2d view of `texture_2d`.
    pub fn new_texture_2d(self, texture_2d: Tex2DDsv) -> (r: Self)
        ensures
            r == self.holding_texture_2d(texture_2d),
    {
        DepthStencilViewDesc { view_dimension: DsvDimension::Texture2D, view: DsvView::Texture2D(texture_2d), ..self }
    }

    /// The texture 2d view, when the description is tagged and filled as one.
    pub fn texture_2d(&self) -> (r: Option<Tex2DDsv>)
        ensures
            r == self.texture_2d_of(),
    {
        match (self.view_dimension, self.view) {
            (DsvDimension::Texture2D, DsvView::Texture2D(d)) => Some(d),
            _ => None,
        }
    }

    /// This description made a texture 2d array view of `view`.
    pub open spec fn holding_texture_2d_array(self, view: Tex2DArrayDsv) -> Self {
        DepthStencilViewDesc { view_dimension: DsvDimension::Texture2DArray, view: DsvView::Texture2DArray(view), ..self }
    }

    /// The texture 2d array view, when the description is tagged and filled as one.
    pub open spec fn texture_2d_array_of(self) -> Option<Tex2DArrayDsv> {
        match (self.view_dimension, self.view) {
            (DsvDimension::Texture2DArray, DsvView::Texture2DArray(d)) => Some(d),
            _ => None,
        }
    }

    /// Makes this a texture 2d array view of `texture_2d_array`.
    pub fn new_texture_2d_array(self, texture_2d_array: Tex2DArrayDsv) -> (r: Self)
        ensures
            r == self.holding_texture_2d_array(texture_2d_array),
    {
        DepthStencilViewDesc { view_dimension: DsvDimension::Texture2DArray, view: DsvView::Texture2DArray(texture_2d_array), ..self }
    }

    /// The texture 2d array view, when the description is tagged and filled as one.
    pub fn texture_2d_array(&self) -> (r: Option<Tex2DArrayDsv>)
        ensures
            r == self.texture_2d_array_of(),
    {
        match (self.view_dimension, self.view) {
            (DsvDimension::Texture2DArray, DsvView::Texture2DArray(d)) => Some(d),
            _ => None,
        }
    }

    /// This description made a texture 2d ms view of `view`.
    pub open spec fn holding_texture_2d_ms(self, view: Tex2DmsDsv) -> Self {
        DepthStencilViewDesc { view_dimension: DsvDimension::Texture2DMs, view: DsvView::Texture2DMs(view), ..self }
    }

    /// The texture 2d ms view, when the description is tagged and filled as one.
    pub open spec fn texture_2d_ms_of(self) -> Option<Tex2DmsDsv> {
        match (self.view_dimension, self.view) {
            (DsvDimension::Texture2DMs, DsvView::Texture2DMs(d)) => Some(d),
            _ => None,
        }
    }

    /// Makes this a texture 2d ms view of `texture_2d_ms`.
    pub fn new_texture_2d_ms(self, texture_2d_ms: Tex2DmsDsv) -> (r: Self)
        ensures
            r == self.holding_texture_2d_ms(texture_2d_ms),
    {
        DepthStencilViewDesc { view_dimension: DsvDimension::Texture2DMs, view: DsvView::Texture2DMs(texture_2d_ms), ..self }
    }

    /// The texture 2d ms view, when the description is tagged and filled as one.
    pub fn texture_2d_ms(&self) -> (r: Option<Tex2DmsDsv>)
        ensures
            r == self.texture_2d_ms_of(),
    {
        match (self.view_dimension, self.view) {
            (DsvDimension::Texture2DMs, DsvView::Texture2DMs(d)) => Some(d),
            _ => None,
        }
    }

    /// This description made a texture 2d ms array view of `view`.
    pub open spec fn holding_texture_2d_ms_array(self, view: Tex2DmsArrayDsv) -> Self {
        DepthStencilViewDesc { view_dimension: DsvDimension::Texture2DMsArray, view: DsvView::Texture2DMsArray(view), ..self }
    }

    /// The texture 2d ms array view, when the description is tagged and filled as one.
    pub open spec fn texture_2d_ms_array_of(self) -> Option<Tex2DmsArrayDsv> {
        match (self.view_dimension, self.view) {
            (DsvDimension::Texture2DMsArray, DsvView::Texture2DMsArray(d)) => Some(d),
            _ => None,
        }
    }

    /// Makes this a texture 2d ms array view of `texture_2d_ms_array`.
    pub fn new_texture_2d_ms_array(self, texture_2d_ms_array: Tex2DmsArrayDsv) -> (r: Self)
        ensures
            r == self.holding_texture_2d_ms_array(texture_2d_ms_array),
    {
        DepthStencilViewDesc { view_dimension: DsvDimension::Texture2DMsArray, view: DsvView::Texture2DMsArray(texture_2d_ms_array), ..self }
    }

    /// The texture 2d ms array view, when the description is tagged and filled as one.
    pub fn texture_2d_ms_array(&self) -> (r: Option<Tex2DmsArrayDsv>)
        ensures
            r == self.texture_2d_ms_array_of(),
    {
        match (self.view_dimension, self.view) {
            (DsvDimension::Texture2DMsArray, DsvView::Texture2DMsArray(d)) => Some(d),
            _ => None,
        }
    }
}

/// A view description made of one kind reads back, with the matching dimension tag, the
/// view it was made of.
pub proof fn lemma_dsv_views(desc: DepthStencilViewDesc, texture_1d: Tex1DDsv, texture_1d_array: Tex1DArrayDsv, texture_2d: Tex2DDsv, texture_2d_array: Tex2DArrayDsv, texture_2d_ms: Tex2DmsDsv, texture_2d_ms_array: Tex2DmsArrayDsv)
    ensures
        desc.holding_texture_1d(texture_1d).texture_1d_of() == Some(texture_1d),
        desc.holding_texture_1d(texture_1d).view_dimension == DsvDimension::Texture1D,
        desc.holding_texture_1d_array(texture_1d_array).texture_1d_array_of() == Some(texture_1d_array),
        desc.holding_texture_1d_array(texture_1d_array).view_dimension == DsvDimension::Texture1DArray,
        desc.holding_texture_2d(texture_2d).texture_2d_of() == Some(texture_2d),
        desc.holding_texture_2d(texture_2d).view_dimension == DsvDimension::Texture2D,
        desc.holding_texture_2d_array(texture_2d_array).texture_2d_array_of() == Some(texture_2d_array),
        desc.holding_texture_2d_array(texture_2d_array).view_dimension == DsvDimension::Texture2DArray,
        desc.holding_texture_2d_ms(texture_2d_ms).texture_2d_ms_of() == Some(texture_2d_ms),
        desc.holding_texture_2d_ms(texture_2d_ms).view_dimension == DsvDimension::Texture2DMs,
        desc.holding_texture_2d_ms_array(texture_2d_ms_array).texture_2d_ms_array_of() == Some(texture_2d_ms_array),
        desc.holding_texture_2d_ms_array(texture_2d_ms_array).view_dimension == DsvDimension::Texture2DMsArray,
{
}

} // verus!
