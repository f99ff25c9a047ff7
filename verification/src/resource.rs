//! Resource, heap and footprint descriptions, viewports, rectangles and boxes.

use vstd::prelude::*;

use crate::enums::{CPUPageProperty, Format, HeapFlags, HeapType, MemoryPool, ResourceDimension, ResourceFlags, TextureLayout};
use crate::swapchain::SampleDesc;
use crate::utils::ByteCount;

verus! {

/// The identity of a Direct3D 12 resource object: the address of its COM interface.
///
/// Plain-data descriptions such as barriers and copy locations refer to a resource by this value;
/// the reference counting of the object itself is the business of the code that owns it.
#[derive(Clone, Copy, Debug, PartialEq, Eq)]
pub struct Resource {
    pub this: u64,
}

/// A location in GPU virtual address space (`D3D12_GPU_VIRTUAL_ADDRESS`).
#[derive(Clone, Copy, Debug, PartialEq, Eq, Default)]
pub struct GpuVirtualAddress(pub u64);

/// Description of a resource (`D3D12_RESOURCE_DESC`).
#[derive(Clone, Copy, Debug, PartialEq, Eq)]
pub struct ResourceDesc {
    pub dimension: ResourceDimension,
    pub alignment: u64,
    pub width: u64,
    pub height: u32,
    pub depth_or_array_size: u16,
    pub mip_levels: u16,
    pub format: Format,
    pub sample_desc: SampleDesc,
    pub layout: TextureLayout,
    pub flags: ResourceFlags,
}

impl Default for ResourceDesc {
    /// An unknown-dimension description with the default 64 KiB placement alignment, one row, one slice, one mip level and single sampling.
    fn default() -> (r: Self)
        ensures
            r == (ResourceDesc {
                dimension: ResourceDimension::Unknown,
                alignment: 65536,
                width: 0,
                height: 1,
                depth_or_array_size: 1,
                mip_levels: 1,
                format: Format::Unknown,
                sample_desc: (SampleDesc { count: 1, quality: 0 }),
                layout: TextureLayout::Unknown,
                flags: (ResourceFlags { bits: 0 }),
            }),
    {
        ResourceDesc {
            dimension: ResourceDimension::Unknown,
            alignment: 65536,
            width: 0,
            height: 1,
            depth_or_array_size: 1,
            mip_levels: 1,
            format: Format::Unknown,
            sample_desc: SampleDesc::default(),
            layout: TextureLayout::Unknown,
            flags: ResourceFlags::empty(),
        }
    }
}

impl ResourceDesc {
    /// Replaces the dimension.
    pub fn with_dimension(self, dimension: ResourceDimension) -> (r: Self)
        ensures
            r == (ResourceDesc { dimension: dimension, ..self }),
    {
        ResourceDesc { dimension: dimension, ..self }
    }

    /// As [`Self::with_dimension`], on the value in place.
    pub fn set_dimension(&mut self, dimension: ResourceDimension) -> (r: &mut Self)
        ensures
            (*r) == (ResourceDesc { dimension: dimension, ..(*old(self)) }),
            *final(self) == *final(r),
    {
        let v = (*self).with_dimension(dimension);
        *self = v;
        self
    }

    /// The dimension.
    pub fn dimension(&self) -> (r: ResourceDimension)
        ensures
            r == self.dimension,
    {
        self.dimension
    }

    /// Replaces the alignment.
    pub fn with_alignment(self, alignment: ByteCount) -> (r: Self)
        ensures
            r == (ResourceDesc { alignment: alignment.0, ..self }),
    {
        ResourceDesc { alignment: alignment.0, ..self }
    }

    /// As [`Self::with_alignment`], on the value in place.
    pub fn set_alignment(&mut self, alignment: ByteCount) -> (r: &mut Self)
        ensures
            (*r) == (ResourceDesc { alignment: alignment.0, ..(*old(self)) }),
            *final(self) == *final(r),
    {
        let v = (*self).with_alignment(alignment);
        *self = v;
        self
    }

    /// The alignment.
    pub fn alignment(&self) -> (r: ByteCount)
        ensures
            r == ByteCount(self.alignment),
    {
        ByteCount(self.alignment)
    }

    /// Replaces the width.
    pub fn with_width(self, width: u64) -> (r: Self)
        ensures
            r == (ResourceDesc { width: width, ..self }),
    {
        ResourceDesc { width: width, ..self }
    }

    /// As [`Self::with_width`], on the value in place.
    pub fn set_width(&mut self, width: u64) -> (r: &mut Self)
        ensures
            (*r) == (ResourceDesc { width: width, ..(*old(self)) }),
            *final(self) == *final(r),
    {
        let v = (*self).with_width(width);
        *self = v;
        self
    }

    /// The width.
    pub fn width(&self) -> (r: u64)
        ensures
            r == self.width,
    {
        self.width
    }

    /// Replaces the height.
    pub fn with_height(self, height: u32) -> (r: Self)
        ensures
            r == (ResourceDesc { height: height, ..self }),
    {
        ResourceDesc { height: height, ..self }
    }

    /// As [`Self::with_height`], on the value in place.
    pub fn set_height(&mut self, height: u32) -> (r: &mut Self)
        ensures
            (*r) == (ResourceDesc { height: height, ..(*old(self)) }),
            *final(self) == *final(r),
    {
        let v = (*self).with_height(height);
        *self = v;
        self
    }

    /// The height.
    pub fn height(&self) -> (r: u32)
        ensures
            r == self.height,
    {
        self.height
    }

    /// Replaces the depth or array size.
    pub fn with_depth_or_array_size(self, depth_or_array_size: u16) -> (r: Self)
        ensures
            r == (ResourceDesc { depth_or_array_size: depth_or_array_size, ..self }),
    {
        ResourceDesc { depth_or_array_size: depth_or_array_size, ..self }
    }

    /// As [`Self::with_depth_or_array_size`], on the value in place.
    pub fn set_depth_or_array_size(&mut self, depth_or_array_size: u16) -> (r: &mut Self)
        ensures
            (*r) == (ResourceDesc { depth_or_array_size: depth_or_array_size, ..(*old(self)) }),
            *final(self) == *final(r),
    {
        let v = (*self).with_depth_or_array_size(depth_or_array_size);
        *self = v;
        self
    }

    /// The depth or array size.
    pub fn depth_or_array_size(&self) -> (r: u16)
        ensures
            r == self.depth_or_array_size,
    {
        self.depth_or_array_size
    }

    /// Replaces the mip levels.
    pub fn with_mip_levels(self, mip_levels: u16) -> (r: Self)
        ensures
            r == (ResourceDesc { mip_levels: mip_levels, ..self }),
    {
        ResourceDesc { mip_levels: mip_levels, ..self }
    }

    /// As [`Self::with_mip_levels`], on the value in place.
    pub fn set_mip_levels(&mut self, mip_levels: u16) -> (r: &mut Self)
        ensures
            (*r) == (ResourceDesc { mip_levels: mip_levels, ..(*old(self)) }),
            *final(self) == *final(r),
    {
        let v = (*self).with_mip_levels(mip_levels);
        *self = v;
        self
    }

    /// The mip levels.
    pub fn mip_levels(&self) -> (r: u16)
        ensures
            r == self.mip_levels,
    {
        self.mip_levels
    }

    /// Replaces the format.
    pub fn with_format(self, format: Format) -> (r: Self)
        ensures
            r == (ResourceDesc { format: format, ..self }),
    {
        ResourceDesc { format: format, ..self }
    }

    /// As [`Self::with_format`], on the value in place.
    pub fn set_format(&mut self, format: Format) -> (r: &mut Self)
        ensures
            (*r) == (ResourceDesc { format: format, ..(*old(self)) }),
            *final(self) == *final(r),
    {
        let v = (*self).with_format(format);
        *self = v;
        self
    }

    /// The format.
    pub fn format(&self) -> (r: Format)
        ensures
            r == self.format,
    {
        self.format
    }

    /// Replaces the sample desc.
    pub fn with_sample_desc(self, sample_desc: SampleDesc) -> (r: Self)
        ensures
            r == (ResourceDesc { sample_desc: sample_desc, ..self }),
    {
        ResourceDesc { sample_desc: sample_desc, ..self }
    }

    /// As [`Self::with_sample_desc`], on the value in place.
    pub fn set_sample_desc(&mut self, sample_desc: SampleDesc) -> (r: &mut Self)
        ensures
            (*r) == (ResourceDesc { sample_desc: sample_desc, ..(*old(self)) }),
            *final(self) == *final(r),
    {
        let v = (*self).with_sample_desc(sample_desc);
        *self = v;
        self
    }

    /// The sample desc.
    pub fn sample_desc(&self) -> (r: SampleDesc)
        ensures
            r == self.sample_desc,
    {
        self.sample_desc
    }

    /// Replaces the layout.
    pub fn with_layout(self, layout: TextureLayout) -> (r: Self)
        ensures
            r == (ResourceDesc { layout: layout, ..self }),
    {
        ResourceDesc { layout: layout, ..self }
    }

    /// As [`Self::with_layout`], on the value in place.
    pub fn set_layout(&mut self, layout: TextureLayout) -> (r: &mut Self)
        ensures
            (*r) == (ResourceDesc { layout: layout, ..(*old(self)) }),
            *final(self) == *final(r),
    {
        let v = (*self).with_layout(layout);
        *self = v;
        self
    }

    /// The layout.
    pub fn layout(&self) -> (r: TextureLayout)
        ensures
            r == self.layout,
    {
        self.layout
    }

    /// Replaces the flags.
    pub fn with_flags(self, flags: ResourceFlags) -> (r: Self)
        ensures
            r == (ResourceDesc { flags: flags, ..self }),
    {
        ResourceDesc { flags: flags, ..self }
    }

    /// As [`Self::with_flags`], on the value in place.
    pub fn set_flags(&mut self, flags: ResourceFlags) -> (r: &mut Self)
        ensures
            (*r) == (ResourceDesc { flags: flags, ..(*old(self)) }),
            *final(self) == *final(r),
    {
        let v = (*self).with_flags(flags);
        *self = v;
        self
    }

    /// The flags.
    pub fn flags(&self) -> (r: ResourceFlags)
        ensures
            r == self.flags,
    {
        self.flags
    }
}

/// Properties of a heap (`D3D12_HEAP_PROPERTIES`).
#[derive(Clone, Copy, Debug, PartialEq, Eq)]
pub struct HeapProperties {
    pub heap_type: HeapType,
    pub cpu_page_property: CPUPageProperty,
    pub memory_pool_preference: MemoryPool,
    pub creation_node_mask: u32,
    pub visible_node_mask: u32,
}

impl Default for HeapProperties {
    /// A default-type heap with unknown page property and memory pool on node zero.
    fn default() -> (r: Self)
        ensures
            r == (HeapProperties {
                heap_type: HeapType::Default,
                cpu_page_property: CPUPageProperty::Unknown,
                memory_pool_preference: MemoryPool::Unknown,
                creation_node_mask: 0,
                visible_node_mask: 0,
            }),
    {
        HeapProperties {
            heap_type: HeapType::Default,
            cpu_page_property: CPUPageProperty::Unknown,
            memory_pool_preference: MemoryPool::Unknown,
            creation_node_mask: 0,
            visible_node_mask: 0,
        }
    }
}

impl HeapProperties {
    /// Replaces the heap type.
    pub fn with_heap_type(self, heap_type: HeapType) -> (r: Self)
        ensures
            r == (HeapProperties { heap_type: heap_type, ..self }),
    {
        HeapProperties { heap_type: heap_type, ..self }
    }

    /// As [`Self::with_heap_type`], on the value in place.
    pub fn set_heap_type(&mut self, heap_type: HeapType) -> (r: &mut Self)
        ensures
            (*r) == (HeapProperties { heap_type: heap_type, ..(*old(self)) }),
            *final(self) == *final(r),
    {
        let v = (*self).with_heap_type(heap_type);
        *self = v;
        self
    }

    /// The heap type.
    pub fn heap_type(&self) -> (r: HeapType)
        ensures
            r == self.heap_type,
    {
        self.heap_type
    }

    /// Replaces the cpu page property.
    pub fn with_cpu_page_property(self, cpu_page_property: CPUPageProperty) -> (r: Self)
        ensures
            r == (HeapProperties { cpu_page_property: cpu_page_property, ..self }),
    {
        HeapProperties { cpu_page_property: cpu_page_property, ..self }
    }

    /// As [`Self::with_cpu_page_property`], on the value in place.
    pub fn set_cpu_page_property(&mut self, cpu_page_property: CPUPageProperty) -> (r: &mut Self)
        ensures
            (*r) == (HeapProperties { cpu_page_property: cpu_page_property, ..(*old(self)) }),
            *final(self) == *final(r),
    {
        let v = (*self).with_cpu_page_property(cpu_page_property);
        *self = v;
        self
    }

    /// The cpu page property.
    pub fn cpu_page_property(&self) -> (r: CPUPageProperty)
        ensures
            r == self.cpu_page_property,
    {
        self.cpu_page_property
    }

    /// Replaces the memory pool preference.
    pub fn with_memory_pool_preference(self, memory_pool_preference: MemoryPool) -> (r: Self)
        ensures
            r == (HeapProperties { memory_pool_preference: memory_pool_preference, ..self }),
    {
        HeapProperties { memory_pool_preference: memory_pool_preference, ..self }
    }

    /// As [`Self::with_memory_pool_preference`], on the value in place.
    pub fn set_memory_pool_preference(&mut self, memory_pool_preference: MemoryPool) -> (r: &mut Self)
        ensures
            (*r) == (HeapProperties { memory_pool_preference: memory_pool_preference, ..(*old(self)) }),
            *final(self) == *final(r),
    {
        let v = (*self).with_memory_pool_preference(memory_pool_preference);
        *self = v;
        self
    }

    /// The memory pool preference.
    pub fn memory_pool_preference(&self) -> (r: MemoryPool)
        ensures
            r == self.memory_pool_preference,
    {
        self.memory_pool_preference
    }

    /// Replaces the creation node mask.
    pub fn with_creation_node_mask(self, node_mask: u32) -> (r: Self)
        ensures
            r == (HeapProperties { creation_node_mask: node_mask, ..self }),
    {
        HeapProperties { creation_node_mask: node_mask, ..self }
    }

    /// As [`Self::with_creation_node_mask`], on the value in place.
    pub fn set_creation_node_mask(&mut self, node_mask: u32) -> (r: &mut Self)
        ensures
            (*r) == (HeapProperties { creation_node_mask: node_mask, ..(*old(self)) }),
            *final(self) == *final(r),
    {
        let v = (*self).with_creation_node_mask(node_mask);
        *self = v;
        self
    }

    /// The creation node mask.
    pub fn creation_node_mask(&self) -> (r: u32)
        ensures
            r == self.creation_node_mask,
    {
        self.creation_node_mask
    }

    /// Replaces the visible node mask.
    pub fn with_visibility_node_mask(self, node_mask: u32) -> (r: Self)
        ensures
            r == (HeapProperties { visible_node_mask: node_mask, ..self }),
    {
        HeapProperties { visible_node_mask: node_mask, ..self }
    }

    /// As [`Self::with_visibility_node_mask`], on the value in place.
    pub fn set_visibility_node_mask(&mut self, node_mask: u32) -> (r: &mut Self)
        ensures
            (*r) == (HeapProperties { visible_node_mask: node_mask, ..(*old(self)) }),
            *final(self) == *final(r),
    {
        let v = (*self).with_visibility_node_mask(node_mask);
        *self = v;
        self
    }

    /// The visible node mask.
    pub fn visible_node_mask(&self) -> (r: u32)
        ensures
            r == self.visible_node_mask,
    {
        self.visible_node_mask
    }
}

/// Description of a heap (`D3D12_HEAP_DESC`).
#[derive(Clone, Copy, Debug, PartialEq, Eq)]
pub struct HeapDesc {
    pub size_in_bytes: u64,
    pub properties: HeapProperties,
    pub alignment: u64,
    pub flags: HeapFlags,
}

impl Default for HeapDesc {
    /// An empty heap description with default heap properties, no alignment and no flags.
    fn default() -> (r: Self)
        ensures
            r == (HeapDesc {
                size_in_bytes: 0,
                properties: (HeapProperties { heap_type: HeapType::Default, cpu_page_property: CPUPageProperty::Unknown, memory_pool_preference: MemoryPool::Unknown, creation_node_mask: 0, visible_node_mask: 0 }),
                alignment: 0,
                flags: (HeapFlags { bits: 0 }),
            }),
    {
        HeapDesc {
            size_in_bytes: 0,
            properties: HeapProperties::default(),
            alignment: 0,
            flags: HeapFlags::empty(),
        }
    }
}

impl HeapDesc {
    /// Replaces the size in bytes.
    pub fn with_size_in_bytes(self, size_in_bytes: ByteCount) -> (r: Self)
        ensures
            r == (HeapDesc { size_in_bytes: size_in_bytes.0, ..self }),
    {
        HeapDesc { size_in_bytes: size_in_bytes.0, ..self }
    }

    /// As [`Self::with_size_in_bytes`], on the value in place.
    pub fn set_size_in_bytes(&mut self, size_in_bytes: ByteCount) -> (r: &mut Self)
        ensures
            (*r) == (HeapDesc { size_in_bytes: size_in_bytes.0, ..(*old(self)) }),
            *final(self) == *final(r),
    {
        let v = (*self).with_size_in_bytes(size_in_bytes);
        *self = v;
        self
    }

    /// The size in bytes.
    pub fn size_in_bytes(&self) -> (r: ByteCount)
        ensures
            r == ByteCount(self.size_in_bytes),
    {
        ByteCount(self.size_in_bytes)
    }

    /// Replaces the properties.
    pub fn with_properties(self, properties: &HeapProperties) -> (r: Self)
        ensures
            r == (HeapDesc { properties: *properties, ..self }),
    {
        HeapDesc { properties: *properties, ..self }
    }

    /// As [`Self::with_properties`], on the value in place.
    pub fn set_properties(&mut self, properties: &HeapProperties) -> (r: &mut Self)
        ensures
            (*r) == (HeapDesc { properties: *properties, ..(*old(self)) }),
            *final(self) == *final(r),
    {
        let v = (*self).with_properties(properties);
        *self = v;
        self
    }

    /// The properties.
    pub fn properties(&self) -> (r: HeapProperties)
        ensures
            r == self.properties,
    {
        self.properties
    }

    /// Replaces the alignment.
    pub fn with_alignment(self, alignment: ByteCount) -> (r: Self)
        ensures
            r == (HeapDesc { alignment: alignment.0, ..self }),
    {
        HeapDesc { alignment: alignment.0, ..self }
    }

    /// As [`Self::with_alignment`], on the value in place.
    pub fn set_alignment(&mut self, alignment: ByteCount) -> (r: &mut Self)
        ensures
            (*r) == (HeapDesc { alignment: alignment.0, ..(*old(self)) }),
            *final(self) == *final(r),
    {
        let v = (*self).with_alignment(alignment);
        *self = v;
        self
    }

    /// The alignment.
    pub fn alignment(&self) -> (r: ByteCount)
        ensures
            r == ByteCount(self.alignment),
    {
        ByteCount(self.alignment)
    }

    /// Replaces the flags.
    pub fn with_flags(self, flags: HeapFlags) -> (r: Self)
        ensures
            r == (HeapDesc { flags: flags, ..self }),
    {
        HeapDesc { flags: flags, ..self }
    }

    /// As [`Self::with_flags`], on the value in place.
    pub fn set_flags(&mut self, flags: HeapFlags) -> (r: &mut Self)
        ensures
            (*r) == (HeapDesc { flags: flags, ..(*old(self)) }),
            *final(self) == *final(r),
    {
        let v = (*self).with_flags(flags);
        *self = v;
        self
    }

    /// The flags.
    pub fn flags(&self) -> (r: HeapFlags)
        ensures
            r == self.flags,
    {
        self.flags
    }
}

/// Size and alignment of a resource allocation (`D3D12_RESOURCE_ALLOCATION_INFO`).
#[derive(Clone, Copy, Debug, PartialEq, Eq)]
pub struct ResourceAllocationInfo {
    pub size_in_bytes: u64,
    pub alignment: u64,
}

impl Default for ResourceAllocationInfo {
    /// Zero size and alignment.
    fn default() -> (r: Self)
        ensures
            r == (ResourceAllocationInfo {
                size_in_bytes: 0,
                alignment: 0,
            }),
    {
        ResourceAllocationInfo {
            size_in_bytes: 0,
            alignment: 0,
        }
    }
}

impl ResourceAllocationInfo {
    /// Replaces the size in bytes.
    pub fn with_size_in_bytes(self, size_in_bytes: ByteCount) -> (r: Self)
        ensures
            r == (ResourceAllocationInfo { size_in_bytes: size_in_bytes.0, ..self }),
    {
        ResourceAllocationInfo { size_in_bytes: size_in_bytes.0, ..self }
    }

    /// As [`Self::with_size_in_bytes`], on the value in place.
    pub fn set_size_in_bytes(&mut self, size_in_bytes: ByteCount) -> (r: &mut Self)
        ensures
            (*r) == (ResourceAllocationInfo { size_in_bytes: size_in_bytes.0, ..(*old(self)) }),
            *final(self) == *final(r),
    {
        let v = (*self).with_size_in_bytes(size_in_bytes);
        *self = v;
        self
    }

    /// The size in bytes.
    pub fn size_in_bytes(&self) -> (r: ByteCount)
        ensures
            r == ByteCount(self.size_in_bytes),
    {
        ByteCount(self.size_in_bytes)
    }

    /// Replaces the alignment.
    pub fn with_alignment(self, alignment: ByteCount) -> (r: Self)
        ensures
            r == (ResourceAllocationInfo { alignment: alignment.0, ..self }),
    {
        ResourceAllocationInfo { alignment: alignment.0, ..self }
    }

    /// As [`Self::with_alignment`], on the value in place.
    pub fn set_alignment(&mut self, alignment: ByteCount) -> (r: &mut Self)
        ensures
            (*r) == (ResourceAllocationInfo { alignment: alignment.0, ..(*old(self)) }),
            *final(self) == *final(r),
    {
        let v = (*self).with_alignment(alignment);
        *self = v;
        self
    }

    /// The alignment.
    pub fn alignment(&self) -> (r: ByteCount)
        ensures
            r == ByteCount(self.alignment),
    {
        ByteCount(self.alignment)
    }
}

/// A byte range of a mapped subresource (`D3D12_RANGE`).
#[derive(Clone, Copy, Debug, PartialEq, Eq)]
pub struct Range {
    pub begin: u64,
    pub end: u64,
}

impl Default for Range {
    /// The empty range at offset zero.
    fn default() -> (r: Self)
        ensures
            r == (Range {
                begin: 0,
                end: 0,
            }),
    {
        Range {
            begin: 0,
            end: 0,
        }
    }
}

impl Range {
    /// Replaces the begin.
    pub fn with_begin(self, begin: ByteCount) -> (r: Self)
        ensures
            r == (Range { begin: begin.0, ..self }),
    {
        Range { begin: begin.0, ..self }
    }

    /// As [`Self::with_begin`], on the value in place.
    pub fn set_begin(&mut self, begin: ByteCount) -> (r: &mut Self)
        ensures
            (*r) == (Range { begin: begin.0, ..(*old(self)) }),
            *final(self) == *final(r),
    {
        let v = (*self).with_begin(begin);
        *self = v;
        self
    }

    /// The begin.
    pub fn begin(&self) -> (r: ByteCount)
        ensures
            r == ByteCount(self.begin),
    {
        ByteCount(self.begin)
    }

    /// Replaces the end.
    pub fn with_end(self, end: ByteCount) -> (r: Self)
        ensures
            r == (Range { end: end.0, ..self }),
    {
        Range { end: end.0, ..self }
    }

    /// As [`Self::with_end`], on the value in place.
    pub fn set_end(&mut self, end: ByteCount) -> (r: &mut Self)
        ensures
            (*r) == (Range { end: end.0, ..(*old(self)) }),
            *final(self) == *final(r),
    {
        let v = (*self).with_end(end);
        *self = v;
        self
    }

    /// The end.
    pub fn end(&self) -> (r: ByteCount)
        ensures
            r == ByteCount(self.end),
    {
        ByteCount(self.end)
    }
}

/// A viewport (`D3D12_VIEWPORT`); its six coordinates are kept as IEEE-754 bit patterns.
#[derive(Clone, Copy, Debug, PartialEq, Eq)]
pub struct Viewport {
    pub top_left_x_bits: u32,
    pub top_left_y_bits: u32,
    pub width_bits: u32,
    pub height_bits: u32,
    pub min_depth_bits: u32,
    pub max_depth_bits: u32,
}

impl Default for Viewport {
    /// An empty viewport at the origin with depths from `0.0` to `1.0`.
    fn default() -> (r: Self)
        ensures
            r == (Viewport {
                top_left_x_bits: 0,
                top_left_y_bits: 0,
                width_bits: 0,
                height_bits: 0,
                min_depth_bits: 0,
                max_depth_bits: 0x3f80_0000,
            }),
    {
        Viewport {
            top_left_x_bits: 0,
            top_left_y_bits: 0,
            width_bits: 0,
            height_bits: 0,
            min_depth_bits: 0,
            max_depth_bits: 0x3f80_0000,
        }
    }
}

impl Viewport {
    /// Replaces the top left x bits.
    pub fn with_top_left_x_bits(self, top_left_x_bits: u32) -> (r: Self)
        ensures
            r == (Viewport { top_left_x_bits: top_left_x_bits, ..self }),
    {
        Viewport { top_left_x_bits: top_left_x_bits, ..self }
    }

    /// As [`Self::with_top_left_x_bits`], on the value in place.
    pub fn set_top_left_x_bits(&mut self, top_left_x_bits: u32) -> (r: &mut Self)
        ensures
            (*r) == (Viewport { top_left_x_bits: top_left_x_bits, ..(*old(self)) }),
            *final(self) == *final(r),
    {
        let v = (*self).with_top_left_x_bits(top_left_x_bits);
        *self = v;
        self
    }

    /// The top left x bits.
    pub fn top_left_x_bits(&self) -> (r: u32)
        ensures
            r == self.top_left_x_bits,
    {
        self.top_left_x_bits
    }

    /// Replaces the top left y bits.
    pub fn with_top_left_y_bits(self, top_left_y_bits: u32) -> (r: Self)
        ensures
            r == (Viewport { top_left_y_bits: top_left_y_bits, ..self }),
    {
        Viewport { top_left_y_bits: top_left_y_bits, ..self }
    }

    /// As [`Self::with_top_left_y_bits`], on the value in place.
    pub fn set_top_left_y_bits(&mut self, top_left_y_bits: u32) -> (r: &mut Self)
        ensures
            (*r) == (Viewport { top_left_y_bits: top_left_y_bits, ..(*old(self)) }),
            *final(self) == *final(r),
    {
        let v = (*self).with_top_left_y_bits(top_left_y_bits);
        *self = v;
        self
    }

    /// The top left y bits.
    pub fn top_left_y_bits(&self) -> (r: u32)
        ensures
            r == self.top_left_y_bits,
    {
        self.top_left_y_bits
    }

    /// Replaces the width bits.
    pub fn with_width_bits(self, width_bits: u32) -> (r: Self)
        ensures
            r == (Viewport { width_bits: width_bits, ..self }),
    {
        Viewport { width_bits: width_bits, ..self }
    }

    /// As [`Self::with_width_bits`], on the value in place.
    pub fn set_width_bits(&mut self, width_bits: u32) -> (r: &mut Self)
        ensures
            (*r) == (Viewport { width_bits: width_bits, ..(*old(self)) }),
            *final(self) == *final(r),
    {
        let v = (*self).with_width_bits(width_bits);
        *self = v;
        self
    }

    /// The width bits.
    pub fn width_bits(&self) -> (r: u32)
        ensures
            r == self.width_bits,
    {
        self.width_bits
    }

    /// Replaces the height bits.
    pub fn with_height_bits(self, height_bits: u32) -> (r: Self)
        ensures
            r == (Viewport { height_bits: height_bits, ..self }),
    {
        Viewport { height_bits: height_bits, ..self }
    }

    /// As [`Self::with_height_bits`], on the value in place.
    pub fn set_height_bits(&mut self, height_bits: u32) -> (r: &mut Self)
        ensures
            (*r) == (Viewport { height_bits: height_bits, ..(*old(self)) }),
            *final(self) == *final(r),
    {
        let v = (*self).with_height_bits(height_bits);
        *self = v;
        self
    }

    /// The height bits.
    pub fn height_bits(&self) -> (r: u32)
        ensures
            r == self.height_bits,
    {
        self.height_bits
    }

    /// Replaces the min depth bits.
    pub fn with_min_depth_bits(self, min_depth_bits: u32) -> (r: Self)
        ensures
            r == (Viewport { min_depth_bits: min_depth_bits, ..self }),
    {
        Viewport { min_depth_bits: min_depth_bits, ..self }
    }

    /// As [`Self::with_min_depth_bits`], on the value in place.
    pub fn set_min_depth_bits(&mut self, min_depth_bits: u32) -> (r: &mut Self)
        ensures
            (*r) == (Viewport { min_depth_bits: min_depth_bits, ..(*old(self)) }),
            *final(self) == *final(r),
    {
        let v = (*self).with_min_depth_bits(min_depth_bits);
        *self = v;
        self
    }

    /// The min depth bits.
    pub fn min_depth_bits(&self) -> (r: u32)
        ensures
            r == self.min_depth_bits,
    {
        self.min_depth_bits
    }

    /// Replaces the max depth bits.
    pub fn with_max_depth_bits(self, max_depth_bits: u32) -> (r: Self)
        ensures
            r == (Viewport { max_depth_bits: max_depth_bits, ..self }),
    {
        Viewport { max_depth_bits: max_depth_bits, ..self }
    }

    /// As [`Self::with_max_depth_bits`], on the value in place.
    pub fn set_max_depth_bits(&mut self, max_depth_bits: u32) -> (r: &mut Self)
        ensures
            (*r) == (Viewport { max_depth_bits: max_depth_bits, ..(*old(self)) }),
            *final(self) == *final(r),
    {
        let v = (*self).with_max_depth_bits(max_depth_bits);
        *self = v;
        self
    }

    /// The max depth bits.
    pub fn max_depth_bits(&self) -> (r: u32)
        ensures
            r == self.max_depth_bits,
    {
        self.max_depth_bits
    }
}

/// A rectangle (`D3D12_RECT`).
#[derive(Clone, Copy, Debug, PartialEq, Eq)]
pub struct Rect {
    pub left: i32,
    pub top: i32,
    pub right: i32,
    pub bottom: i32,
}

impl Default for Rect {
    /// The empty rectangle at the origin.
    fn default() -> (r: Self)
        ensures
            r == (Rect {
                left: 0,
                top: 0,
                right: 0,
                bottom: 0,
            }),
    {
        Rect {
            left: 0,
            top: 0,
            right: 0,
            bottom: 0,
        }
    }
}

impl Rect {
    /// Replaces the left.
    pub fn with_left(self, left: i32) -> (r: Self)
        ensures
            r == (Rect { left: left, ..self }),
    {
        Rect { left: left, ..self }
    }

    /// As [`Self::with_left`], on the value in place.
    pub fn set_left(&mut self, left: i32) -> (r: &mut Self)
        ensures
            (*r) == (Rect { left: left, ..(*old(self)) }),
            *final(self) == *final(r),
    {
        let v = (*self).with_left(left);
        *self = v;
        self
    }

    /// The left.
    pub fn left(&self) -> (r: i32)
        ensures
            r == self.left,
    {
        self.left
    }

    /// Replaces the top.
    pub fn with_top(self, top: i32) -> (r: Self)
        ensures
            r == (Rect { top: top, ..self }),
    {
        Rect { top: top, ..self }
    }

    /// As [`Self::with_top`], on the value in place.
    pub fn set_top(&mut self, top: i32) -> (r: &mut Self)
        ensures
            (*r) == (Rect { top: top, ..(*old(self)) }),
            *final(self) == *final(r),
    {
        let v = (*self).with_top(top);
        *self = v;
        self
    }

    /// The top.
    pub fn top(&self) -> (r: i32)
        ensures
            r == self.top,
    {
        self.top
    }

    /// Replaces the right.
    pub fn with_right(self, right: i32) -> (r: Self)
        ensures
            r == (Rect { right: right, ..self }),
    {
        Rect { right: right, ..self }
    }

    /// As [`Self::with_right`], on the value in place.
    pub fn set_right(&mut self, right: i32) -> (r: &mut Self)
        ensures
            (*r) == (Rect { right: right, ..(*old(self)) }),
            *final(self) == *final(r),
    {
        let v = (*self).with_right(right);
        *self = v;
        self
    }

    /// The right.
    pub fn right(&self) -> (r: i32)
        ensures
            r == self.right,
    {
        self.right
    }

    /// Replaces the bottom.
    pub fn with_bottom(self, bottom: i32) -> (r: Self)
        ensures
            r == (Rect { bottom: bottom, ..self }),
    {
        Rect { bottom: bottom, ..self }
    }

    /// As [`Self::with_bottom`], on the value in place.
    pub fn set_bottom(&mut self, bottom: i32) -> (r: &mut Self)
        ensures
            (*r) == (Rect { bottom: bottom, ..(*old(self)) }),
            *final(self) == *final(r),
    {
        let v = (*self).with_bottom(bottom);
        *self = v;
        self
    }

    /// The bottom.
    pub fn bottom(&self) -> (r: i32)
        ensures
            r == self.bottom,
    {
        self.bottom
    }
}

/// A three-dimensional box of texels (`D3D12_BOX`).
#[derive(Clone, Copy, Debug, PartialEq, Eq)]
pub struct Box {
    pub left: u32,
    pub top: u32,
    pub front: u32,
    pub right: u32,
    pub bottom: u32,
    pub back: u32,
}

impl Default for Box {
    /// A box of zero width, one row high and one slice deep at the origin.
    fn default() -> (r: Self)
        ensures
            r == (Box {
                left: 0,
                top: 0,
                front: 0,
                right: 0,
                bottom: 1,
                back: 1,
            }),
    {
        Box {
            left: 0,
            top: 0,
            front: 0,
            right: 0,
            bottom: 1,
            back: 1,
        }
    }
}

impl Box {
    /// Replaces the left.
    pub fn with_left(self, left: u32) -> (r: Self)
        ensures
            r == (Box { left: left, ..self }),
    {
        Box { left: left, ..self }
    }

    /// As [`Self::with_left`], on the value in place.
    pub fn set_left(&mut self, left: u32) -> (r: &mut Self)
        ensures
            (*r) == (Box { left: left, ..(*old(self)) }),
            *final(self) == *final(r),
    {
        let v = (*self).with_left(left);
        *self = v;
        self
    }

    /// The left.
    pub fn left(&self) -> (r: u32)
        ensures
            r == self.left,
    {
        self.left
    }

    /// Replaces the top.
    pub fn with_top(self, top: u32) -> (r: Self)
        ensures
            r == (Box { top: top, ..self }),
    {
        Box { top: top, ..self }
    }

    /// As [`Self::with_top`], on the value in place.
    pub fn set_top(&mut self, top: u32) -> (r: &mut Self)
        ensures
            (*r) == (Box { top: top, ..(*old(self)) }),
            *final(self) == *final(r),
    {
        let v = (*self).with_top(top);
        *self = v;
        self
    }

    /// The top.
    pub fn top(&self) -> (r: u32)
        ensures
            r == self.top,
    {
        self.top
    }

    /// Replaces the front.
    pub fn with_front(self, front: u32) -> (r: Self)
        ensures
            r == (Box { front: front, ..self }),
    {
        Box { front: front, ..self }
    }

    /// As [`Self::with_front`], on the value in place.
    pub fn set_front(&mut self, front: u32) -> (r: &mut Self)
        ensures
            (*r) == (Box { front: front, ..(*old(self)) }),
            *final(self) == *final(r),
    {
        let v = (*self).with_front(front);
        *self = v;
        self
    }

    /// The front.
    pub fn front(&self) -> (r: u32)
        ensures
            r == self.front,
    {
        self.front
    }

    /// Replaces the right.
    pub fn with_right(self, right: u32) -> (r: Self)
        ensures
            r == (Box { right: right, ..self }),
    {
        Box { right: right, ..self }
    }

    /// As [`Self::with_right`], on the value in place.
    pub fn set_right(&mut self, right: u32) -> (r: &mut Self)
        ensures
            (*r) == (Box { right: right, ..(*old(self)) }),
            *final(self) == *final(r),
    {
        let v = (*self).with_right(right);
        *self = v;
        self
    }

    /// The right.
    pub fn right(&self) -> (r: u32)
        ensures
            r == self.right,
    {
        self.right
    }

    /// Replaces the bottom.
    pub fn with_bottom(self, bottom: u32) -> (r: Self)
        ensures
            r == (Box { bottom: bottom, ..self }),
    {
        Box { bottom: bottom, ..self }
    }

    /// As [`Self::with_bottom`], on the value in place.
    pub fn set_bottom(&mut self, bottom: u32) -> (r: &mut Self)
        ensures
            (*r) == (Box { bottom: bottom, ..(*old(self)) }),
            *final(self) == *final(r),
    {
        let v = (*self).with_bottom(bottom);
        *self = v;
        self
    }

    /// The bottom.
    pub fn bottom(&self) -> (r: u32)
        ensures
            r == self.bottom,
    {
        self.bottom
    }

    /// Replaces the back.
    pub fn with_back(self, back: u32) -> (r: Self)
        ensures
            r == (Box { back: back, ..self }),
    {
        Box { back: back, ..self }
    }

    /// As [`Self::with_back`], on the value in place.
    pub fn set_back(&mut self, back: u32) -> (r: &mut Self)
        ensures
            (*r) == (Box { back: back, ..(*old(self)) }),
            *final(self) == *final(r),
    {
        let v = (*self).with_back(back);
        *self = v;
        self
    }

    /// The back.
    pub fn back(&self) -> (r: u32)
        ensures
            r == self.back,
    {
        self.back
    }
}

/// Depth and stencil clear values (`D3D12_DEPTH_STENCIL_VALUE`); the depth is kept as its IEEE-754 bit pattern.
#[derive(Clone, Copy, Debug, PartialEq, Eq)]
pub struct DepthStencilValue {
    pub depth_bits: u32,
    pub stencil: u8,
}

impl Default for DepthStencilValue {
    /// Depth `0.0` and stencil zero.
    fn default() -> (r: Self)
        ensures
            r == (DepthStencilValue {
                depth_bits: 0,
                stencil: 0,
            }),
    {
        DepthStencilValue {
            depth_bits: 0,
            stencil: 0,
        }
    }
}

impl DepthStencilValue {
    /// Replaces the depth bits.
    pub fn with_depth_bits(self, depth_bits: u32) -> (r: Self)
        ensures
            r == (DepthStencilValue { depth_bits: depth_bits, ..self }),
    {
        DepthStencilValue { depth_bits: depth_bits, ..self }
    }

    /// As [`Self::with_depth_bits`], on the value in place.
    pub fn set_depth_bits(&mut self, depth_bits: u32) -> (r: &mut Self)
        ensures
            (*r) == (DepthStencilValue { depth_bits: depth_bits, ..(*old(self)) }),
            *final(self) == *final(r),
    {
        let v = (*self).with_depth_bits(depth_bits);
        *self = v;
        self
    }

    /// The depth bits.
    pub fn depth_bits(&self) -> (r: u32)
        ensures
            r == self.depth_bits,
    {
        self.depth_bits
    }

    /// Replaces the stencil.
    pub fn with_stencil(self, stencil: u8) -> (r: Self)
        ensures
            r == (DepthStencilValue { stencil: stencil, ..self }),
    {
        DepthStencilValue { stencil: stencil, ..self }
    }

    /// As [`Self::with_stencil`], on the value in place.
    pub fn set_stencil(&mut self, stencil: u8) -> (r: &mut Self)
        ensures
            (*r) == (DepthStencilValue { stencil: stencil, ..(*old(self)) }),
            *final(self) == *final(r),
    {
        let v = (*self).with_stencil(stencil);
        *self = v;
        self
    }

    /// The stencil.
    pub fn stencil(&self) -> (r: u8)
        ensures
            r == self.stencil,
    {
        self.stencil
    }
}

/// Format and size of a subresource in a buffer (`D3D12_SUBRESOURCE_FOOTPRINT`).
#[derive(Clone, Copy, Debug, PartialEq, Eq)]
pub struct SubresourceFootprint {
    pub format: Format,
    pub width: u32,
    pub height: u32,
    pub depth: u32,
    pub row_pitch: u32,
}

impl Default for SubresourceFootprint {
    /// An `R8G8B8A8_UNorm` footprint of zero width, one row and one slice.
    fn default() -> (r: Self)
        ensures
            r == (SubresourceFootprint {
                format: Format::R8G8B8A8_UNorm,
                width: 0,
                height: 1,
                depth: 1,
                row_pitch: 0,
            }),
    {
        SubresourceFootprint {
            format: Format::R8G8B8A8_UNorm,
            width: 0,
            height: 1,
            depth: 1,
            row_pitch: 0,
        }
    }
}

impl SubresourceFootprint {
    /// Replaces the format.
    pub fn with_format(self, format: Format) -> (r: Self)
        ensures
            r == (SubresourceFootprint { format: format, ..self }),
    {
        SubresourceFootprint { format: format, ..self }
    }

    /// As [`Self::with_format`], on the value in place.
    pub fn set_format(&mut self, format: Format) -> (r: &mut Self)
        ensures
            (*r) == (SubresourceFootprint { format: format, ..(*old(self)) }),
            *final(self) == *final(r),
    {
        let v = (*self).with_format(format);
        *self = v;
        self
    }

    /// The format.
    pub fn format(&self) -> (r: Format)
        ensures
            r == self.format,
    {
        self.format
    }

    /// Replaces the width.
    pub fn with_width(self, width: u32) -> (r: Self)
        ensures
            r == (SubresourceFootprint { width: width, ..self }),
    {
        SubresourceFootprint { width: width, ..self }
    }

    /// As [`Self::with_width`], on the value in place.
    pub fn set_width(&mut self, width: u32) -> (r: &mut Self)
        ensures
            (*r) == (SubresourceFootprint { width: width, ..(*old(self)) }),
            *final(self) == *final(r),
    {
        let v = (*self).with_width(width);
        *self = v;
        self
    }

    /// The width.
    pub fn width(&self) -> (r: u32)
        ensures
            r == self.width,
    {
        self.width
    }

    /// Replaces the height.
    pub fn with_height(self, height: u32) -> (r: Self)
        ensures
            r == (SubresourceFootprint { height: height, ..self }),
    {
        SubresourceFootprint { height: height, ..self }
    }

    /// As [`Self::with_height`], on the value in place.
    pub fn set_height(&mut self, height: u32) -> (r: &mut Self)
        ensures
            (*r) == (SubresourceFootprint { height: height, ..(*old(self)) }),
            *final(self) == *final(r),
    {
        let v = (*self).with_height(height);
        *self = v;
        self
    }

    /// The height.
    pub fn height(&self) -> (r: u32)
        ensures
            r == self.height,
    {
        self.height
    }

    /// Replaces the depth.
    pub fn with_depth(self, depth: u32) -> (r: Self)
        ensures
            r == (SubresourceFootprint { depth: depth, ..self }),
    {
        SubresourceFootprint { depth: depth, ..self }
    }

    /// As [`Self::with_depth`], on the value in place.
    pub fn set_depth(&mut self, depth: u32) -> (r: &mut Self)
        ensures
            (*r) == (SubresourceFootprint { depth: depth, ..(*old(self)) }),
            *final(self) == *final(r),
    {
        let v = (*self).with_depth(depth);
        *self = v;
        self
    }

    /// The depth.
    pub fn depth(&self) -> (r: u32)
        ensures
            r == self.depth,
    {
        self.depth
    }

    /// Replaces the row pitch.
    pub fn with_row_pitch(self, row_pitch: ByteCount) -> (r: Self)
        ensures
            r == (SubresourceFootprint { row_pitch: row_pitch.0 as u32, ..self }),
    {
        SubresourceFootprint { row_pitch: row_pitch.0 as u32, ..self }
    }

    /// As [`Self::with_row_pitch`], on the value in place.
    pub fn set_row_pitch(&mut self, row_pitch: ByteCount) -> (r: &mut Self)
        ensures
            (*r) == (SubresourceFootprint { row_pitch: row_pitch.0 as u32, ..(*old(self)) }),
            *final(self) == *final(r),
    {
        let v = (*self).with_row_pitch(row_pitch);
        *self = v;
        self
    }

    /// The row pitch.
    pub fn row_pitch(&self) -> (r: ByteCount)
        ensures
            r == ByteCount(self.row_pitch as u64),
    {
        ByteCount(self.row_pitch as u64)
    }
}

/// A subresource footprint placed at an offset in a buffer (`D3D12_PLACED_SUBRESOURCE_FOOTPRINT`).
#[derive(Clone, Copy, Debug, PartialEq, Eq)]
pub struct PlacedSubresourceFootprint {
    pub offset: u64,
    pub footprint: SubresourceFootprint,
}

impl Default for PlacedSubresourceFootprint {
    /// The default footprint at offset zero.
    fn default() -> (r: Self)
        ensures
            r == (PlacedSubresourceFootprint {
                offset: 0,
                footprint: (SubresourceFootprint { format: Format::R8G8B8A8_UNorm, width: 0, height: 1, depth: 1, row_pitch: 0 }),
            }),
    {
        PlacedSubresourceFootprint {
            offset: 0,
            footprint: SubresourceFootprint::default(),
        }
    }
}

impl PlacedSubresourceFootprint {
    /// Replaces the offset.
    pub fn with_offset(self, offset: ByteCount) -> (r: Self)
        ensures
            r == (PlacedSubresourceFootprint { offset: offset.0, ..self }),
    {
        PlacedSubresourceFootprint { offset: offset.0, ..self }
    }

    /// As [`Self::with_offset`], on the value in place.
    pub fn set_offset(&mut self, offset: ByteCount) -> (r: &mut Self)
        ensures
            (*r) == (PlacedSubresourceFootprint { offset: offset.0, ..(*old(self)) }),
            *final(self) == *final(r),
    {
        let v = (*self).with_offset(offset);
        *self = v;
        self
    }

    /// The offset.
    pub fn offset(&self) -> (r: ByteCount)
        ensures
            r == ByteCount(self.offset),
    {
        ByteCount(self.offset)
    }

    /// Replaces the footprint.
    pub fn with_footprint(self, footprint: SubresourceFootprint) -> (r: Self)
        ensures
            r == (PlacedSubresourceFootprint { footprint: footprint, ..self }),
    {
        PlacedSubresourceFootprint { footprint: footprint, ..self }
    }

    /// As [`Self::with_footprint`], on the value in place.
    pub fn set_footprint(&mut self, footprint: SubresourceFootprint) -> (r: &mut Self)
        ensures
            (*r) == (PlacedSubresourceFootprint { footprint: footprint, ..(*old(self)) }),
            *final(self) == *final(r),
    {
        let v = (*self).with_footprint(footprint);
        *self = v;
        self
    }

    /// The footprint.
    pub fn footprint(&self) -> (r: SubresourceFootprint)
        ensures
            r == self.footprint,
    {
        self.footprint
    }
}

/// Source data of a subresource upload (`D3D12_SUBRESOURCE_DATA`).
#[derive(Clone, Copy, Debug, PartialEq, Eq)]
pub struct SubresourceData<'a> {
    pub data: &'a [u8],
    pub row_pitch: i64,
    pub slice_pitch: i64,
}

impl<'a> Default for SubresourceData<'a> {
    /// No data and zero pitches.
    fn default() -> (r: Self)
        ensures
            r == (SubresourceData {
                data: &[],
                row_pitch: 0,
                slice_pitch: 0,
            }),
    {
        SubresourceData {
            data: &[],
            row_pitch: 0,
            slice_pitch: 0,
        }
    }
}

impl<'a> SubresourceData<'a> {
    /// Replaces the source bytes.
    pub fn with_data(self, data: &'a [u8]) -> (r: Self)
        ensures
            r == (SubresourceData { data: data, ..self }),
    {
        SubresourceData { data: data, ..self }
    }

    /// As [`Self::with_data`], on the value in place.
    pub fn set_data(&mut self, data: &'a [u8]) -> (r: &mut Self)
        ensures
            (*r) == (SubresourceData { data: data, ..(*old(self)) }),
            *final(self) == *final(r),
    {
        let v = (*self).with_data(data);
        *self = v;
        self
    }

    /// Replaces the row pitch.
    pub fn with_row_pitch(self, row_pitch: ByteCount) -> (r: Self)
        ensures
            r == (SubresourceData { row_pitch: row_pitch.0 as i64, ..self }),
    {
        SubresourceData { row_pitch: row_pitch.0 as i64, ..self }
    }

    /// As [`Self::with_row_pitch`], on the value in place.
    pub fn set_row_pitch(&mut self, row_pitch: ByteCount) -> (r: &mut Self)
        ensures
            (*r) == (SubresourceData { row_pitch: row_pitch.0 as i64, ..(*old(self)) }),
            *final(self) == *final(r),
    {
        let v = (*self).with_row_pitch(row_pitch);
        *self = v;
        self
    }

    /// The row pitch.
    pub fn row_pitch(&self) -> (r: ByteCount)
        ensures
            r == ByteCount(self.row_pitch as u64),
    {
        ByteCount(self.row_pitch as u64)
    }

    /// Replaces the slice pitch.
    pub fn with_slice_pitch(self, slice_pitch: ByteCount) -> (r: Self)
        ensures
            r == (SubresourceData { slice_pitch: slice_pitch.0 as i64, ..self }),
    {
        SubresourceData { slice_pitch: slice_pitch.0 as i64, ..self }
    }

    /// As [`Self::with_slice_pitch`], on the value in place.
    pub fn set_slice_pitch(&mut self, slice_pitch: ByteCount) -> (r: &mut Self)
        ensures
            (*r) == (SubresourceData { slice_pitch: slice_pitch.0 as i64, ..(*old(self)) }),
            *final(self) == *final(r),
    {
        let v = (*self).with_slice_pitch(slice_pitch);
        *self = v;
        self
    }

    /// The slice pitch.
    pub fn slice_pitch(&self) -> (r: ByteCount)
        ensures
            r == ByteCount(self.slice_pitch as u64),
    {
        ByteCount(self.slice_pitch as u64)
    }
}

} // verus!
