//! Vertex, index and constant-buffer views, heap and queue descriptions, clear values and debug-layer messages.

use vstd::prelude::*;

use crate::enums::{CommandListType, CommandQueueFlags, CommandQueuePriority, DescriptorHeapFlags, DescriptorHeapType, Format, QueryHeapType, MessageCategory, MessageSeverity};
use crate::resource::{DepthStencilValue, GpuVirtualAddress};
use crate::utils::ByteCount;

verus! {

/// A view of a vertex buffer (`D3D12_VERTEX_BUFFER_VIEW`).
#[derive(Clone, Copy, Debug, PartialEq, Eq)]
pub struct VertexBufferView {
    pub buffer_location: GpuVirtualAddress,
    pub size_in_bytes: u32,
    pub stride_in_bytes: u32,
}

impl Default for VertexBufferView {
    /// An empty view at address zero.
    fn default() -> (r: Self)
        ensures
            r == (VertexBufferView {
                buffer_location: GpuVirtualAddress(0),
                size_in_bytes: 0,
                stride_in_bytes: 0,
            }),
    {
        VertexBufferView {
            buffer_location: GpuVirtualAddress(0),
            size_in_bytes: 0,
            stride_in_bytes: 0,
        }
    }
}

impl VertexBufferView {
    /// Replaces the buffer location.
    pub fn with_buffer_location(self, buffer_location: GpuVirtualAddress) -> (r: Self)
        ensures
            r == (VertexBufferView { buffer_location: buffer_location, ..self }),
    {
        VertexBufferView { buffer_location: buffer_location, ..self }
    }

    /// As [`Self::with_buffer_location`], on the value in place.
    pub fn set_buffer_location(&mut self, buffer_location: GpuVirtualAddress) -> (r: &mut Self)
        ensures
            (*r) == (VertexBufferView { buffer_location: buffer_location, ..(*old(self)) }),
            *final(self) == *final(r),
    {
        let v = (*self).with_buffer_location(buffer_location);
        *self = v;
        self
    }

    /// The buffer location.
    pub fn buffer_location(&self) -> (r: GpuVirtualAddress)
        ensures
            r == self.buffer_location,
    {
        self.buffer_location
    }

    /// Replaces the size in bytes.
    pub fn with_size_in_bytes(self, size_in_bytes: ByteCount) -> (r: Self)
        ensures
            r == (VertexBufferView { size_in_bytes: size_in_bytes.0 as u32, ..self }),
    {
        VertexBufferView { size_in_bytes: size_in_bytes.0 as u32, ..self }
    }

    /// As [`Self::with_size_in_bytes`], on the value in place.
    pub fn set_size_in_bytes(&mut self, size_in_bytes: ByteCount) -> (r: &mut Self)
        ensures
            (*r) == (VertexBufferView { size_in_bytes: size_in_bytes.0 as u32, ..(*old(self)) }),
            *final(self) == *final(r),
    {
        let v = (*self).with_size_in_bytes(size_in_bytes);
        *self = v;
        self
    }

    /// The size in bytes.
    pub fn size_in_bytes(&self) -> (r: ByteCount)
        ensures
            r == ByteCount(self.size_in_bytes as u64),
    {
        ByteCount(self.size_in_bytes as u64)
    }

    /// Replaces the stride in bytes.
    pub fn with_stride_in_bytes(self, stride_in_bytes: ByteCount) -> (r: Self)
        ensures
            r == (VertexBufferView { stride_in_bytes: stride_in_bytes.0 as u32, ..self }),
    {
        VertexBufferView { stride_in_bytes: stride_in_bytes.0 as u32, ..self }
    }

    /// As [`Self::with_stride_in_bytes`], on the value in place.
    pub fn set_stride_in_bytes(&mut self, stride_in_bytes: ByteCount) -> (r: &mut Self)
        ensures
            (*r) == (VertexBufferView { stride_in_bytes: stride_in_bytes.0 as u32, ..(*old(self)) }),
            *final(self) == *final(r),
    {
        let v = (*self).with_stride_in_bytes(stride_in_bytes);
        *self = v;
        self
    }

    /// The stride in bytes.
    pub fn stride_in_bytes(&self) -> (r: ByteCount)
        ensures
            r == ByteCount(self.stride_in_bytes as u64),
    {
        ByteCount(self.stride_in_bytes as u64)
    }
}

/// A view of an index buffer (`D3D12_INDEX_BUFFER_VIEW`).
#[derive(Clone, Copy, Debug, PartialEq, Eq)]
pub struct IndexBufferView {
    pub buffer_location: GpuVirtualAddress,
    pub size_in_bytes: u32,
    pub format: Format,
}

impl Default for IndexBufferView {
    /// An empty view at address zero with unknown index format.
    fn default() -> (r: Self)
        ensures
            r == (IndexBufferView {
                buffer_location: GpuVirtualAddress(0),
                size_in_bytes: 0,
                format: Format::Unknown,
            }),
    {
        IndexBufferView {
            buffer_location: GpuVirtualAddress(0),
            size_in_bytes: 0,
            format: Format::Unknown,
        }
    }
}

impl IndexBufferView {
    /// Replaces the buffer location.
    pub fn with_buffer_location(self, buffer_location: GpuVirtualAddress) -> (r: Self)
        ensures
            r == (IndexBufferView { buffer_location: buffer_location, ..self }),
    {
        IndexBufferView { buffer_location: buffer_location, ..self }
    }

    /// As [`Self::with_buffer_location`], on the value in place.
    pub fn set_buffer_location(&mut self, buffer_location: GpuVirtualAddress) -> (r: &mut Self)
        ensures
            (*r) == (IndexBufferView { buffer_location: buffer_location, ..(*old(self)) }),
            *final(self) == *final(r),
    {
        let v = (*self).with_buffer_location(buffer_location);
        *self = v;
        self
    }

    /// The buffer location.
    pub fn buffer_location(&self) -> (r: GpuVirtualAddress)
        ensures
            r == self.buffer_location,
    {
        self.buffer_location
    }

    /// Replaces the size in bytes.
    pub fn with_size_in_bytes(self, size_in_bytes: ByteCount) -> (r: Self)
        ensures
            r == (IndexBufferView { size_in_bytes: size_in_bytes.0 as u32, ..self }),
    {
        IndexBufferView { size_in_bytes: size_in_bytes.0 as u32, ..self }
    }

    /// As [`Self::with_size_in_bytes`], on the value in place.
    pub fn set_size_in_bytes(&mut self, size_in_bytes: ByteCount) -> (r: &mut Self)
        ensures
            (*r) == (IndexBufferView { size_in_bytes: size_in_bytes.0 as u32, ..(*old(self)) }),
            *final(self) == *final(r),
    {
        let v = (*self).with_size_in_bytes(size_in_bytes);
        *self = v;
        self
    }

    /// The size in bytes.
    pub fn size_in_bytes(&self) -> (r: ByteCount)
        ensures
            r == ByteCount(self.size_in_bytes as u64),
    {
        ByteCount(self.size_in_bytes as u64)
    }

    /// Replaces the format.
    pub fn with_format(self, format: Format) -> (r: Self)
        ensures
            r == (IndexBufferView { format: format, ..self }),
    {
        IndexBufferView { format: format, ..self }
    }

    /// As [`Self::with_format`], on the value in place.
    pub fn set_format(&mut self, format: Format) -> (r: &mut Self)
        ensures
            (*r) == (IndexBufferView { format: format, ..(*old(self)) }),
            *final(self) == *final(r),
    {
        let v = (*self).with_format(format);
        *self = v;
        self
    }

    /// The format.
    pub fn format(&self) -> (r: Format)
        ensures
            r == self.format,
    {
        self.format
    }
}

/// A view of a constant buffer (`D3D12_CONSTANT_BUFFER_VIEW_DESC`).
#[derive(Clone, Copy, Debug, PartialEq, Eq)]
pub struct ConstantBufferViewDesc {
    pub buffer_location: GpuVirtualAddress,
    pub size_in_bytes: u32,
}

impl Default for ConstantBufferViewDesc {
    /// An empty view at address zero.
    fn default() -> (r: Self)
        ensures
            r == (ConstantBufferViewDesc {
                buffer_location: GpuVirtualAddress(0),
                size_in_bytes: 0,
            }),
    {
        ConstantBufferViewDesc {
            buffer_location: GpuVirtualAddress(0),
            size_in_bytes: 0,
        }
    }
}

impl ConstantBufferViewDesc {
    /// Replaces the buffer location.
    pub fn with_buffer_location(self, buffer_location: GpuVirtualAddress) -> (r: Self)
        ensures
            r == (ConstantBufferViewDesc { buffer_location: buffer_location, ..self }),
    {
        ConstantBufferViewDesc { buffer_location: buffer_location, ..self }
    }

    /// As [`Self::with_buffer_location`], on the value in place.
    pub fn set_buffer_location(&mut self, buffer_location: GpuVirtualAddress) -> (r: &mut Self)
        ensures
            (*r) == (ConstantBufferViewDesc { buffer_location: buffer_location, ..(*old(self)) }),
            *final(self) == *final(r),
    {
        let v = (*self).with_buffer_location(buffer_location);
        *self = v;
        self
    }

    /// The buffer location.
    pub fn buffer_location(&self) -> (r: GpuVirtualAddress)
        ensures
            r == self.buffer_location,
    {
        self.buffer_location
    }

    /// Replaces the size in bytes.
    pub fn with_size_in_bytes(self, size_in_bytes: ByteCount) -> (r: Self)
        ensures
            r == (ConstantBufferViewDesc { size_in_bytes: size_in_bytes.0 as u32, ..self }),
    {
        ConstantBufferViewDesc { size_in_bytes: size_in_bytes.0 as u32, ..self }
    }

    /// As [`Self::with_size_in_bytes`], on the value in place.
    pub fn set_size_in_bytes(&mut self, size_in_bytes: ByteCount) -> (r: &mut Self)
        ensures
            (*r) == (ConstantBufferViewDesc { size_in_bytes: size_in_bytes.0 as u32, ..(*old(self)) }),
            *final(self) == *final(r),
    {
        let v = (*self).with_size_in_bytes(size_in_bytes);
        *self = v;
        self
    }

    /// The size in bytes.
    pub fn size_in_bytes(&self) -> (r: ByteCount)
        ensures
            r == ByteCount(self.size_in_bytes as u64),
    {
        ByteCount(self.size_in_bytes as u64)
    }
}

/// Description of a descriptor heap (`D3D12_DESCRIPTOR_HEAP_DESC`).
#[derive(Clone, Copy, Debug, PartialEq, Eq)]
pub struct DescriptorHeapDesc {
    pub heap_type: DescriptorHeapType,
    pub num_descriptors: u32,
    pub flags: DescriptorHeapFlags,
    pub node_mask: u32,
}

impl Default for DescriptorHeapDesc {
    /// An empty, CPU-only CBV/SRV/UAV heap on node zero.
    fn default() -> (r: Self)
        ensures
            r == (DescriptorHeapDesc {
                heap_type: DescriptorHeapType::CbvSrvUav,
                num_descriptors: 0,
                flags: (DescriptorHeapFlags { bits: 0 }),
                node_mask: 0,
            }),
    {
        DescriptorHeapDesc {
            heap_type: DescriptorHeapType::CbvSrvUav,
            num_descriptors: 0,
            flags: DescriptorHeapFlags::empty(),
            node_mask: 0,
        }
    }
}

impl DescriptorHeapDesc {
    /// Replaces the heap type.
    pub fn with_heap_type(self, heap_type: DescriptorHeapType) -> (r: Self)
        ensures
            r == (DescriptorHeapDesc { heap_type: heap_type, ..self }),
    {
        DescriptorHeapDesc { heap_type: heap_type, ..self }
    }

    /// As [`Self::with_heap_type`], on the value in place.
    pub fn set_heap_type(&mut self, heap_type: DescriptorHeapType) -> (r: &mut Self)
        ensures
            (*r) == (DescriptorHeapDesc { heap_type: heap_type, ..(*old(self)) }),
            *final(self) == *final(r),
    {
        let v = (*self).with_heap_type(heap_type);
        *self = v;
        self
    }

    /// The heap type.
    pub fn heap_type(&self) -> (r: DescriptorHeapType)
        ensures
            r == self.heap_type,
    {
        self.heap_type
    }

    /// Replaces the num descriptors.
    pub fn with_num_descriptors(self, count: u32) -> (r: Self)
        ensures
            r == (DescriptorHeapDesc { num_descriptors: count, ..self }),
    {
        DescriptorHeapDesc { num_descriptors: count, ..self }
    }

    /// As [`Self::with_num_descriptors`], on the value in place.
    pub fn set_num_descriptors(&mut self, count: u32) -> (r: &mut Self)
        ensures
            (*r) == (DescriptorHeapDesc { num_descriptors: count, ..(*old(self)) }),
            *final(self) == *final(r),
    {
        let v = (*self).with_num_descriptors(count);
        *self = v;
        self
    }

    /// The num descriptors.
    pub fn num_descriptors(&self) -> (r: u32)
        ensures
            r == self.num_descriptors,
    {
        self.num_descriptors
    }

    /// Replaces the flags.
    pub fn with_flags(self, flags: DescriptorHeapFlags) -> (r: Self)
        ensures
            r == (DescriptorHeapDesc { flags: flags, ..self }),
    {
        DescriptorHeapDesc { flags: flags, ..self }
    }

    /// As [`Self::with_flags`], on the value in place.
    pub fn set_flags(&mut self, flags: DescriptorHeapFlags) -> (r: &mut Self)
        ensures
            (*r) == (DescriptorHeapDesc { flags: flags, ..(*old(self)) }),
            *final(self) == *final(r),
    {
        let v = (*self).with_flags(flags);
        *self = v;
        self
    }

    /// The flags.
    pub fn flags(&self) -> (r: DescriptorHeapFlags)
        ensures
            r == self.flags,
    {
        self.flags
    }

    /// Replaces the node mask.
    pub fn with_node_mask(self, node_mask: u32) -> (r: Self)
        ensures
            r == (DescriptorHeapDesc { node_mask: node_mask, ..self }),
    {
        DescriptorHeapDesc { node_mask: node_mask, ..self }
    }

    /// As [`Self::with_node_mask`], on the value in place.
    pub fn set_node_mask(&mut self, node_mask: u32) -> (r: &mut Self)
        ensures
            (*r) == (DescriptorHeapDesc { node_mask: node_mask, ..(*old(self)) }),
            *final(self) == *final(r),
    {
        let v = (*self).with_node_mask(node_mask);
        *self = v;
        self
    }

    /// The node mask.
    pub fn node_mask(&self) -> (r: u32)
        ensures
            r == self.node_mask,
    {
        self.node_mask
    }
}

/// Description of a command queue (`D3D12_COMMAND_QUEUE_DESC`).
#[derive(Clone, Copy, Debug, PartialEq, Eq)]
pub struct CommandQueueDesc {
    pub queue_type: CommandListType,
    pub priority: CommandQueuePriority,
    pub flags: CommandQueueFlags,
    pub node_mask: u32,
}

impl Default for CommandQueueDesc {
    /// A direct queue of normal priority with no flags on node zero.
    fn default() -> (r: Self)
        ensures
            r == (CommandQueueDesc {
                queue_type: CommandListType::Direct,
                priority: CommandQueuePriority::Normal,
                flags: (CommandQueueFlags { bits: 0 }),
                node_mask: 0,
            }),
    {
        CommandQueueDesc {
            queue_type: CommandListType::Direct,
            priority: CommandQueuePriority::Normal,
            flags: CommandQueueFlags::empty(),
            node_mask: 0,
        }
    }
}

impl CommandQueueDesc {
    /// Replaces the queue type.
    pub fn with_queue_type(self, command_list_type: CommandListType) -> (r: Self)
        ensures
            r == (CommandQueueDesc { queue_type: command_list_type, ..self }),
    {
        CommandQueueDesc { queue_type: command_list_type, ..self }
    }

    /// As [`Self::with_queue_type`], on the value in place.
    pub fn set_queue_type(&mut self, command_list_type: CommandListType) -> (r: &mut Self)
        ensures
            (*r) == (CommandQueueDesc { queue_type: command_list_type, ..(*old(self)) }),
            *final(self) == *final(r),
    {
        let v = (*self).with_queue_type(command_list_type);
        *self = v;
        self
    }

    /// The queue type.
    pub fn queue_type(&self) -> (r: CommandListType)
        ensures
            r == self.queue_type,
    {
        self.queue_type
    }

    /// Replaces the priority.
    pub fn with_priority(self, priority: CommandQueuePriority) -> (r: Self)
        ensures
            r == (CommandQueueDesc { priority: priority, ..self }),
    {
        CommandQueueDesc { priority: priority, ..self }
    }

    /// As [`Self::with_priority`], on the value in place.
    pub fn set_priority(&mut self, priority: CommandQueuePriority) -> (r: &mut Self)
        ensures
            (*r) == (CommandQueueDesc { priority: priority, ..(*old(self)) }),
            *final(self) == *final(r),
    {
        let v = (*self).with_priority(priority);
        *self = v;
        self
    }

    /// The priority.
    pub fn priority(&self) -> (r: CommandQueuePriority)
        ensures
            r == self.priority,
    {
        self.priority
    }

    /// Replaces the flags.
    pub fn with_flags(self, flags: CommandQueueFlags) -> (r: Self)
        ensures
            r == (CommandQueueDesc { flags: flags, ..self }),
    {
        CommandQueueDesc { flags: flags, ..self }
    }

    /// As [`Self::with_flags`], on the value in place.
    pub fn set_flags(&mut self, flags: CommandQueueFlags) -> (r: &mut Self)
        ensures
            (*r) == (CommandQueueDesc { flags: flags, ..(*old(self)) }),
            *final(self) == *final(r),
    {
        let v = (*self).with_flags(flags);
        *self = v;
        self
    }

    /// The flags.
    pub fn flags(&self) -> (r: CommandQueueFlags)
        ensures
            r == self.flags,
    {
        self.flags
    }

    /// Replaces the node mask.
    pub fn with_node_mask(self, node_mask: u32) -> (r: Self)
        ensures
            r == (CommandQueueDesc { node_mask: node_mask, ..self }),
    {
        CommandQueueDesc { node_mask: node_mask, ..self }
    }

    /// As [`Self::with_node_mask`], on the value in place.
    pub fn set_node_mask(&mut self, node_mask: u32) -> (r: &mut Self)
        ensures
            (*r) == (CommandQueueDesc { node_mask: node_mask, ..(*old(self)) }),
            *final(self) == *final(r),
    {
        let v = (*self).with_node_mask(node_mask);
        *self = v;
        self
    }

    /// The node mask.
    pub fn node_mask(&self) -> (r: u32)
        ensures
            r == self.node_mask,
    {
        self.node_mask
    }
}

/// Description of a query heap (`D3D12_QUERY_HEAP_DESC`).
#[derive(Clone, Copy, Debug, PartialEq, Eq)]
pub struct QueryHeapDesc {
    pub heap_type: QueryHeapType,
    pub count: u32,
    pub node_mask: u32,
}

impl Default for QueryHeapDesc {
    /// An empty timestamp query heap on node zero.
    fn default() -> (r: Self)
        ensures
            r == (QueryHeapDesc {
                heap_type: QueryHeapType::Timestamp,
                count: 0,
                node_mask: 0,
            }),
    {
        QueryHeapDesc {
            heap_type: QueryHeapType::Timestamp,
            count: 0,
            node_mask: 0,
        }
    }
}

impl QueryHeapDesc {
    /// Replaces the heap type.
    pub fn with_heap_type(self, ty: QueryHeapType) -> (r: Self)
        ensures
            r == (QueryHeapDesc { heap_type: ty, ..self }),
    {
        QueryHeapDesc { heap_type: ty, ..self }
    }

    /// As [`Self::with_heap_type`], on the value in place.
    pub fn set_heap_type(&mut self, ty: QueryHeapType) -> (r: &mut Self)
        ensures
            (*r) == (QueryHeapDesc { heap_type: ty, ..(*old(self)) }),
            *final(self) == *final(r),
    {
        let v = (*self).with_heap_type(ty);
        *self = v;
        self
    }

    /// The heap type.
    pub fn heap_type(&self) -> (r: QueryHeapType)
        ensures
            r == self.heap_type,
    {
        self.heap_type
    }

    /// Replaces the count.
    pub fn with_count(self, count: u32) -> (r: Self)
        ensures
            r == (QueryHeapDesc { count: count, ..self }),
    {
        QueryHeapDesc { count: count, ..self }
    }

    /// As [`Self::with_count`], on the value in place.
    pub fn set_count(&mut self, count: u32) -> (r: &mut Self)
        ensures
            (*r) == (QueryHeapDesc { count: count, ..(*old(self)) }),
            *final(self) == *final(r),
    {
        let v = (*self).with_count(count);
        *self = v;
        self
    }

    /// The count.
    pub fn count(&self) -> (r: u32)
        ensures
            r == self.count,
    {
        self.count
    }

    /// Replaces the node mask.
    pub fn with_node_mask(self, node_mask: u32) -> (r: Self)
        ensures
            r == (QueryHeapDesc { node_mask: node_mask, ..self }),
    {
        QueryHeapDesc { node_mask: node_mask, ..self }
    }

    /// As [`Self::with_node_mask`], on the value in place.
    pub fn set_node_mask(&mut self, node_mask: u32) -> (r: &mut Self)
        ensures
            (*r) == (QueryHeapDesc { node_mask: node_mask, ..(*old(self)) }),
            *final(self) == *final(r),
    {
        let v = (*self).with_node_mask(node_mask);
        *self = v;
        self
    }

    /// The node mask.
    pub fn node_mask(&self) -> (r: u32)
        ensures
            r == self.node_mask,
    {
        self.node_mask
    }
}

/// The value of a clear: a colour or depth and stencil (`D3D12_CLEAR_VALUE`'s union); colour
/// channels are kept as IEEE-754 bit patterns.
#[derive(Clone, Copy, Debug, PartialEq, Eq)]
pub enum ClearValueData {
    Color([u32; 4]),
    DepthStencil(DepthStencilValue),
}

/// An optimized clear value of a resource (`D3D12_CLEAR_VALUE`).
#[derive(Clone, Copy, Debug, PartialEq, Eq)]
pub struct ClearValue {
    pub format: Format,
    pub value: ClearValueData,
}

impl Default for ClearValue {
    /// Unknown format, cleared to zero.
    fn default() -> (r: Self)
        ensures
            r == (ClearValue {
                format: Format::Unknown,
                value: ClearValueData::Color([0u32, 0u32, 0u32, 0u32]),
            }),
    {
        ClearValue {
            format: Format::Unknown,
            value: ClearValueData::Color([0u32, 0u32, 0u32, 0u32]),
        }
    }
}

impl ClearValue {
    /// Replaces the format.
    pub fn with_format(self, format: Format) -> (r: Self)
        ensures
            r == (ClearValue { format: format, ..self }),
    {
        ClearValue { format: format, ..self }
    }

    /// As [`Self::with_format`], on the value in place.
    pub fn set_format(&mut self, format: Format) -> (r: &mut Self)
        ensures
            (*r) == (ClearValue { format: format, ..(*old(self)) }),
            *final(self) == *final(r),
    {
        let v = (*self).with_format(format);
        *self = v;
        self
    }

    /// The format.
    pub fn format(&self) -> (r: Format)
        ensures
            r == self.format,
    {
        self.format
    }

    /// Clears to the colour whose channels have the bit patterns `color_bits`.
    pub fn with_color_bits(self, color_bits: [u32; 4]) -> (r: Self)
        ensures
            r == (ClearValue { value: ClearValueData::Color(color_bits), ..self }),
    {
        ClearValue { value: ClearValueData::Color(color_bits), ..self }
    }

    /// As [`Self::with_color_bits`], on the value in place.
    pub fn set_color_bits(&mut self, color_bits: [u32; 4]) -> (r: &mut Self)
        ensures
            (*r) == (ClearValue { value: ClearValueData::Color(color_bits), ..(*old(self)) }),
            *final(self) == *final(r),
    {
        let v = (*self).with_color_bits(color_bits);
        *self = v;
        self
    }

    /// The colour's bit patterns, when the value is a colour.
    pub fn color_bits(&self) -> (r: Option<[u32; 4]>)
        ensures
            r == (match self.value {
                ClearValueData::Color(c) => Some(c),
                ClearValueData::DepthStencil(_) => None,
            }),
    {
        match self.value {
            ClearValueData::Color(c) => Some(c),
            ClearValueData::DepthStencil(_) => None,
        }
    }

    /// Clears to `depth_stencil`.
    pub fn with_depth_stencil(self, depth_stencil: &DepthStencilValue) -> (r: Self)
        ensures
            r == (ClearValue { value: ClearValueData::DepthStencil(*depth_stencil), ..self }),
    {
        ClearValue { value: ClearValueData::DepthStencil(*depth_stencil), ..self }
    }

    /// As [`Self::with_depth_stencil`], on the value in place.
    pub fn set_depth_stencil(&mut self, depth_stencil: &DepthStencilValue) -> (r: &mut Self)
        ensures
            (*r) == (ClearValue { value: ClearValueData::DepthStencil(*depth_stencil), ..(*old(self)) }),
            *final(self) == *final(r),
    {
        let v = (*self).with_depth_stencil(depth_stencil);
        *self = v;
        self
    }

    /// The depth and stencil, when the value is one.
    pub fn depth_stencil(&self) -> (r: Option<DepthStencilValue>)
        ensures
            r == (match self.value {
                ClearValueData::DepthStencil(d) => Some(d),
                ClearValueData::Color(_) => None,
            }),
    {
        match self.value {
            ClearValueData::DepthStencil(d) => Some(d),
            ClearValueData::Color(_) => None,
        }
    }
}

/// A debug layer message (`D3D12_MESSAGE`): its category, severity, numeric identifier and text.
#[derive(Clone, Debug, PartialEq, Eq)]
pub struct Message {
    pub category: MessageCategory,
    pub severity: MessageSeverity,
    pub id: i32,
    pub description: Vec<u8>,
}

impl Default for Message {
    /// An empty miscellaneous message of the lowest severity.
    fn default() -> (r: Self)
        ensures
            r.category == MessageCategory::Miscellaneous,
            r.severity == MessageSeverity::Message,
            r.id == 0,
            r.description@.len() == 0,
    {
        Message {
            category: MessageCategory::Miscellaneous,
            severity: MessageSeverity::Message,
            id: 0,
            description: Vec::new(),
        }
    }
}

} // verus!
