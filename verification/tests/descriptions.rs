use rusty_d3d12::{
    AdapterDesc, AlphaMode, Luid, Box, CommandListType, CommandQueueDesc, CommandQueuePriority,
    DescriptorHeapDesc, DescriptorHeapFlags, DescriptorHeapType, Format, HeapDesc, HeapFlags,
    HeapProperties, HeapType, IndexBufferView, Range, Rect, ResourceDesc, ResourceDimension,
    ResourceFlags, SampleDesc, Scaling, SwapEffect, SwapchainDesc, TextureLayout, Usage,
    VertexBufferView, ByteCount, GpuVirtualAddress, SubresourceFootprint,
    PlacedSubresourceFootprint, SubresourceData, FeatureDataD3DOptions, FeatureDataShaderModel,
    ShaderModel, QueryHeapDesc, QueryHeapType, ClearValue, DepthStencilValue, Message,
    MessageSeverity, ResourceAllocationInfo, ConstantBufferViewDesc, Viewport,
};

#[test]
fn sample_desc_defaults_and_setters() {
    let d = SampleDesc::default();
    assert_eq!((d.count(), d.quality()), (1, 0));
    let d = d.with_count(4).with_quality(2);
    assert_eq!((d.count(), d.quality()), (4, 2));
}

#[test]
fn swapchain_desc_defaults() {
    let d = SwapchainDesc::default();
    assert_eq!(d.width(), 0);
    assert_eq!(d.height(), 0);
    assert_eq!(d.format(), Format::R8G8B8A8_UNorm);
    assert!(!d.stereo());
    assert_eq!(d.sample_desc(), SampleDesc::default());
    assert_eq!(d.buffer_usage(), Usage::render_target_output());
    assert_eq!(d.buffer_count(), 2);
    assert_eq!(d.scaling(), Scaling::Stretch);
    assert_eq!(d.swap_effect(), SwapEffect::FlipDiscard);
    assert_eq!(d.alpha_mode(), AlphaMode::Unspecified);
    assert_eq!(d.flags().bits(), 0x800);
}

#[test]
fn swapchain_desc_setters_keep_other_fields() {
    let d = SwapchainDesc::default()
        .with_width(1920)
        .with_height(1080)
        .with_sample_desc(&SampleDesc::default().with_count(8))
        .with_stereo(true);
    assert_eq!((d.width(), d.height()), (1920, 1080));
    assert_eq!(d.sample_desc().count(), 8);
    assert!(d.stereo());
    assert_eq!(d.buffer_count(), 2);
}

#[test]
fn adapter_description_decodes_up_to_nul() {
    let mut desc = AdapterDesc::default();
    for (i, c) in "WARP".encode_utf16().enumerate() {
        desc.description[i] = c;
    }
    assert_eq!(desc.description(), Some("WARP".to_string()));
    assert_eq!(AdapterDesc::default().description(), Some(String::new()));
}

#[test]
fn adapter_description_without_nul() {
    let mut desc = AdapterDesc::default();
    desc.description = [0x41; 128];
    assert_eq!(desc.description(), None);
}

#[test]
fn adapter_software_flag() {
    let mut desc = AdapterDesc::default();
    assert!(!desc.is_software());
    desc.flags = 2;
    assert!(desc.is_software());
    desc.flags = 1;
    assert!(!desc.is_software());
}

#[test]
fn resource_desc_defaults_and_setters() {
    let d = ResourceDesc::default();
    assert_eq!(d.dimension(), ResourceDimension::Unknown);
    assert_eq!(d.alignment(), ByteCount(65536));
    assert_eq!((d.width(), d.height(), d.depth_or_array_size(), d.mip_levels()), (0, 1, 1, 1));
    assert_eq!(d.format(), Format::Unknown);
    assert_eq!(d.layout(), TextureLayout::Unknown);
    assert_eq!(d.flags(), ResourceFlags::empty());
    let d = d
        .with_dimension(ResourceDimension::Texture2D)
        .with_width(640)
        .with_height(480)
        .with_format(Format::R8G8B8A8_UNorm)
        .with_flags(ResourceFlags::allow_render_target().union(ResourceFlags::allow_unordered_access()));
    assert_eq!(d.dimension(), ResourceDimension::Texture2D);
    assert_eq!((d.width(), d.height()), (640, 480));
    assert_eq!(d.flags().bits(), 5);
    assert!(d.flags().contains(ResourceFlags::allow_unordered_access()));
    assert!(!d.flags().contains(ResourceFlags::allow_depth_stencil()));
}

#[test]
fn heap_descriptions() {
    let p = HeapProperties::default().with_heap_type(HeapType::Upload).with_visibility_node_mask(3);
    assert_eq!(p.heap_type(), HeapType::Upload);
    assert_eq!(p.visible_node_mask(), 3);
    assert_eq!(p.creation_node_mask(), 0);
    let h = HeapDesc::default()
        .with_size_in_bytes(ByteCount(1 << 20))
        .with_properties(&p)
        .with_flags(HeapFlags::shared());
    assert_eq!(h.size_in_bytes(), ByteCount(1 << 20));
    assert_eq!(h.properties(), p);
    assert_eq!(h.flags().bits(), 1);
    assert_eq!(h.alignment(), ByteCount(0));
    let info = ResourceAllocationInfo::default().with_alignment(ByteCount(4096));
    assert_eq!(info.alignment(), ByteCount(4096));
}

#[test]
fn geometry_defaults() {
    let b = Box::default();
    assert_eq!((b.left(), b.top(), b.front(), b.right(), b.bottom(), b.back()), (0, 0, 0, 0, 1, 1));
    let r = Rect::default().with_right(100).with_bottom(-5);
    assert_eq!((r.left(), r.top(), r.right(), r.bottom()), (0, 0, 100, -5));
    let range = Range::default().with_begin(ByteCount(16)).with_end(ByteCount(32));
    assert_eq!((range.begin(), range.end()), (ByteCount(16), ByteCount(32)));
}

#[test]
fn buffer_views_truncate_sizes_to_32_bits() {
    let v = VertexBufferView::default()
        .with_buffer_location(GpuVirtualAddress(0x1000))
        .with_size_in_bytes(ByteCount(0x1_0000_0010))
        .with_stride_in_bytes(ByteCount(12));
    assert_eq!(v.buffer_location(), GpuVirtualAddress(0x1000));
    assert_eq!(v.size_in_bytes(), ByteCount(0x10));
    assert_eq!(v.stride_in_bytes(), ByteCount(12));
    let i = IndexBufferView::default().with_format(Format::R32_UInt).with_size_in_bytes(ByteCount(36));
    assert_eq!(i.format(), Format::R32_UInt);
    assert_eq!(i.size_in_bytes(), ByteCount(36));
    let c = ConstantBufferViewDesc::default().with_size_in_bytes(ByteCount(256));
    assert_eq!(c.size_in_bytes(), ByteCount(256));
}

#[test]
fn heap_and_queue_descriptions() {
    let d = DescriptorHeapDesc::default();
    assert_eq!(d.heap_type(), DescriptorHeapType::CbvSrvUav);
    let d = d.with_heap_type(DescriptorHeapType::Rtv).with_num_descriptors(3).with_flags(DescriptorHeapFlags::shader_visible());
    assert_eq!((d.heap_type(), d.num_descriptors(), d.flags().bits()), (DescriptorHeapType::Rtv, 3, 1));
    let q = CommandQueueDesc::default();
    assert_eq!(q.queue_type(), CommandListType::Direct);
    assert_eq!(q.priority(), CommandQueuePriority::Normal);
    let q = q.with_queue_type(CommandListType::Copy).with_node_mask(1);
    assert_eq!((q.queue_type(), q.node_mask()), (CommandListType::Copy, 1));
    let qh = QueryHeapDesc::default();
    assert_eq!(qh.heap_type(), QueryHeapType::Timestamp);
    assert_eq!(qh.with_count(8).count(), 8);
}

#[test]
fn footprints() {
    let f = SubresourceFootprint::default();
    assert_eq!(f.format(), Format::R8G8B8A8_UNorm);
    assert_eq!((f.width(), f.height(), f.depth(), f.row_pitch()), (0, 1, 1, ByteCount(0)));
    let f = f.with_width(4).with_row_pitch(ByteCount(256));
    let p = PlacedSubresourceFootprint::default().with_offset(ByteCount(512)).with_footprint(f);
    assert_eq!(p.offset(), ByteCount(512));
    assert_eq!(p.footprint().row_pitch(), ByteCount(256));
}

#[test]
fn subresource_data_pitches() {
    let bytes = [0u8; 16];
    let d = SubresourceData::default().with_data(&bytes).with_row_pitch(ByteCount(8)).with_slice_pitch(ByteCount(16));
    assert_eq!(d.row_pitch(), ByteCount(8));
    assert_eq!(d.slice_pitch(), ByteCount(16));
    assert_eq!(d.data.len(), 16);
}

#[test]
fn feature_data() {
    let o = FeatureDataD3DOptions::default().with_cross_adapter_row_major_texture_supported(true);
    assert!(o.cross_adapter_row_major_texture_supported());
    assert!(!o.vp_and_rt_array_index_from_any_shader_feeding_rasterizer_supported_without_gs_emulation());
    let o = o.with_max_gpu_virtual_address_bits_per_resource(40).with_rovs_supported(true);
    assert_eq!(o.max_g_p_u_virtual_address_bits_per_resource(), 40);
    assert!(o.r_o_vs_supported());
    let sm = FeatureDataShaderModel::new(ShaderModel::SM6_6);
    assert_eq!(sm.highest_shader_model(), ShaderModel::SM6_6);
}

#[test]
fn clear_values() {
    let c = ClearValue::default().with_format(Format::D32_Float);
    assert_eq!(c.color_bits(), Some([0; 4]));
    let ds = DepthStencilValue::default().with_depth_bits(1.0f32.to_bits()).with_stencil(7);
    let c = c.with_depth_stencil(&ds);
    assert_eq!(c.depth_stencil(), Some(ds));
    assert_eq!(c.color_bits(), None);
    assert_eq!(f32::from_bits(c.depth_stencil().unwrap().depth_bits()), 1.0);
}

#[test]
fn message_default() {
    let m = Message::default();
    assert_eq!(m.severity, MessageSeverity::Message);
    assert!(m.description.is_empty());
}

#[test]
fn viewport_default_spans_unit_depth() {
    let v = Viewport::default();
    assert_eq!(f32::from_bits(v.top_left_x_bits()), 0.0);
    assert_eq!(f32::from_bits(v.width_bits()), 0.0);
    assert_eq!(f32::from_bits(v.min_depth_bits()), 0.0);
    assert_eq!(f32::from_bits(v.max_depth_bits()), 1.0);
    let w = v.with_width_bits(800.0f32.to_bits()).with_height_bits(600.0f32.to_bits());
    assert_eq!(f32::from_bits(w.width_bits()), 800.0);
    assert_eq!(f32::from_bits(w.height_bits()), 600.0);
    assert_eq!(w.max_depth_bits(), v.max_depth_bits());
}

#[test]
fn adapter_description_replaces_lone_surrogates() {
    let mut desc = AdapterDesc::default();
    let units = [0x47u16, 0xd83d, 0xde00, 0xdc00, 0x50];
    desc.description[..5].copy_from_slice(&units);
    assert_eq!(desc.description(), Some("G\u{1f600}\u{fffd}P".to_string()));
}

#[test]
fn adapter_text_lists_every_field() {
    let mut desc = AdapterDesc::default();
    for (i, c) in "WARP".encode_utf16().enumerate() {
        desc.description[i] = c;
    }
    desc.vendor_id = 0x1414;
    desc.device_id = 0x8c;
    desc.sub_sys_id = 0;
    desc.revision = 0xab;
    desc.dedicated_video_memory = 0;
    desc.dedicated_system_memory = 1024;
    desc.shared_system_memory = 17179869184;
    desc.adapter_luid = Luid { low_part: 0xbeef, high_part: -1 };
    desc.flags = 2;
    assert_eq!(
        desc.describe(),
        Some(
            "Description: WARP, VendorId: 1414, DeviceId: 8c, SubSysId: 0, Revision: ab, \
             DedicatedVideoMemory: 0, DedicatedSystemMemory: 1024, SharedSystemMemory: 17179869184, \
             AdapterLuid.LowPart: beef, AdapterLuid.HighPart: ffffffff, Flags: 2"
                .to_string()
        )
    );
    desc.description = [0x41; 128];
    assert_eq!(desc.describe(), None);
}

#[test]
fn setters_modify_in_place_and_chain() {
    let mut d = SampleDesc::default();
    d.set_count(4).set_quality(2);
    assert_eq!((d.count(), d.quality()), (4, 2));
    assert_eq!(d, SampleDesc::default().with_count(4).with_quality(2));

    let mut heap = DescriptorHeapDesc::default();
    heap.set_heap_type(DescriptorHeapType::Rtv).set_num_descriptors(3);
    assert_eq!(heap.num_descriptors(), 3);
    assert_eq!(heap.heap_type(), DescriptorHeapType::Rtv);
    assert_eq!(heap.flags(), DescriptorHeapDesc::default().flags());
}
