use rusty_d3d12::{
    render_target_handles, Blend, BlendDesc, BlendOp, CachedPipelineState, ComparisonFunc,
    ComputePipelineStateDesc, CpuDescriptorHandle, CullMode, DepthStencilDesc,
    DepthStencilOpDesc, DepthWriteMask, FillMode, Format, GraphicsPipelineStateDesc,
    IndexBufferStripCut, InputClassification, InputElementDesc, InputLayoutDesc, LogicOp,
    MeshShaderPipelineStateDesc, PipelineStateFlags, PipelineStateStreamDesc,
    PipelineStateSubobject, PipelineStateSubobjectType, PrimitiveTopologyType, RasterizerDesc,
    RenderTargetBlendDesc, RootSignature, RtFormatArray, ShaderBytecode, SoDeclarationEntry,
    StencilOp, StreamOutputDesc, ByteCount, SampleDesc,
};

#[test]
fn render_target_blend_default() {
    let d = RenderTargetBlendDesc::default();
    assert!(!d.blend_enable());
    assert_eq!(d.src_blend(), Blend::One);
    assert_eq!(d.dest_blend(), Blend::Zero);
    assert_eq!(d.blend_op(), BlendOp::Add);
    assert_eq!(d.logic_op(), LogicOp::NoOp);
    assert_eq!(d.render_target_write_mask(), 15);
}

#[test]
fn blend_desc_sets_leading_targets() {
    let custom = RenderTargetBlendDesc::default().with_blend_enable(true).with_src_blend(Blend::SrcAlpha);
    let d = BlendDesc::default().with_render_targets(&[custom, custom]);
    let rts = d.render_targets();
    assert_eq!(rts[0], custom);
    assert_eq!(rts[1], custom);
    assert_eq!(rts[2], RenderTargetBlendDesc::default());
    assert_eq!(rts[7], RenderTargetBlendDesc::default());
}

#[test]
fn rasterizer_and_depth_stencil_defaults() {
    let r = RasterizerDesc::default();
    assert_eq!(r.fill_mode(), FillMode::Solid);
    assert_eq!(r.cull_mode(), CullMode::NoCulling);
    assert!(!r.depth_clip_enable());
    let r = r.with_depth_bias_clamp_bits(0.5f32.to_bits()).with_depth_bias(-3);
    assert_eq!(f32::from_bits(r.depth_bias_clamp_bits()), 0.5);
    assert_eq!(r.depth_bias(), -3);
    let o = DepthStencilOpDesc::default();
    assert_eq!(o.stencil_fail_op(), StencilOp::Zero);
    assert_eq!(o.stencil_func(), ComparisonFunc::Never);
    let d = DepthStencilDesc::default().with_depth_enable(true).with_depth_write_mask(DepthWriteMask::All);
    assert!(d.depth_enable());
    assert_eq!(d.depth_write_mask(), DepthWriteMask::All);
    assert_eq!(d.back_face(), o);
}

#[test]
fn input_element_names() {
    let e = InputElementDesc::default().with_name("POSITION").unwrap();
    assert_eq!(e.name(), "POSITION");
    let e = e.with_format(Format::R32G32B32_Float).with_offset(ByteCount(12)).with_input_slot_class(InputClassification::PerInstanceData);
    assert_eq!(e.format(), Format::R32G32B32_Float);
    assert_eq!(e.offset(), ByteCount(12));
    assert_eq!(e.input_slot_class(), InputClassification::PerInstanceData);
    let err = InputElementDesc::default().with_name("TEX\0COORD").unwrap_err();
    assert_eq!(err.nul_position(), 3);
    let layout = [e];
    let l = InputLayoutDesc::default().from_input_elements(&layout);
    assert_eq!(l.elements.len(), 1);
}

#[test]
fn stream_output_entries() {
    let entry = SoDeclarationEntry::default()
        .with_semantic_name("SV_POSITION")
        .unwrap()
        .with_start_component(300)
        .with_component_count(4);
    assert_eq!(entry.semantic_name(), "SV_POSITION");
    assert_eq!(entry.start_component(), 44);
    assert_eq!(entry.component_count(), 4);
    assert!(SoDeclarationEntry::default().with_semantic_name("\0").is_err());
    let entries = [entry];
    let strides = [16u32, 32];
    let so = StreamOutputDesc::default().with_so_declarations(&entries).with_buffer_strides(&strides).with_rasterized_stream(1);
    assert_eq!(so.so_declaration().len(), 1);
    assert_eq!(so.buffer_strides(), &[16, 32]);
    assert_eq!(so.rasterized_stream(), 1);
}

#[test]
fn graphics_pipeline_defaults() {
    let d = GraphicsPipelineStateDesc::default();
    assert_eq!(d.sample_mask(), u32::MAX);
    assert_eq!(d.rtv_formats(), &[Format::Unknown; 8]);
    assert_eq!(d.ib_strip_cut_value(), IndexBufferStripCut::Disabled);
    assert_eq!(d.primitive_topology_type(), PrimitiveTopologyType::Undefined);
    assert_eq!(d.dsv_format(), Format::Unknown);
    assert_eq!(d.sample_desc(), SampleDesc::default());
    assert_eq!(d.root_signature(), RootSignature { this: 0 });
    assert_eq!(d.flags(), PipelineStateFlags::empty());
}

#[test]
fn graphics_pipeline_setters() {
    let rs = RootSignature { this: 0x5000 };
    let code = [1u8, 2, 3];
    let vs = ShaderBytecode::from_bytes(&code);
    let d = GraphicsPipelineStateDesc::default()
        .with_root_signature(&rs)
        .with_vs_bytecode(&vs)
        .with_rtv_formats(&[Format::R8G8B8A8_UNorm, Format::R16G16B16A16_Float])
        .with_dsv_format(Format::D32_Float)
        .with_primitive_topology_type(PrimitiveTopologyType::Triangle);
    assert_eq!(d.root_signature(), rs);
    assert_eq!(d.vs_bytecode().bytecode, &[1, 2, 3]);
    assert_eq!(d.ps_bytecode().bytecode.len(), 0);
    assert_eq!(d.rtv_formats(), &[Format::R8G8B8A8_UNorm, Format::R16G16B16A16_Float]);
    assert_eq!(d.dsv_format(), Format::D32_Float);
    assert_eq!(d.primitive_topology_type(), PrimitiveTopologyType::Triangle);
}

#[test]
fn rt_format_array() {
    let a = RtFormatArray::default();
    assert!(a.rt_formats().is_empty());
    let a = a.with_rt_formats(&[Format::R32_Float]);
    assert_eq!(a.rt_formats(), &[Format::R32_Float]);
}

#[test]
fn compute_pipeline() {
    let rs = RootSignature { this: 1 };
    let code = [9u8; 4];
    let cs = ShaderBytecode::from_bytes(&code);
    let blob = [7u8; 2];
    let cached = CachedPipelineState::default().with_cached_blob(&blob);
    let d = ComputePipelineStateDesc::default()
        .with_root_signature(&rs)
        .with_cs_bytecode(&cs)
        .with_cached_pso(&cached)
        .with_node_mask(2);
    assert_eq!(d.root_signature(), rs);
    assert_eq!(d.cs_bytecode().bytecode, &[9, 9, 9, 9]);
    assert_eq!(d.cached_pso().cached_blob(), &[7, 7]);
    assert_eq!(d.node_mask(), 2);
}

#[test]
fn pipeline_state_stream() {
    let bytes = [0u8; 24];
    let s = PipelineStateStreamDesc::default().with_pipeline_state_subobject_stream(&bytes);
    assert_eq!(s.size_in_bytes(), ByteCount(24));
    assert_eq!(s.pipeline_state_subobject_stream().len(), 24);
    let sub = PipelineStateSubobject::new(PipelineStateSubobjectType::NodeMask, 3u32);
    assert_eq!(sub.ty, PipelineStateSubobjectType::NodeMask);
    assert_eq!(sub.subobject, 3);
}

#[test]
fn mesh_shader_pipeline_tags() {
    let d = MeshShaderPipelineStateDesc::default();
    assert_eq!(d.root_signature.ty, PipelineStateSubobjectType::RootSignature);
    assert_eq!(d.amplification_shader.ty, PipelineStateSubobjectType::AS);
    assert_eq!(d.mesh_shader.ty, PipelineStateSubobjectType::MS);
    assert_eq!(d.sample_mask.subobject, u32::MAX);
    assert_eq!(d.primitive_topology_type.subobject, PrimitiveTopologyType::Triangle);
    let d = d.with_rtv_formats(&[Format::R8G8B8A8_UNorm]).with_dsv_format(Format::D24_UNorm_S8_UInt);
    assert_eq!(d.rtv_formats.ty, PipelineStateSubobjectType::RenderTargetFormats);
    assert_eq!(d.rtv_formats.subobject.rt_formats(), &[Format::R8G8B8A8_UNorm]);
    assert_eq!(d.dsv_format.subobject, Format::D24_UNorm_S8_UInt);
    assert_eq!(d.dsv_format.ty, PipelineStateSubobjectType::DepthStencilFormat);
}

#[test]
fn render_target_handle_array() {
    let h = |p| CpuDescriptorHandle { hw_handle: p, handle_size: 32 };
    let arr = render_target_handles(&[h(100), h(132)]);
    assert_eq!(arr, [100, 132, 0, 0, 0, 0, 0, 0]);
    assert_eq!(render_target_handles(&[]), [0; 8]);
}

#[test]
fn semantic_name_set_in_place_only_on_success() {
    let mut e = InputElementDesc::default().with_index(1);
    e.set_name("NORMAL").unwrap().set_index(2);
    assert_eq!(e.name(), "NORMAL");
    assert_eq!(e.index(), 2);
    let before = e;
    assert_eq!(e.set_name("BAD\0").unwrap_err().position, 3);
    assert_eq!(e, before);
}
