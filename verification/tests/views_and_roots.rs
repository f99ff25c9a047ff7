use rusty_d3d12::{
    BufferSrv, BufferUav, ComparisonFunc, DepthStencilViewDesc, DescriptorRange,
    DescriptorRangeFlags, DescriptorRangeOffset, DescriptorRangeType, DsvDimension, DsvFlags,
    FeatureDataRootSignature, Filter, Format, RootConstants, RootDescriptor, RootDescriptorTable,
    RootParameter, RootParameterType, RootSignatureDesc, RootSignatureFlags, RootSignatureVersion,
    SamplerDesc, ShaderComponentMapping, ShaderComponentSource as Src, ShaderResourceViewDesc,
    ShaderVisibility, SrvDimension, StaticBorderColor, StaticSamplerDesc, Tex2DArraySrv,
    Tex2DDsv, Tex2DSrv, Tex2DUav, Tex3DUav, TextureAddressMode, UavDimension,
    UnorderedAccessViewDesc, VersionedRootSignatureDesc, ByteCount, DESCRIPTOR_RANGE_OFFSET_APPEND,
};

#[test]
fn component_mapping_encoding() {
    let default = ShaderComponentMapping::default();
    assert_eq!(default.0, 0x1688);
    let m = ShaderComponentMapping::new(Src::FromMemoryComponent0, Src::FromMemoryComponent1, Src::FromMemoryComponent2, Src::FromMemoryComponent3);
    assert_eq!(m, default);
    let m = ShaderComponentMapping::new(Src::ForceValue1, Src::FromMemoryComponent0, Src::ForceValue0, Src::FromMemoryComponent2);
    assert_eq!((m.component(0), m.component(1), m.component(2), m.component(3)), (5, 0, 4, 2));
    let raw: u32 = m.into();
    assert_eq!(ShaderComponentMapping::from(raw), m);
}

#[test]
fn shader_resource_views() {
    let tex = Tex2DSrv::default().with_mip_levels(3).with_resource_min_lod_clamp_bits(1.5f32.to_bits());
    let d = ShaderResourceViewDesc::default()
        .with_format(Format::R8G8B8A8_UNorm)
        .with_shader4_component_mapping(ShaderComponentMapping::default())
        .new_texture_2d(&tex);
    assert_eq!(d.view_dimension(), SrvDimension::Texture2D);
    assert_eq!(d.texture_2d(), Some(tex));
    assert_eq!(d.texture_2d().unwrap().mip_levels(), 3);
    assert_eq!(d.buffer(), None);
    assert_eq!(d.texture_2d_array(), None);
    let b = BufferSrv::default().with_num_elements(10).with_structure_byte_stride(ByteCount(16));
    let d = d.new_buffer(&b);
    assert_eq!(d.view_dimension(), SrvDimension::Buffer);
    assert_eq!(d.buffer().unwrap().structure_byte_stride(), ByteCount(16));
    assert_eq!(d.texture_2d(), None);
    let arr = Tex2DArraySrv::default().with_array_size(6);
    assert_eq!(ShaderResourceViewDesc::default().new_texture_2d_array(&arr).texture_2d_array(), Some(arr));
}

#[test]
fn unordered_access_views() {
    let b = BufferUav::default().with_counter_offset_in_bytes(ByteCount(4096)).with_num_elements(2);
    let d = UnorderedAccessViewDesc::default().with_format(Format::R32_UInt).new_buffer(&b);
    assert_eq!(d.view_dimension(), UavDimension::Buffer);
    assert_eq!(d.buffer().unwrap().counter_offset_in_bytes(), ByteCount(4096));
    let t = Tex3DUav::default().with_w_size(4);
    let d = d.new_texture_3d(&t);
    assert_eq!(d.texture_3d(), Some(t));
    assert_eq!(d.buffer(), None);
    assert_eq!(d.new_texture_2d(&Tex2DUav::default().with_plane_slice(1)).texture_2d().unwrap().plane_slice(), 1);
}

#[test]
fn depth_stencil_views() {
    let d = DepthStencilViewDesc::default()
        .with_format(Format::D32_Float)
        .with_flags(DsvFlags::read_only_depth())
        .new_texture_2d(Tex2DDsv::default().with_mip_slice(1));
    assert_eq!(d.view_dimension(), DsvDimension::Texture2D);
    assert_eq!(d.texture_2d().unwrap().mip_slice(), 1);
    assert_eq!(d.texture_1d(), None);
    let retagged = d.with_view_dimension(DsvDimension::Texture1D);
    assert_eq!(retagged.texture_2d(), None);
    assert_eq!(retagged.texture_1d(), None);
}

#[test]
fn descriptor_ranges_and_tables() {
    let r = DescriptorRange::default()
        .with_range_type(DescriptorRangeType::Cbv)
        .with_num_descriptors(4)
        .with_flags(DescriptorRangeFlags::data_static())
        .with_offset_in_descriptors_from_table_start(DescriptorRangeOffset::append());
    assert_eq!(r.range_type(), DescriptorRangeType::Cbv);
    assert_eq!(r.offset_in_descriptors_from_table_start(), DescriptorRangeOffset(DESCRIPTOR_RANGE_OFFSET_APPEND));
    assert_eq!(r.with_offset_in_descriptors_from_table_start(DescriptorRangeOffset::from(7)).offset_in_descriptors_from_table_start(), DescriptorRangeOffset(7));
    let ranges = [r];
    let table = RootDescriptorTable::default().with_descriptor_ranges(&ranges);
    let p = RootParameter::default().new_descriptor_table(&table).with_shader_visibility(ShaderVisibility::Pixel);
    assert_eq!(p.parameter_type(), RootParameterType::DescriptorTable);
    assert_eq!(p.descriptor_table(), Some(table));
    assert_eq!(p.constants(), None);
    assert_eq!(p.descriptor(), None);
    assert_eq!(p.shader_visibility(), ShaderVisibility::Pixel);
}

#[test]
fn root_constants_and_descriptors() {
    let c = RootConstants::default().with_num_32_bit_values(4).with_shader_register(1);
    let p = RootParameter::default().new_constants(&c);
    assert_eq!(p.parameter_type(), RootParameterType::T32BitConstants);
    assert_eq!(p.constants(), Some(c));
    assert_eq!(p.descriptor_table(), None);
    let d = RootDescriptor::default().with_register_space(2);
    let p = p.new_descriptor(&d, RootParameterType::Srv);
    assert_eq!(p.parameter_type(), RootParameterType::Srv);
    assert_eq!(p.descriptor(), Some(d));
    assert_eq!(p.constants(), None);
}

#[test]
fn samplers() {
    let s = StaticSamplerDesc::default();
    assert_eq!(s.filter(), Filter::Anisotropic);
    assert_eq!(s.address_u(), TextureAddressMode::Wrap);
    assert_eq!(s.max_anisotropy(), 16);
    assert_eq!(s.comparison_func(), ComparisonFunc::LessEqual);
    assert_eq!(s.border_color(), StaticBorderColor::OpaqueWhite);
    assert_eq!(f32::from_bits(s.max_lod_bits()), f32::MAX);
    assert_eq!(s.shader_visibility(), ShaderVisibility::All);
    let d = SamplerDesc::default().with_filter(Filter::MinMagMipLinear).with_border_color_bits([1.0f32.to_bits(); 4]);
    assert_eq!(d.filter(), Filter::MinMagMipLinear);
    assert_eq!(d.border_color_bits(), [0x3f80_0000; 4]);
}

#[test]
fn root_signature_descriptions() {
    let params = [RootParameter::default()];
    let samplers = [StaticSamplerDesc::default()];
    let desc = RootSignatureDesc::default()
        .with_parameters(&params)
        .with_static_samplers(&samplers)
        .with_flags(RootSignatureFlags::allow_input_assembler_input_layout());
    assert_eq!(desc.parameters().len(), 1);
    assert_eq!(desc.static_samplers().len(), 1);
    assert_eq!(desc.flags().bits(), 1);
    let v = VersionedRootSignatureDesc::default().with_desc_1_1(&desc);
    assert_eq!(v.version, RootSignatureVersion::V1_1);
    assert_eq!(v.desc_1_1(), desc);
    let f = FeatureDataRootSignature::new(RootSignatureVersion::V1_1);
    assert_eq!(f.highest_version(), RootSignatureVersion::V1_1);
    assert_eq!(f.with_highest_version(RootSignatureVersion::V1_0).highest_version(), RootSignatureVersion::V1_0);
}
