//! Type-safe descriptions of Direct3D 12 and DXGI plain-data structures,
//! byte-count arithmetic, and the pure parts of the command-recording helpers.

pub mod barrier;
pub mod descriptors;
pub mod dsv;
pub mod enums;
pub mod error;
pub mod features;
pub mod pipeline;
pub mod pipeline_stream;
pub mod resource;
pub mod root_signature;
pub mod shader;
pub mod srv;
pub mod swapchain;
pub mod uav;
pub mod upload;
pub mod views;
pub mod utils;

pub use enums::{
    AlphaMode, Blend, BlendOp, BufferSrvFlags, BufferUavFlags, CPUPageProperty, CommandListType,
    CommandQueueFlags, CommandQueuePriority, ComparisonFunc, ConservativeRasterizationMode,
    ConservativeRasterizationTier, CrossNodeSharingTier, CullMode, DepthWriteMask,
    DescriptorHeapFlags, DescriptorHeapType, DescriptorRangeFlags, DescriptorRangeType,
    DsvDimension, DsvFlags, FillMode, Filter, Format, HeapFlags, HeapType, IndexBufferStripCut,
    InputClassification, LogicOp, MemoryPool, MessageCategory, MessageSeverity, PipelineStateFlags, PipelineStateSubobjectType,
    PrimitiveTopologyType, QueryHeapType, ResourceBarrierFlags, ResourceBarrierType,
    ResourceBindingTier, ResourceDimension, ResourceFlags, ResourceHeapTier, ResourceStates,
    RootDescriptorFlags, RootParameterType, RootSignatureFlags, RootSignatureVersion, Scaling,
    ShaderMinPrecisionSupport, ShaderModel, ShaderVisibility, SrvDimension, StaticBorderColor,
    StencilOp, SwapChainFlags, SwapEffect, TextureAddressMode, TextureCopyType, TextureLayout,
    TiledResourcesTier, UavDimension, Usage, lemma_flag_union,
};
pub use utils::{
    align_to_multiple, aligned_up, is_power_of_two, lemma_align_fixed_point, lemma_align_idempotent,
    constant_buffer_alignment, default_resource_alignment,
    lemma_aligned_up, ByteCount,
};
pub use swapchain::{AdapterDesc, Luid, SampleDesc, SwapchainDesc, ADAPTER_FLAG_SOFTWARE};
pub use resource::{
    Box, DepthStencilValue, GpuVirtualAddress, HeapDesc, HeapProperties, PlacedSubresourceFootprint,
    Range, Rect, Resource, ResourceAllocationInfo, ResourceDesc, SubresourceData, Viewport,
    SubresourceFootprint,
};
pub use upload::{lemma_disjoint_rows_not_overwritten, lemma_disjoint_upload_rows_survive, lemma_pitched_rows_survive, lemma_upload_positions, memcpy_subresource, update_subresources, CopyCommand, MemcpyDest};
pub use barrier::{
    ResourceAliasingBarrier, ResourceBarrier, ResourceBarrierPayload, ResourceTransitionBarrier,
    ResourceUavBarrier, TextureCopyLocation, TextureCopySource, RESOURCE_BARRIER_ALL_SUBRESOURCES,
    aliasing_of, decode_subresource, encode_subresource, lemma_barrier_kinds,
    lemma_subresource_encoding, lemma_subresource_round_trip, transition_of, uav_of, unflagged_barrier,
};
pub use error::{
    check_hresult, enumeration_step, failed, lemma_success_is_non_negative, padded_name, succeeded, DxError, DxResult, EnumerationStep, HResult,
    DXGI_ERROR_NOT_FOUND, E_FAIL, MAX_ERROR_MSG_LEN, MAX_FUNC_NAME_LEN, S_OK,
};
pub use descriptors::{
    lemma_cpu_advance_adds, lemma_gpu_advance_adds, render_target_handles, CpuDescriptorHandle,
    GpuDescriptorHandle, SIMULTANEOUS_RENDER_TARGET_COUNT,
};
pub use pipeline::{
    BlendDesc, CachedPipelineState, ComputePipelineStateDesc, DepthStencilDesc, DepthStencilOpDesc,
    GraphicsPipelineStateDesc, InputElementDesc, InputLayoutDesc, NulError, RasterizerDesc,
    RenderTargetBlendDesc, RtFormatArray, ShaderBytecode, SoDeclarationEntry, StreamOutputDesc,
};
pub use root_signature::{
    is_root_descriptor_type, lemma_root_parameter_kinds, DescriptorRange, DescriptorRangeOffset, FeatureDataRootSignature,
    RootConstants, RootDescriptor, RootDescriptorTable, RootParameter, RootParameterPayload,
    RootSignature, RootSignatureDesc, SamplerDesc, StaticSamplerDesc, VersionedRootSignatureDesc,
    DESCRIPTOR_RANGE_OFFSET_APPEND,
};
pub use views::{
    ClearValue, ClearValueData, CommandQueueDesc, ConstantBufferViewDesc, DescriptorHeapDesc,
    IndexBufferView, Message, QueryHeapDesc, VertexBufferView,
};
pub use dsv::{
    lemma_dsv_views, DepthStencilViewDesc, DsvView, Tex1DArrayDsv, Tex1DDsv, Tex2DArrayDsv, Tex2DDsv, Tex2DmsArrayDsv,
    Tex2DmsDsv,
};
pub use srv::{
    encode_component_mapping, lemma_component_mapping_round_trip, lemma_srv_views, BufferSrv,
    RaytracingAccelerationStructureSrv, ShaderComponentMapping, ShaderComponentSource,
    ShaderResourceViewDesc, SrvView, Tex1DArraySrv, Tex1DSrv, Tex2DArraySrv, Tex2DMsArraySrv,
    Tex2DMsSrv, Tex2DSrv, Tex3DSrv, TexcubeArraySrv, TexcubeSrv,
};
pub use uav::{
    lemma_uav_views, BufferUav, Tex1DArrayUav, Tex1DUav, Tex2DArrayUav, Tex2DUav, Tex3DUav, UavView,
    UnorderedAccessViewDesc,
};
pub use features::{FeatureDataD3DOptions, FeatureDataShaderModel};
pub use pipeline_stream::{MeshShaderPipelineStateDesc, PipelineStateStreamDesc, PipelineStateSubobject};
pub use shader::{compile_inputs_nul_free, compile_shader, nul_free, shader_compile_result};
