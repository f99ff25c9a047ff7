//! Enumerations and bit-flag sets of the Direct3D 12 and DXGI interfaces.

use vstd::prelude::*;

verus! {

/// Resource data format (`DXGI_FORMAT`).
#[allow(non_camel_case_types)]
#[derive(Clone, Copy, Debug, PartialEq, Eq, Structural, Hash)]
pub enum Format {
    Unknown,
    R32G32B32A32_Typeless,
    R32G32B32A32_Float,
    R32G32B32A32_UInt,
    R32G32B32A32_SInt,
    R32G32B32_Typeless,
    R32G32B32_Float,
    R32G32B32_UInt,
    R32G32B32_SInt,
    R16G16B16A16_Typeless,
    R16G16B16A16_Float,
    R16G16B16A16_UNorm,
    R16G16B16A16_UInt,
    R16G16B16A16_SNorm,
    R16G16B16A16_SInt,
    R32G32_Typeless,
    R32G32_Float,
    R32G32_UInt,
    R32G32_SInt,
    R10G10B10A2_Typeless,
    R10G10B10A2_UNorm,
    R10G10B10A2_UInt,
    R11G11B10_Float,
    R8G8B8A8_Typeless,
    R8G8B8A8_UNorm,
    R8G8B8A8_UNorm_sRGB,
    R8G8B8A8_UInt,
    R8G8B8A8_SNorm,
    R8G8B8A8_SInt,
    R16G16_Typeless,
    R16G16_Float,
    R16G16_UNorm,
    R16G16_UInt,
    R16G16_SNorm,
    R16G16_SInt,
    R32_Typeless,
    D32_Float,
    R32_Float,
    R32_UInt,
    R32_SInt,
    R24G8_Typeless,
    D24_UNorm_S8_UInt,
    R8G8_Typeless,
    R8G8_UNorm,
    R8G8_UInt,
    R8G8_SNorm,
    R8G8_SInt,
    R16_Typeless,
    R16_Float,
    D16_UNorm,
    R16_UNorm,
    R16_UInt,
    R16_SNorm,
    R16_SInt,
    R8_Typeless,
    R8_UNorm,
    R8_UInt,
    R8_SNorm,
    R8_SInt,
    A8_UNorm,
    BC1_Typeless,
    BC1_UNorm,
    BC1_UNorm_sRGB,
    BC2_UNorm,
    BC3_UNorm,
    BC4_UNorm,
    BC5_UNorm,
    B8G8R8A8_UNorm,
    B8G8R8A8_UNorm_sRGB,
    BC6H_UF16,
    BC7_UNorm,
}

/// Swap chain scaling (`DXGI_SCALING`).
#[allow(non_camel_case_types)]
#[derive(Clone, Copy, Debug, PartialEq, Eq, Structural, Hash)]
pub enum Scaling {
    Stretch,
    NoScaling,
    AspectRatioStretch,
}

/// Swap chain presentation model (`DXGI_SWAP_EFFECT`).
#[allow(non_camel_case_types)]
#[derive(Clone, Copy, Debug, PartialEq, Eq, Structural, Hash)]
pub enum SwapEffect {
    Discard,
    Sequential,
    FlipSequential,
    FlipDiscard,
}

/// Swap chain transparency behaviour (`DXGI_ALPHA_MODE`).
#[allow(non_camel_case_types)]
#[derive(Clone, Copy, Debug, PartialEq, Eq, Structural, Hash)]
pub enum AlphaMode {
    Unspecified,
    Premultiplied,
    Straight,
    Ignore,
}

/// Resource kind (`D3D12_RESOURCE_DIMENSION`).
#[allow(non_camel_case_types)]
#[derive(Clone, Copy, Debug, PartialEq, Eq, Structural, Hash)]
pub enum ResourceDimension {
    Unknown,
    Buffer,
    Texture1D,
    Texture2D,
    Texture3D,
}

/// Texture memory layout (`D3D12_TEXTURE_LAYOUT`).
#[allow(non_camel_case_types)]
#[derive(Clone, Copy, Debug, PartialEq, Eq, Structural, Hash)]
pub enum TextureLayout {
    Unknown,
    RowMajor,
    UndefinedSwizzle64KB,
    StandardSwizzle64KB,
}

/// Heap kind (`D3D12_HEAP_TYPE`).
#[allow(non_camel_case_types)]
#[derive(Clone, Copy, Debug, PartialEq, Eq, Structural, Hash)]
pub enum HeapType {
    Default,
    Upload,
    Readback,
    Custom,
}

/// CPU page property of a heap (`D3D12_CPU_PAGE_PROPERTY`).
#[allow(non_camel_case_types)]
#[derive(Clone, Copy, Debug, PartialEq, Eq, Structural, Hash)]
pub enum CPUPageProperty {
    Unknown,
    NotAvailable,
    WriteCombine,
    WriteBack,
}

/// Memory pool of a heap (`D3D12_MEMORY_POOL`).
#[allow(non_camel_case_types)]
#[derive(Clone, Copy, Debug, PartialEq, Eq, Structural, Hash)]
pub enum MemoryPool {
    Unknown,
    L0,
    L1,
}

/// Kind of a resource barrier (`D3D12_RESOURCE_BARRIER_TYPE`).
#[allow(non_camel_case_types)]
#[derive(Clone, Copy, Debug, PartialEq, Eq, Structural, Hash)]
pub enum ResourceBarrierType {
    Transition,
    Aliasing,
    Uav,
}

/// How a texture copy location addresses its data (`D3D12_TEXTURE_COPY_TYPE`).
#[allow(non_camel_case_types)]
#[derive(Clone, Copy, Debug, PartialEq, Eq, Structural, Hash)]
pub enum TextureCopyType {
    SubresourceIndex,
    PlacedFootprint,
}

/// Per-vertex or per-instance input data (`D3D12_INPUT_CLASSIFICATION`).
#[allow(non_camel_case_types)]
#[derive(Clone, Copy, Debug, PartialEq, Eq, Structural, Hash)]
pub enum InputClassification {
    PerVertexData,
    PerInstanceData,
}

/// Blend factor (`D3D12_BLEND`).
#[allow(non_camel_case_types)]
#[derive(Clone, Copy, Debug, PartialEq, Eq, Structural, Hash)]
pub enum Blend {
    Zero,
    One,
    SrcColor,
    InvSrcColor,
    SrcAlpha,
    InvSrcAlpha,
    DestAlpha,
    InvDestAlpha,
    DestColor,
    InvDestColor,
    SrcAlphaSat,
    BlendFactor,
    InvBlendFactor,
    Src1Color,
    InvSrc1Color,
    Src1Alpha,
    InvSrc1Alpha,
}

/// Blend operation (`D3D12_BLEND_OP`).
#[allow(non_camel_case_types)]
#[derive(Clone, Copy, Debug, PartialEq, Eq, Structural, Hash)]
pub enum BlendOp {
    Add,
    Subtract,
    RevSubtract,
    Min,
    Max,
}

/// Render target logic operation (`D3D12_LOGIC_OP`).
#[allow(non_camel_case_types)]
#[derive(Clone, Copy, Debug, PartialEq, Eq, Structural, Hash)]
pub enum LogicOp {
    Clear,
    SetAll,
    Copy,
    CopyInverted,
    NoOp,
    Invert,
    And,
    Nand,
    Or,
    Nor,
    Xor,
    Equiv,
    AndReverse,
    AndInverted,
    OrReverse,
    OrInverted,
}

/// Triangle fill mode (`D3D12_FILL_MODE`).
#[allow(non_camel_case_types)]
#[derive(Clone, Copy, Debug, PartialEq, Eq, Structural, Hash)]
pub enum FillMode {
    Wireframe,
    Solid,
}

/// Triangle culling (`D3D12_CULL_MODE`).
#[allow(non_camel_case_types)]
#[derive(Clone, Copy, Debug, PartialEq, Eq, Structural, Hash)]
pub enum CullMode {
    NoCulling,
    Front,
    Back,
}

/// Conservative rasterization switch (`D3D12_CONSERVATIVE_RASTERIZATION_MODE`).
#[allow(non_camel_case_types)]
#[derive(Clone, Copy, Debug, PartialEq, Eq, Structural, Hash)]
pub enum ConservativeRasterizationMode {
    Off,
    On,
}

/// Stencil operation (`D3D12_STENCIL_OP`).
#[allow(non_camel_case_types)]
#[derive(Clone, Copy, Debug, PartialEq, Eq, Structural, Hash)]
pub enum StencilOp {
    Keep,
    Zero,
    Replace,
    IncrSat,
    DecrSat,
    Invert,
    Incr,
    Decr,
}

/// Comparison function (`D3D12_COMPARISON_FUNC`).
#[allow(non_camel_case_types)]
#[derive(Clone, Copy, Debug, PartialEq, Eq, Structural, Hash)]
pub enum ComparisonFunc {
    Never,
    Less,
    Equal,
    LessEqual,
    Greater,
    NotEqual,
    GreaterEqual,
    Always,
}

/// Depth write switch (`D3D12_DEPTH_WRITE_MASK`).
#[allow(non_camel_case_types)]
#[derive(Clone, Copy, Debug, PartialEq, Eq, Structural, Hash)]
pub enum DepthWriteMask {
    Zero,
    All,
}

/// Strip cut value (`D3D12_INDEX_BUFFER_STRIP_CUT_VALUE`).
#[allow(non_camel_case_types)]
#[derive(Clone, Copy, Debug, PartialEq, Eq, Structural, Hash)]
pub enum IndexBufferStripCut {
    Disabled,
    Value0xFFFF,
    Value0xFFFFFFFF,
}

/// Primitive topology class (`D3D12_PRIMITIVE_TOPOLOGY_TYPE`).
#[allow(non_camel_case_types)]
#[derive(Clone, Copy, Debug, PartialEq, Eq, Structural, Hash)]
pub enum PrimitiveTopologyType {
    Undefined,
    Point,
    Line,
    Triangle,
    Patch,
}

/// Descriptor heap kind (`D3D12_DESCRIPTOR_HEAP_TYPE`).
#[allow(non_camel_case_types)]
#[derive(Clone, Copy, Debug, PartialEq, Eq, Structural, Hash)]
pub enum DescriptorHeapType {
    CbvSrvUav,
    Sampler,
    Rtv,
    Dsv,
}

/// Command list kind (`D3D12_COMMAND_LIST_TYPE`).
#[allow(non_camel_case_types)]
#[derive(Clone, Copy, Debug, PartialEq, Eq, Structural, Hash)]
pub enum CommandListType {
    Direct,
    Bundle,
    Compute,
    Copy,
}

/// Command queue priority (`D3D12_COMMAND_QUEUE_PRIORITY`).
#[allow(non_camel_case_types)]
#[derive(Clone, Copy, Debug, PartialEq, Eq, Structural, Hash)]
pub enum CommandQueuePriority {
    Normal,
    High,
    GlobalRealtime,
}

/// Root signature version (`D3D_ROOT_SIGNATURE_VERSION`).
#[allow(non_camel_case_types)]
#[derive(Clone, Copy, Debug, PartialEq, Eq, Structural, Hash)]
pub enum RootSignatureVersion {
    V1_0,
    V1_1,
}

/// Descriptor range kind (`D3D12_DESCRIPTOR_RANGE_TYPE`).
#[allow(non_camel_case_types)]
#[derive(Clone, Copy, Debug, PartialEq, Eq, Structural, Hash)]
pub enum DescriptorRangeType {
    Srv,
    Uav,
    Cbv,
    Sampler,
}

/// Root parameter kind (`D3D12_ROOT_PARAMETER_TYPE`).
#[allow(non_camel_case_types)]
#[derive(Clone, Copy, Debug, PartialEq, Eq, Structural, Hash)]
pub enum RootParameterType {
    DescriptorTable,
    T32BitConstants,
    Cbv,
    Srv,
    Uav,
}

/// Shader stages that see a root parameter (`D3D12_SHADER_VISIBILITY`).
#[allow(non_camel_case_types)]
#[derive(Clone, Copy, Debug, PartialEq, Eq, Structural, Hash)]
pub enum ShaderVisibility {
    All,
    Vertex,
    Hull,
    Domain,
    Geometry,
    Pixel,
    Amplification,
    Mesh,
}

/// Sampler filtering (`D3D12_FILTER`).
#[allow(non_camel_case_types)]
#[derive(Clone, Copy, Debug, PartialEq, Eq, Structural, Hash)]
pub enum Filter {
    MinMagMipPoint,
    MinMagPointMipLinear,
    MinPointMagLinearMipPoint,
    MinPointMagMipLinear,
    MinLinearMagMipPoint,
    MinLinearMagPointMipLinear,
    MinMagLinearMipPoint,
    MinMagMipLinear,
    Anisotropic,
    ComparisonMinMagMipPoint,
    ComparisonMinMagMipLinear,
    ComparisonAnisotropic,
}

/// Texture coordinate addressing (`D3D12_TEXTURE_ADDRESS_MODE`).
#[allow(non_camel_case_types)]
#[derive(Clone, Copy, Debug, PartialEq, Eq, Structural, Hash)]
pub enum TextureAddressMode {
    Wrap,
    Mirror,
    Clamp,
    Border,
    MirrorOnce,
}

/// Border colour of a static sampler (`D3D12_STATIC_BORDER_COLOR`).
#[allow(non_camel_case_types)]
#[derive(Clone, Copy, Debug, PartialEq, Eq, Structural, Hash)]
pub enum StaticBorderColor {
    TransparentBlack,
    OpaqueBlack,
    OpaqueWhite,
}

/// Shader resource view kind (`D3D12_SRV_DIMENSION`).
#[allow(non_camel_case_types)]
#[derive(Clone, Copy, Debug, PartialEq, Eq, Structural, Hash)]
pub enum SrvDimension {
    Unknown,
    Buffer,
    Texture1D,
    Texture1DArray,
    Texture2D,
    Texture2DArray,
    Texture2DMs,
    Texture2DMsArray,
    Texture3D,
    TextureCube,
    TextureCubeArray,
    RaytracingAccelerationStructure,
}

/// Unordered access view kind (`D3D12_UAV_DIMENSION`).
#[allow(non_camel_case_types)]
#[derive(Clone, Copy, Debug, PartialEq, Eq, Structural, Hash)]
pub enum UavDimension {
    Unknown,
    Buffer,
    Texture1D,
    Texture1DArray,
    Texture2D,
    Texture2DArray,
    Texture3D,
}

/// Depth stencil view kind (`D3D12_DSV_DIMENSION`).
#[allow(non_camel_case_types)]
#[derive(Clone, Copy, Debug, PartialEq, Eq, Structural, Hash)]
pub enum DsvDimension {
    Unknown,
    Texture1D,
    Texture1DArray,
    Texture2D,
    Texture2DArray,
    Texture2DMs,
    Texture2DMsArray,
}

/// Shader model (`D3D_SHADER_MODEL`).
#[allow(non_camel_case_types)]
#[derive(Clone, Copy, Debug, PartialEq, Eq, Structural, Hash)]
pub enum ShaderModel {
    SM5_1,
    SM6_0,
    SM6_1,
    SM6_2,
    SM6_3,
    SM6_4,
    SM6_5,
    SM6_6,
    SM6_7,
}

/// Kind of a pipeline state stream subobject (`D3D12_PIPELINE_STATE_SUBOBJECT_TYPE`).
#[allow(non_camel_case_types)]
#[derive(Clone, Copy, Debug, PartialEq, Eq, Structural, Hash)]
pub enum PipelineStateSubobjectType {
    RootSignature,
    VS,
    PS,
    DS,
    HS,
    GS,
    CS,
    StreamOutput,
    Blend,
    SampleMask,
    Rasterizer,
    DepthStencil,
    InputLayout,
    IBStripCutValue,
    PrimitiveTopology,
    RenderTargetFormats,
    DepthStencilFormat,
    SampleDesc,
    NodeMask,
    CachedPso,
    Flags,
    DepthStencil1,
    ViewInstancing,
    AS,
    MS,
}

/// Query heap kind (`D3D12_QUERY_HEAP_TYPE`).
#[allow(non_camel_case_types)]
#[derive(Clone, Copy, Debug, PartialEq, Eq, Structural, Hash)]
pub enum QueryHeapType {
    Occlusion,
    Timestamp,
    PipelineStatistics,
    SoStatistics,
    VideoDecodeStatistics,
    CopyQueueTimestamp,
}

/// Minimum precision support (`D3D12_SHADER_MIN_PRECISION_SUPPORT`).
#[allow(non_camel_case_types)]
#[derive(Clone, Copy, Debug, PartialEq, Eq, Structural, Hash)]
pub enum ShaderMinPrecisionSupport {
    NoMinPrecision,
    Bits10,
    Bits16,
    Bits10And16,
}

/// Tiled resources support tier (`D3D12_TILED_RESOURCES_TIER`).
#[allow(non_camel_case_types)]
#[derive(Clone, Copy, Debug, PartialEq, Eq, Structural, Hash)]
pub enum TiledResourcesTier {
    NotSupported,
    Tier1,
    Tier2,
    Tier3,
    Tier4,
}

/// Resource binding tier (`D3D12_RESOURCE_BINDING_TIER`).
#[allow(non_camel_case_types)]
#[derive(Clone, Copy, Debug, PartialEq, Eq, Structural, Hash)]
pub enum ResourceBindingTier {
    Tier1,
    Tier2,
    Tier3,
}

/// Conservative rasterization tier (`D3D12_CONSERVATIVE_RASTERIZATION_TIER`).
#[allow(non_camel_case_types)]
#[derive(Clone, Copy, Debug, PartialEq, Eq, Structural, Hash)]
pub enum ConservativeRasterizationTier {
    NotSupported,
    Tier1,
    Tier2,
    Tier3,
}

/// Cross node sharing tier (`D3D12_CROSS_NODE_SHARING_TIER`).
#[allow(non_camel_case_types)]
#[derive(Clone, Copy, Debug, PartialEq, Eq, Structural, Hash)]
pub enum CrossNodeSharingTier {
    NotSupported,
    Tier1Emulated,
    Tier1,
    Tier2,
    Tier3,
}

/// Category of a debug layer message (`D3D12_MESSAGE_CATEGORY`).
#[allow(non_camel_case_types)]
#[derive(Clone, Copy, Debug, PartialEq, Eq, Structural, Hash)]
pub enum MessageCategory {
    ApplicationDefined,
    Miscellaneous,
    Initialization,
    Cleanup,
    Compilation,
    StateCreation,
    StateSetting,
    StateGetting,
    ResourceManipulation,
    Execution,
    Shader,
}

/// Severity of a debug layer message (`D3D12_MESSAGE_SEVERITY`).
#[allow(non_camel_case_types)]
#[derive(Clone, Copy, Debug, PartialEq, Eq, Structural, Hash)]
pub enum MessageSeverity {
    Corruption,
    Error,
    Warning,
    Info,
    Message,
}

/// Resource heap tier (`D3D12_RESOURCE_HEAP_TIER`).
#[allow(non_camel_case_types)]
#[derive(Clone, Copy, Debug, PartialEq, Eq, Structural, Hash)]
pub enum ResourceHeapTier {
    Tier1,
    Tier2,
}

/// Swap chain buffer usage (`DXGI_USAGE`). Any bit pattern is kept as given.
#[derive(Clone, Copy, Debug, PartialEq, Eq, Structural, Hash)]
pub struct Usage {
    pub bits: u32,
}

impl Usage {
    /// No flag set.
    pub fn empty() -> (r: Self)
        ensures
            r.bits == 0,
    {
        Usage { bits: 0 }
    }

    /// The flags with exactly the given bits.
    pub fn from_bits_retain(bits: u32) -> (r: Self)
        ensures
            r.bits == bits,
    {
        Usage { bits }
    }

    /// The raw bits.
    pub fn bits(&self) -> (r: u32)
        ensures
            r == self.bits,
    {
        self.bits
    }

    /// The flags set in either operand.
    pub fn union(self, other: Self) -> (r: Self)
        ensures
            r.bits == self.bits | other.bits,
    {
        Usage { bits: self.bits | other.bits }
    }

    /// Whether every flag of `other` is set in `self`.
    pub fn contains(&self, other: Self) -> (r: bool)
        ensures
            r == (self.bits & other.bits == other.bits),
    {
        self.bits & other.bits == other.bits
    }

    /// The flag value `0x10`.
    pub fn shader_input() -> (r: Self)
        ensures
            r.bits == 0x10,
    {
        Usage { bits: 0x10 }
    }

    /// The flag value `0x20`.
    pub fn render_target_output() -> (r: Self)
        ensures
            r.bits == 0x20,
    {
        Usage { bits: 0x20 }
    }

    /// The flag value `0x40`.
    pub fn back_buffer() -> (r: Self)
        ensures
            r.bits == 0x40,
    {
        Usage { bits: 0x40 }
    }

    /// The flag value `0x80`.
    pub fn shared() -> (r: Self)
        ensures
            r.bits == 0x80,
    {
        Usage { bits: 0x80 }
    }

    /// The flag value `0x100`.
    pub fn read_only() -> (r: Self)
        ensures
            r.bits == 0x100,
    {
        Usage { bits: 0x100 }
    }

    /// The flag value `0x200`.
    pub fn discard_on_present() -> (r: Self)
        ensures
            r.bits == 0x200,
    {
        Usage { bits: 0x200 }
    }

    /// The flag value `0x400`.
    pub fn unordered_access() -> (r: Self)
        ensures
            r.bits == 0x400,
    {
        Usage { bits: 0x400 }
    }
}

/// Swap chain options (`DXGI_SWAP_CHAIN_FLAG`). Any bit pattern is kept as given.
#[derive(Clone, Copy, Debug, PartialEq, Eq, Structural, Hash)]
pub struct SwapChainFlags {
    pub bits: u32,
}

impl SwapChainFlags {
    /// No flag set.
    pub fn empty() -> (r: Self)
        ensures
            r.bits == 0,
    {
        SwapChainFlags { bits: 0 }
    }

    /// The flags with exactly the given bits.
    pub fn from_bits_retain(bits: u32) -> (r: Self)
        ensures
            r.bits == bits,
    {
        SwapChainFlags { bits }
    }

    /// The raw bits.
    pub fn bits(&self) -> (r: u32)
        ensures
            r == self.bits,
    {
        self.bits
    }

    /// The flags set in either operand.
    pub fn union(self, other: Self) -> (r: Self)
        ensures
            r.bits == self.bits | other.bits,
    {
        SwapChainFlags { bits: self.bits | other.bits }
    }

    /// Whether every flag of `other` is set in `self`.
    pub fn contains(&self, other: Self) -> (r: bool)
        ensures
            r == (self.bits & other.bits == other.bits),
    {
        self.bits & other.bits == other.bits
    }

    /// The flag value `0x2`.
    pub fn allow_mode_switch() -> (r: Self)
        ensures
            r.bits == 0x2,
    {
        SwapChainFlags { bits: 0x2 }
    }

    /// The flag value `0x40`.
    pub fn frame_latency_waitable_object() -> (r: Self)
        ensures
            r.bits == 0x40,
    {
        SwapChainFlags { bits: 0x40 }
    }

    /// The flag value `0x800`.
    pub fn allow_tearing() -> (r: Self)
        ensures
            r.bits == 0x800,
    {
        SwapChainFlags { bits: 0x800 }
    }
}

/// Resource options (`D3D12_RESOURCE_FLAGS`). Any bit pattern is kept as given.
#[derive(Clone, Copy, Debug, PartialEq, Eq, Structural, Hash)]
pub struct ResourceFlags {
    pub bits: u32,
}

impl ResourceFlags {
    /// No flag set.
    pub fn empty() -> (r: Self)
        ensures
            r.bits == 0,
    {
        ResourceFlags { bits: 0 }
    }

    /// The flags with exactly the given bits.
    pub fn from_bits_retain(bits: u32) -> (r: Self)
        ensures
            r.bits == bits,
    {
        ResourceFlags { bits }
    }

    /// The raw bits.
    pub fn bits(&self) -> (r: u32)
        ensures
            r == self.bits,
    {
        self.bits
    }

    /// The flags set in either operand.
    pub fn union(self, other: Self) -> (r: Self)
        ensures
            r.bits == self.bits | other.bits,
    {
        ResourceFlags { bits: self.bits | other.bits }
    }

    /// Whether every flag of `other` is set in `self`.
    pub fn contains(&self, other: Self) -> (r: bool)
        ensures
            r == (self.bits & other.bits == other.bits),
    {
        self.bits & other.bits == other.bits
    }

    /// The flag value `0x1`.
    pub fn allow_render_target() -> (r: Self)
        ensures
            r.bits == 0x1,
    {
        ResourceFlags { bits: 0x1 }
    }

    /// The flag value `0x2`.
    pub fn allow_depth_stencil() -> (r: Self)
        ensures
            r.bits == 0x2,
    {
        ResourceFlags { bits: 0x2 }
    }

    /// The flag value `0x4`.
    pub fn allow_unordered_access() -> (r: Self)
        ensures
            r.bits == 0x4,
    {
        ResourceFlags { bits: 0x4 }
    }

    /// The flag value `0x8`.
    pub fn deny_shader_resource() -> (r: Self)
        ensures
            r.bits == 0x8,
    {
        ResourceFlags { bits: 0x8 }
    }

    /// The flag value `0x10`.
    pub fn allow_cross_adapter() -> (r: Self)
        ensures
            r.bits == 0x10,
    {
        ResourceFlags { bits: 0x10 }
    }

    /// The flag value `0x20`.
    pub fn allow_simultaneous_access() -> (r: Self)
        ensures
            r.bits == 0x20,
    {
        ResourceFlags { bits: 0x20 }
    }
}

/// Split barrier options (`D3D12_RESOURCE_BARRIER_FLAGS`). Any bit pattern is kept as given.
#[derive(Clone, Copy, Debug, PartialEq, Eq, Structural, Hash)]
pub struct ResourceBarrierFlags {
    pub bits: u32,
}

impl ResourceBarrierFlags {
    /// No flag set.
    pub fn empty() -> (r: Self)
        ensures
            r.bits == 0,
    {
        ResourceBarrierFlags { bits: 0 }
    }

    /// The flags with exactly the given bits.
    pub fn from_bits_retain(bits: u32) -> (r: Self)
        ensures
            r.bits == bits,
    {
        ResourceBarrierFlags { bits }
    }

    /// The raw bits.
    pub fn bits(&self) -> (r: u32)
        ensures
            r == self.bits,
    {
        self.bits
    }

    /// The flags set in either operand.
    pub fn union(self, other: Self) -> (r: Self)
        ensures
            r.bits == self.bits | other.bits,
    {
        ResourceBarrierFlags { bits: self.bits | other.bits }
    }

    /// Whether every flag of `other` is set in `self`.
    pub fn contains(&self, other: Self) -> (r: bool)
        ensures
            r == (self.bits & other.bits == other.bits),
    {
        self.bits & other.bits == other.bits
    }

    /// The flag value `0x1`.
    pub fn begin_only() -> (r: Self)
        ensures
            r.bits == 0x1,
    {
        ResourceBarrierFlags { bits: 0x1 }
    }

    /// The flag value `0x2`.
    pub fn end_only() -> (r: Self)
        ensures
            r.bits == 0x2,
    {
        ResourceBarrierFlags { bits: 0x2 }
    }
}

/// Resource usage states (`D3D12_RESOURCE_STATES`). Any bit pattern is kept as given.
#[derive(Clone, Copy, Debug, PartialEq, Eq, Structural, Hash)]
pub struct ResourceStates {
    pub bits: u32,
}

impl ResourceStates {
    /// No flag set.
    pub fn empty() -> (r: Self)
        ensures
            r.bits == 0,
    {
        ResourceStates { bits: 0 }
    }

    /// The flags with exactly the given bits.
    pub fn from_bits_retain(bits: u32) -> (r: Self)
        ensures
            r.bits == bits,
    {
        ResourceStates { bits }
    }

    /// The raw bits.
    pub fn bits(&self) -> (r: u32)
        ensures
            r == self.bits,
    {
        self.bits
    }

    /// The flags set in either operand.
    pub fn union(self, other: Self) -> (r: Self)
        ensures
            r.bits == self.bits | other.bits,
    {
        ResourceStates { bits: self.bits | other.bits }
    }

    /// Whether every flag of `other` is set in `self`.
    pub fn contains(&self, other: Self) -> (r: bool)
        ensures
            r == (self.bits & other.bits == other.bits),
    {
        self.bits & other.bits == other.bits
    }

    /// The flag value `0x1`.
    pub fn vertex_and_constant_buffer() -> (r: Self)
        ensures
            r.bits == 0x1,
    {
        ResourceStates { bits: 0x1 }
    }

    /// The flag value `0x2`.
    pub fn index_buffer() -> (r: Self)
        ensures
            r.bits == 0x2,
    {
        ResourceStates { bits: 0x2 }
    }

    /// The flag value `0x4`.
    pub fn render_target() -> (r: Self)
        ensures
            r.bits == 0x4,
    {
        ResourceStates { bits: 0x4 }
    }

    /// The flag value `0x8`.
    pub fn unordered_access() -> (r: Self)
        ensures
            r.bits == 0x8,
    {
        ResourceStates { bits: 0x8 }
    }

    /// The flag value `0x10`.
    pub fn depth_write() -> (r: Self)
        ensures
            r.bits == 0x10,
    {
        ResourceStates { bits: 0x10 }
    }

    /// The flag value `0x20`.
    pub fn depth_read() -> (r: Self)
        ensures
            r.bits == 0x20,
    {
        ResourceStates { bits: 0x20 }
    }

    /// The flag value `0x40`.
    pub fn non_pixel_shader_resource() -> (r: Self)
        ensures
            r.bits == 0x40,
    {
        ResourceStates { bits: 0x40 }
    }

    /// The flag value `0x80`.
    pub fn pixel_shader_resource() -> (r: Self)
        ensures
            r.bits == 0x80,
    {
        ResourceStates { bits: 0x80 }
    }

    /// The flag value `0x100`.
    pub fn stream_out() -> (r: Self)
        ensures
            r.bits == 0x100,
    {
        ResourceStates { bits: 0x100 }
    }

    /// The flag value `0x200`.
    pub fn indirect_argument() -> (r: Self)
        ensures
            r.bits == 0x200,
    {
        ResourceStates { bits: 0x200 }
    }

    /// The flag value `0x400`.
    pub fn copy_dest() -> (r: Self)
        ensures
            r.bits == 0x400,
    {
        ResourceStates { bits: 0x400 }
    }

    /// The flag value `0x800`.
    pub fn copy_source() -> (r: Self)
        ensures
            r.bits == 0x800,
    {
        ResourceStates { bits: 0x800 }
    }

    /// The flag value `0x1000`.
    pub fn resolve_dest() -> (r: Self)
        ensures
            r.bits == 0x1000,
    {
        ResourceStates { bits: 0x1000 }
    }

    /// The flag value `0x2000`.
    pub fn resolve_source() -> (r: Self)
        ensures
            r.bits == 0x2000,
    {
        ResourceStates { bits: 0x2000 }
    }

    /// The flag value `0xac3`.
    pub fn generic_read() -> (r: Self)
        ensures
            r.bits == 0xac3,
    {
        ResourceStates { bits: 0xac3 }
    }
}

/// Pipeline state options (`D3D12_PIPELINE_STATE_FLAGS`). Any bit pattern is kept as given.
#[derive(Clone, Copy, Debug, PartialEq, Eq, Structural, Hash)]
pub struct PipelineStateFlags {
    pub bits: u32,
}

impl PipelineStateFlags {
    /// No flag set.
    pub fn empty() -> (r: Self)
        ensures
            r.bits == 0,
    {
        PipelineStateFlags { bits: 0 }
    }

    /// The flags with exactly the given bits.
    pub fn from_bits_retain(bits: u32) -> (r: Self)
        ensures
            r.bits == bits,
    {
        PipelineStateFlags { bits }
    }

    /// The raw bits.
    pub fn bits(&self) -> (r: u32)
        ensures
            r == self.bits,
    {
        self.bits
    }

    /// The flags set in either operand.
    pub fn union(self, other: Self) -> (r: Self)
        ensures
            r.bits == self.bits | other.bits,
    {
        PipelineStateFlags { bits: self.bits | other.bits }
    }

    /// Whether every flag of `other` is set in `self`.
    pub fn contains(&self, other: Self) -> (r: bool)
        ensures
            r == (self.bits & other.bits == other.bits),
    {
        self.bits & other.bits == other.bits
    }

    /// The flag value `0x1`.
    pub fn tool_debug() -> (r: Self)
        ensures
            r.bits == 0x1,
    {
        PipelineStateFlags { bits: 0x1 }
    }
}

/// Descriptor heap options (`D3D12_DESCRIPTOR_HEAP_FLAGS`). Any bit pattern is kept as given.
#[derive(Clone, Copy, Debug, PartialEq, Eq, Structural, Hash)]
pub struct DescriptorHeapFlags {
    pub bits: u32,
}

impl DescriptorHeapFlags {
    /// No flag set.
    pub fn empty() -> (r: Self)
        ensures
            r.bits == 0,
    {
        DescriptorHeapFlags { bits: 0 }
    }

    /// The flags with exactly the given bits.
    pub fn from_bits_retain(bits: u32) -> (r: Self)
        ensures
            r.bits == bits,
    {
        DescriptorHeapFlags { bits }
    }

    /// The raw bits.
    pub fn bits(&self) -> (r: u32)
        ensures
            r == self.bits,
    {
        self.bits
    }

    /// The flags set in either operand.
    pub fn union(self, other: Self) -> (r: Self)
        ensures
            r.bits == self.bits | other.bits,
    {
        DescriptorHeapFlags { bits: self.bits | other.bits }
    }

    /// Whether every flag of `other` is set in `self`.
    pub fn contains(&self, other: Self) -> (r: bool)
        ensures
            r == (self.bits & other.bits == other.bits),
    {
        self.bits & other.bits == other.bits
    }

    /// The flag value `0x1`.
    pub fn shader_visible() -> (r: Self)
        ensures
            r.bits == 0x1,
    {
        DescriptorHeapFlags { bits: 0x1 }
    }
}

/// Command queue options (`D3D12_COMMAND_QUEUE_FLAGS`). Any bit pattern is kept as given.
#[derive(Clone, Copy, Debug, PartialEq, Eq, Structural, Hash)]
pub struct CommandQueueFlags {
    pub bits: u32,
}

impl CommandQueueFlags {
    /// No flag set.
    pub fn empty() -> (r: Self)
        ensures
            r.bits == 0,
    {
        CommandQueueFlags { bits: 0 }
    }

    /// The flags with exactly the given bits.
    pub fn from_bits_retain(bits: u32) -> (r: Self)
        ensures
            r.bits == bits,
    {
        CommandQueueFlags { bits }
    }

    /// The raw bits.
    pub fn bits(&self) -> (r: u32)
        ensures
            r == self.bits,
    {
        self.bits
    }

    /// The flags set in either operand.
    pub fn union(self, other: Self) -> (r: Self)
        ensures
            r.bits == self.bits | other.bits,
    {
        CommandQueueFlags { bits: self.bits | other.bits }
    }

    /// Whether every flag of `other` is set in `self`.
    pub fn contains(&self, other: Self) -> (r: bool)
        ensures
            r == (self.bits & other.bits == other.bits),
    {
        self.bits & other.bits == other.bits
    }

    /// The flag value `0x1`.
    pub fn disable_gpu_timeout() -> (r: Self)
        ensures
            r.bits == 0x1,
    {
        CommandQueueFlags { bits: 0x1 }
    }
}

/// Descriptor range volatility (`D3D12_DESCRIPTOR_RANGE_FLAGS`). Any bit pattern is kept as given.
#[derive(Clone, Copy, Debug, PartialEq, Eq, Structural, Hash)]
pub struct DescriptorRangeFlags {
    pub bits: u32,
}

impl DescriptorRangeFlags {
    /// No flag set.
    pub fn empty() -> (r: Self)
        ensures
            r.bits == 0,
    {
        DescriptorRangeFlags { bits: 0 }
    }

    /// The flags with exactly the given bits.
    pub fn from_bits_retain(bits: u32) -> (r: Self)
        ensures
            r.bits == bits,
    {
        DescriptorRangeFlags { bits }
    }

    /// The raw bits.
    pub fn bits(&self) -> (r: u32)
        ensures
            r == self.bits,
    {
        self.bits
    }

    /// The flags set in either operand.
    pub fn union(self, other: Self) -> (r: Self)
        ensures
            r.bits == self.bits | other.bits,
    {
        DescriptorRangeFlags { bits: self.bits | other.bits }
    }

    /// Whether every flag of `other` is set in `self`.
    pub fn contains(&self, other: Self) -> (r: bool)
        ensures
            r == (self.bits & other.bits == other.bits),
    {
        self.bits & other.bits == other.bits
    }

    /// The flag value `0x1`.
    pub fn descriptors_volatile() -> (r: Self)
        ensures
            r.bits == 0x1,
    {
        DescriptorRangeFlags { bits: 0x1 }
    }

    /// The flag value `0x2`.
    pub fn data_volatile() -> (r: Self)
        ensures
            r.bits == 0x2,
    {
        DescriptorRangeFlags { bits: 0x2 }
    }

    /// The flag value `0x4`.
    pub fn data_static_while_set_at_execute() -> (r: Self)
        ensures
            r.bits == 0x4,
    {
        DescriptorRangeFlags { bits: 0x4 }
    }

    /// The flag value `0x8`.
    pub fn data_static() -> (r: Self)
        ensures
            r.bits == 0x8,
    {
        DescriptorRangeFlags { bits: 0x8 }
    }
}

/// Root descriptor volatility (`D3D12_ROOT_DESCRIPTOR_FLAGS`). Any bit pattern is kept as given.
#[derive(Clone, Copy, Debug, PartialEq, Eq, Structural, Hash)]
pub struct RootDescriptorFlags {
    pub bits: u32,
}

impl RootDescriptorFlags {
    /// No flag set.
    pub fn empty() -> (r: Self)
        ensures
            r.bits == 0,
    {
        RootDescriptorFlags { bits: 0 }
    }

    /// The flags with exactly the given bits.
    pub fn from_bits_retain(bits: u32) -> (r: Self)
        ensures
            r.bits == bits,
    {
        RootDescriptorFlags { bits }
    }

    /// The raw bits.
    pub fn bits(&self) -> (r: u32)
        ensures
            r == self.bits,
    {
        self.bits
    }

    /// The flags set in either operand.
    pub fn union(self, other: Self) -> (r: Self)
        ensures
            r.bits == self.bits | other.bits,
    {
        RootDescriptorFlags { bits: self.bits | other.bits }
    }

    /// Whether every flag of `other` is set in `self`.
    pub fn contains(&self, other: Self) -> (r: bool)
        ensures
            r == (self.bits & other.bits == other.bits),
    {
        self.bits & other.bits == other.bits
    }

    /// The flag value `0x2`.
    pub fn data_volatile() -> (r: Self)
        ensures
            r.bits == 0x2,
    {
        RootDescriptorFlags { bits: 0x2 }
    }

    /// The flag value `0x4`.
    pub fn data_static_while_set_at_execute() -> (r: Self)
        ensures
            r.bits == 0x4,
    {
        RootDescriptorFlags { bits: 0x4 }
    }

    /// The flag value `0x8`.
    pub fn data_static() -> (r: Self)
        ensures
            r.bits == 0x8,
    {
        RootDescriptorFlags { bits: 0x8 }
    }
}

/// Root signature options (`D3D12_ROOT_SIGNATURE_FLAGS`). Any bit pattern is kept as given.
#[derive(Clone, Copy, Debug, PartialEq, Eq, Structural, Hash)]
pub struct RootSignatureFlags {
    pub bits: u32,
}

impl RootSignatureFlags {
    /// No flag set.
    pub fn empty() -> (r: Self)
        ensures
            r.bits == 0,
    {
        RootSignatureFlags { bits: 0 }
    }

    /// The flags with exactly the given bits.
    pub fn from_bits_retain(bits: u32) -> (r: Self)
        ensures
            r.bits == bits,
    {
        RootSignatureFlags { bits }
    }

    /// The raw bits.
    pub fn bits(&self) -> (r: u32)
        ensures
            r == self.bits,
    {
        self.bits
    }

    /// The flags set in either operand.
    pub fn union(self, other: Self) -> (r: Self)
        ensures
            r.bits == self.bits | other.bits,
    {
        RootSignatureFlags { bits: self.bits | other.bits }
    }

    /// Whether every flag of `other` is set in `self`.
    pub fn contains(&self, other: Self) -> (r: bool)
        ensures
            r == (self.bits & other.bits == other.bits),
    {
        self.bits & other.bits == other.bits
    }

    /// The flag value `0x1`.
    pub fn allow_input_assembler_input_layout() -> (r: Self)
        ensures
            r.bits == 0x1,
    {
        RootSignatureFlags { bits: 0x1 }
    }

    /// The flag value `0x2`.
    pub fn deny_vertex_shader_root_access() -> (r: Self)
        ensures
            r.bits == 0x2,
    {
        RootSignatureFlags { bits: 0x2 }
    }

    /// The flag value `0x20`.
    pub fn deny_pixel_shader_root_access() -> (r: Self)
        ensures
            r.bits == 0x20,
    {
        RootSignatureFlags { bits: 0x20 }
    }

    /// The flag value `0x40`.
    pub fn allow_stream_output() -> (r: Self)
        ensures
            r.bits == 0x40,
    {
        RootSignatureFlags { bits: 0x40 }
    }

    /// The flag value `0x400`.
    pub fn cbv_srv_uav_heap_directly_indexed() -> (r: Self)
        ensures
            r.bits == 0x400,
    {
        RootSignatureFlags { bits: 0x400 }
    }

    /// The flag value `0x800`.
    pub fn sampler_heap_directly_indexed() -> (r: Self)
        ensures
            r.bits == 0x800,
    {
        RootSignatureFlags { bits: 0x800 }
    }
}

/// Buffer shader resource view options (`D3D12_BUFFER_SRV_FLAGS`). Any bit pattern is kept as given.
#[derive(Clone, Copy, Debug, PartialEq, Eq, Structural, Hash)]
pub struct BufferSrvFlags {
    pub bits: u32,
}

impl BufferSrvFlags {
    /// No flag set.
    pub fn empty() -> (r: Self)
        ensures
            r.bits == 0,
    {
        BufferSrvFlags { bits: 0 }
    }

    /// The flags with exactly the given bits.
    pub fn from_bits_retain(bits: u32) -> (r: Self)
        ensures
            r.bits == bits,
    {
        BufferSrvFlags { bits }
    }

    /// The raw bits.
    pub fn bits(&self) -> (r: u32)
        ensures
            r == self.bits,
    {
        self.bits
    }

    /// The flags set in either operand.
    pub fn union(self, other: Self) -> (r: Self)
        ensures
            r.bits == self.bits | other.bits,
    {
        BufferSrvFlags { bits: self.bits | other.bits }
    }

    /// Whether every flag of `other` is set in `self`.
    pub fn contains(&self, other: Self) -> (r: bool)
        ensures
            r == (self.bits & other.bits == other.bits),
    {
        self.bits & other.bits == other.bits
    }

    /// The flag value `0x1`.
    pub fn raw() -> (r: Self)
        ensures
            r.bits == 0x1,
    {
        BufferSrvFlags { bits: 0x1 }
    }
}

/// Buffer unordered access view options (`D3D12_BUFFER_UAV_FLAGS`). Any bit pattern is kept as given.
#[derive(Clone, Copy, Debug, PartialEq, Eq, Structural, Hash)]
pub struct BufferUavFlags {
    pub bits: u32,
}

impl BufferUavFlags {
    /// No flag set.
    pub fn empty() -> (r: Self)
        ensures
            r.bits == 0,
    {
        BufferUavFlags { bits: 0 }
    }

    /// The flags with exactly the given bits.
    pub fn from_bits_retain(bits: u32) -> (r: Self)
        ensures
            r.bits == bits,
    {
        BufferUavFlags { bits }
    }

    /// The raw bits.
    pub fn bits(&self) -> (r: u32)
        ensures
            r == self.bits,
    {
        self.bits
    }

    /// The flags set in either operand.
    pub fn union(self, other: Self) -> (r: Self)
        ensures
            r.bits == self.bits | other.bits,
    {
        BufferUavFlags { bits: self.bits | other.bits }
    }

    /// Whether every flag of `other` is set in `self`.
    pub fn contains(&self, other: Self) -> (r: bool)
        ensures
            r == (self.bits & other.bits == other.bits),
    {
        self.bits & other.bits == other.bits
    }

    /// The flag value `0x1`.
    pub fn raw() -> (r: Self)
        ensures
            r.bits == 0x1,
    {
        BufferUavFlags { bits: 0x1 }
    }
}

/// Depth stencil view options (`D3D12_DSV_FLAGS`). Any bit pattern is kept as given.
#[derive(Clone, Copy, Debug, PartialEq, Eq, Structural, Hash)]
pub struct DsvFlags {
    pub bits: u32,
}

impl DsvFlags {
    /// No flag set.
    pub fn empty() -> (r: Self)
        ensures
            r.bits == 0,
    {
        DsvFlags { bits: 0 }
    }

    /// The flags with exactly the given bits.
    pub fn from_bits_retain(bits: u32) -> (r: Self)
        ensures
            r.bits == bits,
    {
        DsvFlags { bits }
    }

    /// The raw bits.
    pub fn bits(&self) -> (r: u32)
        ensures
            r == self.bits,
    {
        self.bits
    }

    /// The flags set in either operand.
    pub fn union(self, other: Self) -> (r: Self)
        ensures
            r.bits == self.bits | other.bits,
    {
        DsvFlags { bits: self.bits | other.bits }
    }

    /// Whether every flag of `other` is set in `self`.
    pub fn contains(&self, other: Self) -> (r: bool)
        ensures
            r == (self.bits & other.bits == other.bits),
    {
        self.bits & other.bits == other.bits
    }

    /// The flag value `0x1`.
    pub fn read_only_depth() -> (r: Self)
        ensures
            r.bits == 0x1,
    {
        DsvFlags { bits: 0x1 }
    }

    /// The flag value `0x2`.
    pub fn read_only_stencil() -> (r: Self)
        ensures
            r.bits == 0x2,
    {
        DsvFlags { bits: 0x2 }
    }
}

/// Heap options (`D3D12_HEAP_FLAGS`). Any bit pattern is kept as given.
#[derive(Clone, Copy, Debug, PartialEq, Eq, Structural, Hash)]
pub struct HeapFlags {
    pub bits: u32,
}

impl HeapFlags {
    /// No flag set.
    pub fn empty() -> (r: Self)
        ensures
            r.bits == 0,
    {
        HeapFlags { bits: 0 }
    }

    /// The flags with exactly the given bits.
    pub fn from_bits_retain(bits: u32) -> (r: Self)
        ensures
            r.bits == bits,
    {
        HeapFlags { bits }
    }

    /// The raw bits.
    pub fn bits(&self) -> (r: u32)
        ensures
            r == self.bits,
    {
        self.bits
    }

    /// The flags set in either operand.
    pub fn union(self, other: Self) -> (r: Self)
        ensures
            r.bits == self.bits | other.bits,
    {
        HeapFlags { bits: self.bits | other.bits }
    }

    /// Whether every flag of `other` is set in `self`.
    pub fn contains(&self, other: Self) -> (r: bool)
        ensures
            r == (self.bits & other.bits == other.bits),
    {
        self.bits & other.bits == other.bits
    }

    /// The flag value `0x1`.
    pub fn shared() -> (r: Self)
        ensures
            r.bits == 0x1,
    {
        HeapFlags { bits: 0x1 }
    }

    /// The flag value `0x4`.
    pub fn deny_buffers() -> (r: Self)
        ensures
            r.bits == 0x4,
    {
        HeapFlags { bits: 0x4 }
    }

    /// The flag value `0x8`.
    pub fn allow_display() -> (r: Self)
        ensures
            r.bits == 0x8,
    {
        HeapFlags { bits: 0x8 }
    }

    /// The flag value `0x20`.
    pub fn shared_cross_adapter() -> (r: Self)
        ensures
            r.bits == 0x20,
    {
        HeapFlags { bits: 0x20 }
    }

    /// The flag value `0x40`.
    pub fn deny_rt_ds_textures() -> (r: Self)
        ensures
            r.bits == 0x40,
    {
        HeapFlags { bits: 0x40 }
    }

    /// The flag value `0x80`.
    pub fn deny_non_rt_ds_textures() -> (r: Self)
        ensures
            r.bits == 0x80,
    {
        HeapFlags { bits: 0x80 }
    }
}

/// For flags of any of the types above: a union contains both operands, does not depend on
/// their order, and adding a flag that is already there changes nothing.
pub proof fn lemma_flag_union(a: u32, b: u32)
    ensures
        (a | b) & a == a,
        (a | b) & b == b,
        a | b == b | a,
        (a & b == b) ==> a | b == a,
{
    assert((a | b) & a == a && (a | b) & b == b && a | b == b | a && ((a & b == b) ==> a | b == a)) by (bit_vector);
}

} // verus!
