//! Pipeline-state streams and the mesh-shader pipeline description built from tagged subobjects.

use vstd::prelude::*;
use vstd::array::spec_array_fill_for_copy_type;

use crate::descriptors::SIMULTANEOUS_RENDER_TARGET_COUNT;
use crate::enums::{
    ComparisonFunc, ConservativeRasterizationMode, CullMode, DepthWriteMask, FillMode, Format, PipelineStateFlags,
    PipelineStateSubobjectType, PrimitiveTopologyType, StencilOp,
};
use crate::pipeline::{
    default_render_target_blend, BlendDesc, CachedPipelineState, DepthStencilDesc, DepthStencilOpDesc, RasterizerDesc,
    RenderTargetBlendDesc, RtFormatArray, ShaderBytecode,
};
use crate::root_signature::RootSignature;
use crate::swapchain::SampleDesc;
use crate::utils::ByteCount;

verus! {

/// A pipeline state subobject stream (`D3D12_PIPELINE_STATE_STREAM_DESC`).
#[derive(Clone, Copy, Debug, PartialEq, Eq)]
pub struct PipelineStateStreamDesc<'a> {
    pub subobject_stream: &'a [u8],
}

impl<'a> Default for PipelineStateStreamDesc<'a> {
    /// An empty stream.
    fn default() -> (r: Self)
        ensures
            r == (PipelineStateStreamDesc {
                subobject_stream: &[],
            }),
    {
        PipelineStateStreamDesc {
            subobject_stream: &[],
        }
    }
}

impl<'a> PipelineStateStreamDesc<'a> {
    /// Length of the stream.
    pub fn size_in_bytes(&self) -> (r: ByteCount)
        ensures
            r.0 == self.subobject_stream@.len(),
    {
        ByteCount(self.subobject_stream.len() as u64)
    }

    /// Uses `subobject_stream` as the stream.
    pub fn with_pipeline_state_subobject_stream(self, subobject_stream: &'a [u8]) -> (r: Self)
        ensures
            r.subobject_stream == subobject_stream,
    {
        PipelineStateStreamDesc { subobject_stream }
    }

    /// As [`Self::with_pipeline_state_subobject_stream`], on the value in place.
    pub fn set_pipeline_state_subobject_stream(&mut self, subobject_stream: &'a [u8]) -> (r: &mut Self)
        ensures
            (*r).subobject_stream == subobject_stream,
            *final(self) == *final(r),
    {
        let v = (*self).with_pipeline_state_subobject_stream(subobject_stream);
        *self = v;
        self
    }

    /// The stream.
    pub fn pipeline_state_subobject_stream(&self) -> (r: &'a [u8])
        ensures
            r == self.subobject_stream,
    {
        self.subobject_stream
    }
}

/// One subobject of a pipeline state stream: its type tag and its value.
#[derive(Clone, Copy, Debug, PartialEq, Eq)]
pub struct PipelineStateSubobject<T> {
    pub ty: PipelineStateSubobjectType,
    pub subobject: T,
}

impl<T> PipelineStateSubobject<T> {
    /// The subobject `subobject` tagged `ty`.
    pub fn new(ty: PipelineStateSubobjectType, subobject: T) -> (r: Self)
        ensures
            r.ty == ty,
            r.subobject == subobject,
    {
        PipelineStateSubobject { ty, subobject }
    }
}

/// A mesh shader pipeline laid out as a stream of tagged subobjects, one per piece of state.
#[derive(Clone, Copy, Debug, PartialEq, Eq)]
pub struct MeshShaderPipelineStateDesc<'rs, 'sh> {
    pub root_signature: PipelineStateSubobject<Option<&'rs RootSignature>>,
    pub amplification_shader: PipelineStateSubobject<ShaderBytecode<'sh>>,
    pub mesh_shader: PipelineStateSubobject<ShaderBytecode<'sh>>,
    pub pixel_shader: PipelineStateSubobject<ShaderBytecode<'sh>>,
    pub blend_state: PipelineStateSubobject<BlendDesc>,
    pub sample_mask: PipelineStateSubobject<u32>,
    pub rasterizer_state: PipelineStateSubobject<RasterizerDesc>,
    pub depth_stencil_state: PipelineStateSubobject<DepthStencilDesc>,
    pub primitive_topology_type: PipelineStateSubobject<PrimitiveTopologyType>,
    pub rtv_formats: PipelineStateSubobject<RtFormatArray>,
    pub dsv_format: PipelineStateSubobject<Format>,
    pub sample_desc: PipelineStateSubobject<SampleDesc>,
    pub node_mask: PipelineStateSubobject<u32>,
    pub cached_pso: PipelineStateSubobject<CachedPipelineState<'sh>>,
    pub flags: PipelineStateSubobject<PipelineStateFlags>,
}

impl<'rs, 'sh> MeshShaderPipelineStateDesc<'rs, 'sh> {
    /// Every subobject carries the type tag of the state it holds.
    pub open spec fn well_tagged(self) -> bool {
        &&& self.root_signature.ty == PipelineStateSubobjectType::RootSignature
        &&& self.amplification_shader.ty == PipelineStateSubobjectType::AS
        &&& self.mesh_shader.ty == PipelineStateSubobjectType::MS
        &&& self.pixel_shader.ty == PipelineStateSubobjectType::PS
        &&& self.blend_state.ty == PipelineStateSubobjectType::Blend
        &&& self.sample_mask.ty == PipelineStateSubobjectType::SampleMask
        &&& self.rasterizer_state.ty == PipelineStateSubobjectType::Rasterizer
        &&& self.depth_stencil_state.ty == PipelineStateSubobjectType::DepthStencil
        &&& self.primitive_topology_type.ty == PipelineStateSubobjectType::PrimitiveTopology
        &&& self.rtv_formats.ty == PipelineStateSubobjectType::RenderTargetFormats
        &&& self.dsv_format.ty == PipelineStateSubobjectType::DepthStencilFormat
        &&& self.sample_desc.ty == PipelineStateSubobjectType::SampleDesc
        &&& self.node_mask.ty == PipelineStateSubobjectType::NodeMask
        &&& self.cached_pso.ty == PipelineStateSubobjectType::CachedPso
        &&& self.flags.ty == PipelineStateSubobjectType::Flags
    }
}

impl<'rs, 'sh> Default for MeshShaderPipelineStateDesc<'rs, 'sh> {
    /// No root signature or shaders, default blend, rasterizer and depth stencil state, all samples,
    /// triangles, no render targets, single sampling, node zero, no cached state and no flags.
    fn default() -> (r: Self)
        ensures
            r.well_tagged(),
            r.root_signature.subobject == (None::<&'rs RootSignature>),
            r.amplification_shader.subobject == (ShaderBytecode { bytecode: &[] }),
            r.mesh_shader.subobject == (ShaderBytecode { bytecode: &[] }),
            r.pixel_shader.subobject == (ShaderBytecode { bytecode: &[] }),
            r.blend_state.subobject == (BlendDesc { alpha_to_coverage_enable: false, independent_blend_enable: false, render_target: spec_array_fill_for_copy_type::<RenderTargetBlendDesc, 8>(default_render_target_blend()) }),
            r.sample_mask.subobject == (0xffff_ffff),
            r.rasterizer_state.subobject == (RasterizerDesc { fill_mode: FillMode::Solid, cull_mode: CullMode::NoCulling, front_counter_clockwise: false, depth_bias: 0, depth_bias_clamp_bits: 0, slope_scaled_depth_bias_bits: 0, depth_clip_enable: false, multisample_enable: false, antialiased_line_enable: false, forced_sample_count: 0, conservative_raster: ConservativeRasterizationMode::Off }),
            r.depth_stencil_state.subobject == (DepthStencilDesc { depth_enable: false, depth_write_mask: DepthWriteMask::Zero, depth_func: ComparisonFunc::Never, stencil_enable: false, stencil_read_mask: 0, stencil_write_mask: 0, front_face: DepthStencilOpDesc { stencil_fail_op: StencilOp::Zero, stencil_depth_fail_op: StencilOp::Zero, stencil_pass_op: StencilOp::Zero, stencil_func: ComparisonFunc::Never }, back_face: DepthStencilOpDesc { stencil_fail_op: StencilOp::Zero, stencil_depth_fail_op: StencilOp::Zero, stencil_pass_op: StencilOp::Zero, stencil_func: ComparisonFunc::Never } }),
            r.primitive_topology_type.subobject == (PrimitiveTopologyType::Triangle),
            r.rtv_formats.subobject == (RtFormatArray { rt_formats_array: spec_array_fill_for_copy_type::<Format, 8>(Format::Unknown), num_render_targets: 0 }),
            r.dsv_format.subobject == (Format::Unknown),
            r.sample_desc.subobject == (SampleDesc { count: 1, quality: 0 }),
            r.node_mask.subobject == (0),
            r.cached_pso.subobject == (CachedPipelineState { cached_blob: &[] }),
            r.flags.subobject == (PipelineStateFlags { bits: 0 }),
    {
        MeshShaderPipelineStateDesc {
            root_signature: PipelineStateSubobject::new(PipelineStateSubobjectType::RootSignature, None::<&'rs RootSignature>),
            amplification_shader: PipelineStateSubobject::new(PipelineStateSubobjectType::AS, ShaderBytecode { bytecode: &[] }),
            mesh_shader: PipelineStateSubobject::new(PipelineStateSubobjectType::MS, ShaderBytecode { bytecode: &[] }),
            pixel_shader: PipelineStateSubobject::new(PipelineStateSubobjectType::PS, ShaderBytecode { bytecode: &[] }),
            blend_state: PipelineStateSubobject::new(PipelineStateSubobjectType::Blend, BlendDesc::default()),
            sample_mask: PipelineStateSubobject::new(PipelineStateSubobjectType::SampleMask, 0xffff_ffff),
            rasterizer_state: PipelineStateSubobject::new(PipelineStateSubobjectType::Rasterizer, RasterizerDesc::default()),
            depth_stencil_state: PipelineStateSubobject::new(PipelineStateSubobjectType::DepthStencil, DepthStencilDesc::default()),
            primitive_topology_type: PipelineStateSubobject::new(PipelineStateSubobjectType::PrimitiveTopology, PrimitiveTopologyType::Triangle),
            rtv_formats: PipelineStateSubobject::new(PipelineStateSubobjectType::RenderTargetFormats, RtFormatArray::default()),
            dsv_format: PipelineStateSubobject::new(PipelineStateSubobjectType::DepthStencilFormat, Format::Unknown),
            sample_desc: PipelineStateSubobject::new(PipelineStateSubobjectType::SampleDesc, SampleDesc::default()),
            node_mask: PipelineStateSubobject::new(PipelineStateSubobjectType::NodeMask, 0),
            cached_pso: PipelineStateSubobject::new(PipelineStateSubobjectType::CachedPso, CachedPipelineState { cached_blob: &[] }),
            flags: PipelineStateSubobject::new(PipelineStateSubobjectType::Flags, PipelineStateFlags::empty()),
        }
    }
}

impl<'rs, 'sh> MeshShaderPipelineStateDesc<'rs, 'sh> {
    /// Uses `root_signature` for the pipeline.
    pub fn with_root_signature(self, root_signature: &'rs RootSignature) -> (r: Self)
        ensures
            r == (MeshShaderPipelineStateDesc {
                root_signature: PipelineStateSubobject { ty: PipelineStateSubobjectType::RootSignature, subobject: Some(root_signature) },
                ..self
            }),
            self.well_tagged() ==> r.well_tagged(),
    {
        MeshShaderPipelineStateDesc {
            root_signature: PipelineStateSubobject::new(PipelineStateSubobjectType::RootSignature, Some(root_signature)),
            ..self
        }
    }

    /// As [`Self::with_root_signature`], on the value in place.
    pub fn set_root_signature(&mut self, root_signature: &'rs RootSignature) -> (r: &mut Self)
        ensures
            (*r) == (MeshShaderPipelineStateDesc {
                root_signature: PipelineStateSubobject { ty: PipelineStateSubobjectType::RootSignature, subobject: Some(root_signature) },
                ..(*old(self))
            }),
            (*old(self)).well_tagged() ==> (*r).well_tagged(),
            *final(self) == *final(r),
    {
        let v = (*self).with_root_signature(root_signature);
        *self = v;
        self
    }

    /// Uses `bytecode` as the amplification shader.
    pub fn with_amplification_shader_bytecode(self, bytecode: &'sh ShaderBytecode<'sh>) -> (r: Self)
        ensures
            r == (MeshShaderPipelineStateDesc {
                amplification_shader: PipelineStateSubobject { ty: PipelineStateSubobjectType::AS, subobject: *bytecode },
                ..self
            }),
            self.well_tagged() ==> r.well_tagged(),
    {
        MeshShaderPipelineStateDesc {
            amplification_shader: PipelineStateSubobject::new(PipelineStateSubobjectType::AS, *bytecode),
            ..self
        }
    }

    /// As [`Self::with_amplification_shader_bytecode`], on the value in place.
    pub fn set_amplification_shader_bytecode(&mut self, bytecode: &'sh ShaderBytecode<'sh>) -> (r: &mut Self)
        ensures
            (*r) == (MeshShaderPipelineStateDesc {
                amplification_shader: PipelineStateSubobject { ty: PipelineStateSubobjectType::AS, subobject: *bytecode },
                ..(*old(self))
            }),
            (*old(self)).well_tagged() ==> (*r).well_tagged(),
            *final(self) == *final(r),
    {
        let v = (*self).with_amplification_shader_bytecode(bytecode);
        *self = v;
        self
    }

    /// Uses `bytecode` as the mesh shader.
    pub fn with_mesh_shader_bytecode(self, bytecode: &'sh ShaderBytecode<'sh>) -> (r: Self)
        ensures
            r == (MeshShaderPipelineStateDesc {
                mesh_shader: PipelineStateSubobject { ty: PipelineStateSubobjectType::MS, subobject: *bytecode },
                ..self
            }),
            self.well_tagged() ==> r.well_tagged(),
    {
        MeshShaderPipelineStateDesc {
            mesh_shader: PipelineStateSubobject::new(PipelineStateSubobjectType::MS, *bytecode),
            ..self
        }
    }

    /// As [`Self::with_mesh_shader_bytecode`], on the value in place.
    pub fn set_mesh_shader_bytecode(&mut self, bytecode: &'sh ShaderBytecode<'sh>) -> (r: &mut Self)
        ensures
            (*r) == (MeshShaderPipelineStateDesc {
                mesh_shader: PipelineStateSubobject { ty: PipelineStateSubobjectType::MS, subobject: *bytecode },
                ..(*old(self))
            }),
            (*old(self)).well_tagged() ==> (*r).well_tagged(),
            *final(self) == *final(r),
    {
        let v = (*self).with_mesh_shader_bytecode(bytecode);
        *self = v;
        self
    }

    /// Uses `bytecode` as the pixel shader.
    pub fn with_ps_bytecode(self, bytecode: &'sh ShaderBytecode<'sh>) -> (r: Self)
        ensures
            r == (MeshShaderPipelineStateDesc {
                pixel_shader: PipelineStateSubobject { ty: PipelineStateSubobjectType::PS, subobject: *bytecode },
                ..self
            }),
            self.well_tagged() ==> r.well_tagged(),
    {
        MeshShaderPipelineStateDesc {
            pixel_shader: PipelineStateSubobject::new(PipelineStateSubobjectType::PS, *bytecode),
            ..self
        }
    }

    /// As [`Self::with_ps_bytecode`], on the value in place.
    pub fn set_ps_bytecode(&mut self, bytecode: &'sh ShaderBytecode<'sh>) -> (r: &mut Self)
        ensures
            (*r) == (MeshShaderPipelineStateDesc {
                pixel_shader: PipelineStateSubobject { ty: PipelineStateSubobjectType::PS, subobject: *bytecode },
                ..(*old(self))
            }),
            (*old(self)).well_tagged() ==> (*r).well_tagged(),
            *final(self) == *final(r),
    {
        let v = (*self).with_ps_bytecode(bytecode);
        *self = v;
        self
    }

    /// Replaces the blend state.
    pub fn with_blend_state(self, blend_state: &BlendDesc) -> (r: Self)
        ensures
            r == (MeshShaderPipelineStateDesc {
                blend_state: PipelineStateSubobject { ty: PipelineStateSubobjectType::Blend, subobject: *blend_state },
                ..self
            }),
            self.well_tagged() ==> r.well_tagged(),
    {
        MeshShaderPipelineStateDesc {
            blend_state: PipelineStateSubobject::new(PipelineStateSubobjectType::Blend, *blend_state),
            ..self
        }
    }

    /// As [`Self::with_blend_state`], on the value in place.
    pub fn set_blend_state(&mut self, blend_state: &BlendDesc) -> (r: &mut Self)
        ensures
            (*r) == (MeshShaderPipelineStateDesc {
                blend_state: PipelineStateSubobject { ty: PipelineStateSubobjectType::Blend, subobject: *blend_state },
                ..(*old(self))
            }),
            (*old(self)).well_tagged() ==> (*r).well_tagged(),
            *final(self) == *final(r),
    {
        let v = (*self).with_blend_state(blend_state);
        *self = v;
        self
    }

    /// Replaces the rasterizer state.
    pub fn with_rasterizer_state(self, rasterizer_state: &RasterizerDesc) -> (r: Self)
        ensures
            r == (MeshShaderPipelineStateDesc {
                rasterizer_state: PipelineStateSubobject { ty: PipelineStateSubobjectType::Rasterizer, subobject: *rasterizer_state },
                ..self
            }),
            self.well_tagged() ==> r.well_tagged(),
    {
        MeshShaderPipelineStateDesc {
            rasterizer_state: PipelineStateSubobject::new(PipelineStateSubobjectType::Rasterizer, *rasterizer_state),
            ..self
        }
    }

    /// As [`Self::with_rasterizer_state`], on the value in place.
    pub fn set_rasterizer_state(&mut self, rasterizer_state: &RasterizerDesc) -> (r: &mut Self)
        ensures
            (*r) == (MeshShaderPipelineStateDesc {
                rasterizer_state: PipelineStateSubobject { ty: PipelineStateSubobjectType::Rasterizer, subobject: *rasterizer_state },
                ..(*old(self))
            }),
            (*old(self)).well_tagged() ==> (*r).well_tagged(),
            *final(self) == *final(r),
    {
        let v = (*self).with_rasterizer_state(rasterizer_state);
        *self = v;
        self
    }

    /// Replaces the depth stencil state.
    pub fn with_depth_stencil_state(self, depth_stencil_state: &DepthStencilDesc) -> (r: Self)
        ensures
            r == (MeshShaderPipelineStateDesc {
                depth_stencil_state: PipelineStateSubobject { ty: PipelineStateSubobjectType::DepthStencil, subobject: *depth_stencil_state },
                ..self
            }),
            self.well_tagged() ==> r.well_tagged(),
    {
        MeshShaderPipelineStateDesc {
            depth_stencil_state: PipelineStateSubobject::new(PipelineStateSubobjectType::DepthStencil, *depth_stencil_state),
            ..self
        }
    }

    /// As [`Self::with_depth_stencil_state`], on the value in place.
    pub fn set_depth_stencil_state(&mut self, depth_stencil_state: &DepthStencilDesc) -> (r: &mut Self)
        ensures
            (*r) == (MeshShaderPipelineStateDesc {
                depth_stencil_state: PipelineStateSubobject { ty: PipelineStateSubobjectType::DepthStencil, subobject: *depth_stencil_state },
                ..(*old(self))
            }),
            (*old(self)).well_tagged() ==> (*r).well_tagged(),
            *final(self) == *final(r),
    {
        let v = (*self).with_depth_stencil_state(depth_stencil_state);
        *self = v;
        self
    }

    /// Replaces the primitive topology type.
    pub fn with_primitive_topology_type(self, primitive_topology_type: PrimitiveTopologyType) -> (r: Self)
        ensures
            r == (MeshShaderPipelineStateDesc {
                primitive_topology_type: PipelineStateSubobject { ty: PipelineStateSubobjectType::PrimitiveTopology, subobject: primitive_topology_type },
                ..self
            }),
            self.well_tagged() ==> r.well_tagged(),
    {
        MeshShaderPipelineStateDesc {
            primitive_topology_type: PipelineStateSubobject::new(PipelineStateSubobjectType::PrimitiveTopology, primitive_topology_type),
            ..self
        }
    }

    /// As [`Self::with_primitive_topology_type`], on the value in place.
    pub fn set_primitive_topology_type(&mut self, primitive_topology_type: PrimitiveTopologyType) -> (r: &mut Self)
        ensures
            (*r) == (MeshShaderPipelineStateDesc {
                primitive_topology_type: PipelineStateSubobject { ty: PipelineStateSubobjectType::PrimitiveTopology, subobject: primitive_topology_type },
                ..(*old(self))
            }),
            (*old(self)).well_tagged() ==> (*r).well_tagged(),
            *final(self) == *final(r),
    {
        let v = (*self).with_primitive_topology_type(primitive_topology_type);
        *self = v;
        self
    }

    /// Replaces the depth stencil format.
    pub fn with_dsv_format(self, dsv_format: Format) -> (r: Self)
        ensures
            r == (MeshShaderPipelineStateDesc {
                dsv_format: PipelineStateSubobject { ty: PipelineStateSubobjectType::DepthStencilFormat, subobject: dsv_format },
                ..self
            }),
            self.well_tagged() ==> r.well_tagged(),
    {
        MeshShaderPipelineStateDesc {
            dsv_format: PipelineStateSubobject::new(PipelineStateSubobjectType::DepthStencilFormat, dsv_format),
            ..self
        }
    }

    /// As [`Self::with_dsv_format`], on the value in place.
    pub fn set_dsv_format(&mut self, dsv_format: Format) -> (r: &mut Self)
        ensures
            (*r) == (MeshShaderPipelineStateDesc {
                dsv_format: PipelineStateSubobject { ty: PipelineStateSubobjectType::DepthStencilFormat, subobject: dsv_format },
                ..(*old(self))
            }),
            (*old(self)).well_tagged() ==> (*r).well_tagged(),
            *final(self) == *final(r),
    {
        let v = (*self).with_dsv_format(dsv_format);
        *self = v;
        self
    }

    /// Replaces the flags.
    pub fn with_flags(self, pipeline_state_flags: PipelineStateFlags) -> (r: Self)
        ensures
            r == (MeshShaderPipelineStateDesc {
                flags: PipelineStateSubobject { ty: PipelineStateSubobjectType::Flags, subobject: pipeline_state_flags },
                ..self
            }),
            self.well_tagged() ==> r.well_tagged(),
    {
        MeshShaderPipelineStateDesc {
            flags: PipelineStateSubobject::new(PipelineStateSubobjectType::Flags, pipeline_state_flags),
            ..self
        }
    }

    /// As [`Self::with_flags`], on the value in place.
    pub fn set_flags(&mut self, pipeline_state_flags: PipelineStateFlags) -> (r: &mut Self)
        ensures
            (*r) == (MeshShaderPipelineStateDesc {
                flags: PipelineStateSubobject { ty: PipelineStateSubobjectType::Flags, subobject: pipeline_state_flags },
                ..(*old(self))
            }),
            (*old(self)).well_tagged() ==> (*r).well_tagged(),
            *final(self) == *final(r),
    {
        let v = (*self).with_flags(pipeline_state_flags);
        *self = v;
        self
    }

    /// Uses the formats of `rtv_formats` for the render targets, in a fresh format array.
    pub fn with_rtv_formats(self, rtv_formats: &[Format]) -> (r: Self)
        requires
            rtv_formats@.len() <= SIMULTANEOUS_RENDER_TARGET_COUNT,
        ensures
            r == (MeshShaderPipelineStateDesc { rtv_formats: r.rtv_formats, ..self }),
            r.rtv_formats.ty == PipelineStateSubobjectType::RenderTargetFormats,
            r.rtv_formats.subobject.num_render_targets == rtv_formats@.len(),
            forall|i: int| 0 <= i < rtv_formats@.len() ==> r.rtv_formats.subobject.rt_formats_array@[i] == rtv_formats@[i],
            forall|i: int| rtv_formats@.len() <= i < 8 ==> r.rtv_formats.subobject.rt_formats_array@[i] == Format::Unknown,
            self.well_tagged() ==> r.well_tagged(),
    {
        let rt_format_struct = RtFormatArray::default().with_rt_formats(rtv_formats);
        MeshShaderPipelineStateDesc {
            rtv_formats: PipelineStateSubobject::new(PipelineStateSubobjectType::RenderTargetFormats, rt_format_struct),
            ..self
        }
    }

    /// As [`Self::with_rtv_formats`], on the value in place.
    pub fn set_rtv_formats(&mut self, rtv_formats: &[Format]) -> (r: &mut Self)
        requires
            rtv_formats@.len() <= SIMULTANEOUS_RENDER_TARGET_COUNT,
        ensures
            (*r) == (MeshShaderPipelineStateDesc { rtv_formats: (*r).rtv_formats, ..(*old(self)) }),
            (*r).rtv_formats.ty == PipelineStateSubobjectType::RenderTargetFormats,
            (*r).rtv_formats.subobject.num_render_targets == rtv_formats@.len(),
            forall|i: int| 0 <= i < rtv_formats@.len() ==> (*r).rtv_formats.subobject.rt_formats_array@[i] == rtv_formats@[i],
            forall|i: int| rtv_formats@.len() <= i < 8 ==> (*r).rtv_formats.subobject.rt_formats_array@[i] == Format::Unknown,
            (*old(self)).well_tagged() ==> (*r).well_tagged(),
            *final(self) == *final(r),
    {
        let v = (*self).with_rtv_formats(rtv_formats);
        *self = v;
        self
    }
}

} // verus!
