//! Results of device capability queries.

use vstd::prelude::*;

use crate::enums::{
    ConservativeRasterizationTier, CrossNodeSharingTier, ResourceBindingTier, ResourceHeapTier, ShaderMinPrecisionSupport,
    ShaderModel, TiledResourcesTier,
};

verus! {

/// Shader model support (`D3D12_FEATURE_DATA_SHADER_MODEL`).
#[derive(Clone, Copy, Debug, PartialEq, Eq)]
pub struct FeatureDataShaderModel {
    pub highest_shader_model: ShaderModel,
}

impl Default for FeatureDataShaderModel {
    /// Shader model 5.1.
    fn default() -> (r: Self)
        ensures
            r == (FeatureDataShaderModel {
                highest_shader_model: ShaderModel::SM5_1,
            }),
    {
        FeatureDataShaderModel {
            highest_shader_model: ShaderModel::SM5_1,
        }
    }
}

impl FeatureDataShaderModel {
    /// Replaces the highest shader model.
    pub fn with_highest_shader_model(self, highest_shader_model: ShaderModel) -> (r: Self)
        ensures
            r == (FeatureDataShaderModel { highest_shader_model: highest_shader_model, ..self }),
    {
        FeatureDataShaderModel { highest_shader_model: highest_shader_model, ..self }
    }

    /// As [`Self::with_highest_shader_model`], on the value in place.
    pub fn set_highest_shader_model(&mut self, highest_shader_model: ShaderModel) -> (r: &mut Self)
        ensures
            (*r) == (FeatureDataShaderModel { highest_shader_model: highest_shader_model, ..(*old(self)) }),
            *final(self) == *final(r),
    {
        let v = (*self).with_highest_shader_model(highest_shader_model);
        *self = v;
        self
    }

    /// The highest shader model.
    pub fn highest_shader_model(&self) -> (r: ShaderModel)
        ensures
            r == self.highest_shader_model,
    {
        self.highest_shader_model
    }

    /// Asks about `highest_shader_model`.
    pub fn new(highest_shader_model: ShaderModel) -> (r: Self)
        ensures
            r.highest_shader_model == highest_shader_model,
    {
        FeatureDataShaderModel { highest_shader_model }
    }
}

/// General feature support of a device (`D3D12_FEATURE_DATA_D3D12_OPTIONS`).
#[derive(Clone, Copy, Debug, PartialEq, Eq)]
pub struct FeatureDataD3DOptions {
    pub double_precision_float_shader_ops: bool,
    pub output_merger_logic_op: bool,
    pub min_precision_support: ShaderMinPrecisionSupport,
    pub tiled_resources_tier: TiledResourcesTier,
    pub resource_binding_tier: ResourceBindingTier,
    pub ps_specified_stencil_ref_supported: bool,
    pub typed_uav_load_additional_formats: bool,
    pub rovs_supported: bool,
    pub conservative_rasterization_tier: ConservativeRasterizationTier,
    pub max_gpu_virtual_address_bits_per_resource: u32,
    pub standard_swizzle_64_kb_supported: bool,
    pub cross_node_sharing_tier: CrossNodeSharingTier,
    pub cross_adapter_row_major_texture_supported: bool,
    pub vp_and_rt_array_index_from_any_shader_feeding_rasterizer_supported_without_gs_emulation: bool,
    pub resource_heap_tier: ResourceHeapTier,
}

impl Default for FeatureDataD3DOptions {
    /// No optional feature, the lowest tiers.
    fn default() -> (r: Self)
        ensures
            r == (FeatureDataD3DOptions {
                double_precision_float_shader_ops: false,
                output_merger_logic_op: false,
                min_precision_support: ShaderMinPrecisionSupport::NoMinPrecision,
                tiled_resources_tier: TiledResourcesTier::NotSupported,
                resource_binding_tier: ResourceBindingTier::Tier1,
                ps_specified_stencil_ref_supported: false,
                typed_uav_load_additional_formats: false,
                rovs_supported: false,
                conservative_rasterization_tier: ConservativeRasterizationTier::NotSupported,
                max_gpu_virtual_address_bits_per_resource: 0,
                standard_swizzle_64_kb_supported: false,
                cross_node_sharing_tier: CrossNodeSharingTier::NotSupported,
                cross_adapter_row_major_texture_supported: false,
                vp_and_rt_array_index_from_any_shader_feeding_rasterizer_supported_without_gs_emulation: false,
                resource_heap_tier: ResourceHeapTier::Tier1,
            }),
    {
        FeatureDataD3DOptions {
            double_precision_float_shader_ops: false,
            output_merger_logic_op: false,
            min_precision_support: ShaderMinPrecisionSupport::NoMinPrecision,
            tiled_resources_tier: TiledResourcesTier::NotSupported,
            resource_binding_tier: ResourceBindingTier::Tier1,
            ps_specified_stencil_ref_supported: false,
            typed_uav_load_additional_formats: false,
            rovs_supported: false,
            conservative_rasterization_tier: ConservativeRasterizationTier::NotSupported,
            max_gpu_virtual_address_bits_per_resource: 0,
            standard_swizzle_64_kb_supported: false,
            cross_node_sharing_tier: CrossNodeSharingTier::NotSupported,
            cross_adapter_row_major_texture_supported: false,
            vp_and_rt_array_index_from_any_shader_feeding_rasterizer_supported_without_gs_emulation: false,
            resource_heap_tier: ResourceHeapTier::Tier1,
        }
    }
}

impl FeatureDataD3DOptions {
    /// Replaces the double precision float shader ops.
    pub fn with_double_precision_float_shader_ops(self, double_precision_float_shader_ops: bool) -> (r: Self)
        ensures
            r == (FeatureDataD3DOptions { double_precision_float_shader_ops: double_precision_float_shader_ops, ..self }),
    {
        FeatureDataD3DOptions { double_precision_float_shader_ops: double_precision_float_shader_ops, ..self }
    }

    /// As [`Self::with_double_precision_float_shader_ops`], on the value in place.
    pub fn set_double_precision_float_shader_ops(&mut self, double_precision_float_shader_ops: bool) -> (r: &mut Self)
        ensures
            (*r) == (FeatureDataD3DOptions { double_precision_float_shader_ops: double_precision_float_shader_ops, ..(*old(self)) }),
            *final(self) == *final(r),
    {
        let v = (*self).with_double_precision_float_shader_ops(double_precision_float_shader_ops);
        *self = v;
        self
    }

    /// The double precision float shader ops.
    pub fn double_precision_float_shader_ops(&self) -> (r: bool)
        ensures
            r == self.double_precision_float_shader_ops,
    {
        self.double_precision_float_shader_ops
    }

    /// Replaces the output merger logic op.
    pub fn with_output_merger_logic_op(self, output_merger_logic_op: bool) -> (r: Self)
        ensures
            r == (FeatureDataD3DOptions { output_merger_logic_op: output_merger_logic_op, ..self }),
    {
        FeatureDataD3DOptions { output_merger_logic_op: output_merger_logic_op, ..self }
    }

    /// As [`Self::with_output_merger_logic_op`], on the value in place.
    pub fn set_output_merger_logic_op(&mut self, output_merger_logic_op: bool) -> (r: &mut Self)
        ensures
            (*r) == (FeatureDataD3DOptions { output_merger_logic_op: output_merger_logic_op, ..(*old(self)) }),
            *final(self) == *final(r),
    {
        let v = (*self).with_output_merger_logic_op(output_merger_logic_op);
        *self = v;
        self
    }

    /// The output merger logic op.
    pub fn output_merger_logic_op(&self) -> (r: bool)
        ensures
            r == self.output_merger_logic_op,
    {
        self.output_merger_logic_op
    }

    /// Replaces the min precision support.
    pub fn with_min_precision_support(self, min_precision_support: ShaderMinPrecisionSupport) -> (r: Self)
        ensures
            r == (FeatureDataD3DOptions { min_precision_support: min_precision_support, ..self }),
    {
        FeatureDataD3DOptions { min_precision_support: min_precision_support, ..self }
    }

    /// As [`Self::with_min_precision_support`], on the value in place.
    pub fn set_min_precision_support(&mut self, min_precision_support: ShaderMinPrecisionSupport) -> (r: &mut Self)
        ensures
            (*r) == (FeatureDataD3DOptions { min_precision_support: min_precision_support, ..(*old(self)) }),
            *final(self) == *final(r),
    {
        let v = (*self).with_min_precision_support(min_precision_support);
        *self = v;
        self
    }

    /// The min precision support.
    pub fn min_precision_support(&self) -> (r: ShaderMinPrecisionSupport)
        ensures
            r == self.min_precision_support,
    {
        self.min_precision_support
    }

    /// Replaces the tiled resources tier.
    pub fn with_tiled_resources_tier(self, tiled_resources_tier: TiledResourcesTier) -> (r: Self)
        ensures
            r == (FeatureDataD3DOptions { tiled_resources_tier: tiled_resources_tier, ..self }),
    {
        FeatureDataD3DOptions { tiled_resources_tier: tiled_resources_tier, ..self }
    }

    /// As [`Self::with_tiled_resources_tier`], on the value in place.
    pub fn set_tiled_resources_tier(&mut self, tiled_resources_tier: TiledResourcesTier) -> (r: &mut Self)
        ensures
            (*r) == (FeatureDataD3DOptions { tiled_resources_tier: tiled_resources_tier, ..(*old(self)) }),
            *final(self) == *final(r),
    {
        let v = (*self).with_tiled_resources_tier(tiled_resources_tier);
        *self = v;
        self
    }

    /// The tiled resources tier.
    pub fn tiled_resources_tier(&self) -> (r: TiledResourcesTier)
        ensures
            r == self.tiled_resources_tier,
    {
        self.tiled_resources_tier
    }

    /// Replaces the resource binding tier.
    pub fn with_resource_binding_tier(self, resource_binding_tier: ResourceBindingTier) -> (r: Self)
        ensures
            r == (FeatureDataD3DOptions { resource_binding_tier: resource_binding_tier, ..self }),
    {
        FeatureDataD3DOptions { resource_binding_tier: resource_binding_tier, ..self }
    }

    /// As [`Self::with_resource_binding_tier`], on the value in place.
    pub fn set_resource_binding_tier(&mut self, resource_binding_tier: ResourceBindingTier) -> (r: &mut Self)
        ensures
            (*r) == (FeatureDataD3DOptions { resource_binding_tier: resource_binding_tier, ..(*old(self)) }),
            *final(self) == *final(r),
    {
        let v = (*self).with_resource_binding_tier(resource_binding_tier);
        *self = v;
        self
    }

    /// The resource binding tier.
    pub fn resource_binding_tier(&self) -> (r: ResourceBindingTier)
        ensures
            r == self.resource_binding_tier,
    {
        self.resource_binding_tier
    }

    /// Replaces the ps specified stencil ref supported.
    pub fn with_ps_specified_stencil_ref_supported(self, ps_specified_stencil_ref_supported: bool) -> (r: Self)
        ensures
            r == (FeatureDataD3DOptions { ps_specified_stencil_ref_supported: ps_specified_stencil_ref_supported, ..self }),
    {
        FeatureDataD3DOptions { ps_specified_stencil_ref_supported: ps_specified_stencil_ref_supported, ..self }
    }

    /// As [`Self::with_ps_specified_stencil_ref_supported`], on the value in place.
    pub fn set_ps_specified_stencil_ref_supported(&mut self, ps_specified_stencil_ref_supported: bool) -> (r: &mut Self)
        ensures
            (*r) == (FeatureDataD3DOptions { ps_specified_stencil_ref_supported: ps_specified_stencil_ref_supported, ..(*old(self)) }),
            *final(self) == *final(r),
    {
        let v = (*self).with_ps_specified_stencil_ref_supported(ps_specified_stencil_ref_supported);
        *self = v;
        self
    }

    /// The ps specified stencil ref supported.
    pub fn p_s_specified_stencil_ref_supported(&self) -> (r: bool)
        ensures
            r == self.ps_specified_stencil_ref_supported,
    {
        self.ps_specified_stencil_ref_supported
    }

    /// Replaces the typed uav load additional formats.
    pub fn with_typed_uav_load_additional_formats(self, typed_uav_load_additional_formats: bool) -> (r: Self)
        ensures
            r == (FeatureDataD3DOptions { typed_uav_load_additional_formats: typed_uav_load_additional_formats, ..self }),
    {
        FeatureDataD3DOptions { typed_uav_load_additional_formats: typed_uav_load_additional_formats, ..self }
    }

    /// As [`Self::with_typed_uav_load_additional_formats`], on the value in place.
    pub fn set_typed_uav_load_additional_formats(&mut self, typed_uav_load_additional_formats: bool) -> (r: &mut Self)
        ensures
            (*r) == (FeatureDataD3DOptions { typed_uav_load_additional_formats: typed_uav_load_additional_formats, ..(*old(self)) }),
            *final(self) == *final(r),
    {
        let v = (*self).with_typed_uav_load_additional_formats(typed_uav_load_additional_formats);
        *self = v;
        self
    }

    /// The typed uav load additional formats.
    pub fn typed_u_a_v_load_additional_formats(&self) -> (r: bool)
        ensures
            r == self.typed_uav_load_additional_formats,
    {
        self.typed_uav_load_additional_formats
    }

    /// Replaces the rovs supported.
    pub fn with_rovs_supported(self, rovs_supported: bool) -> (r: Self)
        ensures
            r == (FeatureDataD3DOptions { rovs_supported: rovs_supported, ..self }),
    {
        FeatureDataD3DOptions { rovs_supported: rovs_supported, ..self }
    }

    /// As [`Self::with_rovs_supported`], on the value in place.
    pub fn set_rovs_supported(&mut self, rovs_supported: bool) -> (r: &mut Self)
        ensures
            (*r) == (FeatureDataD3DOptions { rovs_supported: rovs_supported, ..(*old(self)) }),
            *final(self) == *final(r),
    {
        let v = (*self).with_rovs_supported(rovs_supported);
        *self = v;
        self
    }

    /// The rovs supported.
    pub fn r_o_vs_supported(&self) -> (r: bool)
        ensures
            r == self.rovs_supported,
    {
        self.rovs_supported
    }

    /// Replaces the conservative rasterization tier.
    pub fn with_conservative_rasterization_tier(self, conservative_rasterization_tier: ConservativeRasterizationTier) -> (r: Self)
        ensures
            r == (FeatureDataD3DOptions { conservative_rasterization_tier: conservative_rasterization_tier, ..self }),
    {
        FeatureDataD3DOptions { conservative_rasterization_tier: conservative_rasterization_tier, ..self }
    }

    /// As [`Self::with_conservative_rasterization_tier`], on the value in place.
    pub fn set_conservative_rasterization_tier(&mut self, conservative_rasterization_tier: ConservativeRasterizationTier) -> (r: &mut Self)
        ensures
            (*r) == (FeatureDataD3DOptions { conservative_rasterization_tier: conservative_rasterization_tier, ..(*old(self)) }),
            *final(self) == *final(r),
    {
        let v = (*self).with_conservative_rasterization_tier(conservative_rasterization_tier);
        *self = v;
        self
    }

    /// The conservative rasterization tier.
    pub fn conservative_rasterization_tier(&self) -> (r: ConservativeRasterizationTier)
        ensures
            r == self.conservative_rasterization_tier,
    {
        self.conservative_rasterization_tier
    }

    /// Replaces the max gpu virtual address bits per resource.
    pub fn with_max_gpu_virtual_address_bits_per_resource(self, max_gpu_virtual_address_bits_per_resource: u32) -> (r: Self)
        ensures
            r == (FeatureDataD3DOptions { max_gpu_virtual_address_bits_per_resource: max_gpu_virtual_address_bits_per_resource, ..self }),
    {
        FeatureDataD3DOptions { max_gpu_virtual_address_bits_per_resource: max_gpu_virtual_address_bits_per_resource, ..self }
    }

    /// As [`Self::with_max_gpu_virtual_address_bits_per_resource`], on the value in place.
    pub fn set_max_gpu_virtual_address_bits_per_resource(&mut self, max_gpu_virtual_address_bits_per_resource: u32) -> (r: &mut Self)
        ensures
            (*r) == (FeatureDataD3DOptions { max_gpu_virtual_address_bits_per_resource: max_gpu_virtual_address_bits_per_resource, ..(*old(self)) }),
            *final(self) == *final(r),
    {
        let v = (*self).with_max_gpu_virtual_address_bits_per_resource(max_gpu_virtual_address_bits_per_resource);
        *self = v;
        self
    }

    /// The max gpu virtual address bits per resource.
    pub fn max_g_p_u_virtual_address_bits_per_resource(&self) -> (r: u32)
        ensures
            r == self.max_gpu_virtual_address_bits_per_resource,
    {
        self.max_gpu_virtual_address_bits_per_resource
    }

    /// Replaces the standard swizzle 64 kb supported.
    pub fn with_standard_swizzle_64_kb_supported(self, standard_swizzle_64_kb_supported: bool) -> (r: Self)
        ensures
            r == (FeatureDataD3DOptions { standard_swizzle_64_kb_supported: standard_swizzle_64_kb_supported, ..self }),
    {
        FeatureDataD3DOptions { standard_swizzle_64_kb_supported: standard_swizzle_64_kb_supported, ..self }
    }

    /// As [`Self::with_standard_swizzle_64_kb_supported`], on the value in place.
    pub fn set_standard_swizzle_64_kb_supported(&mut self, standard_swizzle_64_kb_supported: bool) -> (r: &mut Self)
        ensures
            (*r) == (FeatureDataD3DOptions { standard_swizzle_64_kb_supported: standard_swizzle_64_kb_supported, ..(*old(self)) }),
            *final(self) == *final(r),
    {
        let v = (*self).with_standard_swizzle_64_kb_supported(standard_swizzle_64_kb_supported);
        *self = v;
        self
    }

    /// The standard swizzle 64 kb supported.
    pub fn standard_swizzle64_k_b_supported(&self) -> (r: bool)
        ensures
            r == self.standard_swizzle_64_kb_supported,
    {
        self.standard_swizzle_64_kb_supported
    }

    /// Replaces the cross node sharing tier.
    pub fn with_cross_node_sharing_tier(self, cross_node_sharing_tier: CrossNodeSharingTier) -> (r: Self)
        ensures
            r == (FeatureDataD3DOptions { cross_node_sharing_tier: cross_node_sharing_tier, ..self }),
    {
        FeatureDataD3DOptions { cross_node_sharing_tier: cross_node_sharing_tier, ..self }
    }

    /// As [`Self::with_cross_node_sharing_tier`], on the value in place.
    pub fn set_cross_node_sharing_tier(&mut self, cross_node_sharing_tier: CrossNodeSharingTier) -> (r: &mut Self)
        ensures
            (*r) == (FeatureDataD3DOptions { cross_node_sharing_tier: cross_node_sharing_tier, ..(*old(self)) }),
            *final(self) == *final(r),
    {
        let v = (*self).with_cross_node_sharing_tier(cross_node_sharing_tier);
        *self = v;
        self
    }

    /// Replaces the cross adapter row major texture supported.
    pub fn with_cross_adapter_row_major_texture_supported(self, cross_adapter_row_major_texture_supported: bool) -> (r: Self)
        ensures
            r == (FeatureDataD3DOptions { cross_adapter_row_major_texture_supported: cross_adapter_row_major_texture_supported, ..self }),
    {
        FeatureDataD3DOptions { cross_adapter_row_major_texture_supported: cross_adapter_row_major_texture_supported, ..self }
    }

    /// As [`Self::with_cross_adapter_row_major_texture_supported`], on the value in place.
    pub fn set_cross_adapter_row_major_texture_supported(&mut self, cross_adapter_row_major_texture_supported: bool) -> (r: &mut Self)
        ensures
            (*r) == (FeatureDataD3DOptions { cross_adapter_row_major_texture_supported: cross_adapter_row_major_texture_supported, ..(*old(self)) }),
            *final(self) == *final(r),
    {
        let v = (*self).with_cross_adapter_row_major_texture_supported(cross_adapter_row_major_texture_supported);
        *self = v;
        self
    }

    /// The cross adapter row major texture supported.
    pub fn cross_adapter_row_major_texture_supported(&self) -> (r: bool)
        ensures
            r == self.cross_adapter_row_major_texture_supported,
    {
        self.cross_adapter_row_major_texture_supported
    }

    /// Replaces the vp and rt array index from any shader feeding rasterizer supported without gs emulation.
    pub fn with_vp_and_rt_array_index_from_any_shader_feeding_rasterizer_supported_without_gs_emulation(self, vp_and_rt_array_index_from_any_shader_feeding_rasterizer_supported_without_gs_emulation: bool) -> (r: Self)
        ensures
            r == (FeatureDataD3DOptions { vp_and_rt_array_index_from_any_shader_feeding_rasterizer_supported_without_gs_emulation: vp_and_rt_array_index_from_any_shader_feeding_rasterizer_supported_without_gs_emulation, ..self }),
    {
        FeatureDataD3DOptions { vp_and_rt_array_index_from_any_shader_feeding_rasterizer_supported_without_gs_emulation: vp_and_rt_array_index_from_any_shader_feeding_rasterizer_supported_without_gs_emulation, ..self }
    }

    /// As [`Self::with_vp_and_rt_array_index_from_any_shader_feeding_rasterizer_supported_without_gs_emulation`], on the value in place.
    pub fn set_vp_and_rt_array_index_from_any_shader_feeding_rasterizer_supported_without_gs_emulation(&mut self, vp_and_rt_array_index_from_any_shader_feeding_rasterizer_supported_without_gs_emulation: bool) -> (r: &mut Self)
        ensures
            (*r) == (FeatureDataD3DOptions { vp_and_rt_array_index_from_any_shader_feeding_rasterizer_supported_without_gs_emulation: vp_and_rt_array_index_from_any_shader_feeding_rasterizer_supported_without_gs_emulation, ..(*old(self)) }),
            *final(self) == *final(r),
    {
        let v = (*self).with_vp_and_rt_array_index_from_any_shader_feeding_rasterizer_supported_without_gs_emulation(vp_and_rt_array_index_from_any_shader_feeding_rasterizer_supported_without_gs_emulation);
        *self = v;
        self
    }

    /// The vp and rt array index from any shader feeding rasterizer supported without gs emulation.
    pub fn vp_and_rt_array_index_from_any_shader_feeding_rasterizer_supported_without_gs_emulation(&self) -> (r: bool)
        ensures
            r == self.vp_and_rt_array_index_from_any_shader_feeding_rasterizer_supported_without_gs_emulation,
    {
        self.vp_and_rt_array_index_from_any_shader_feeding_rasterizer_supported_without_gs_emulation
    }

    /// Replaces the resource heap tier.
    pub fn with_resource_heap_tier(self, resource_heap_tier: ResourceHeapTier) -> (r: Self)
        ensures
            r == (FeatureDataD3DOptions { resource_heap_tier: resource_heap_tier, ..self }),
    {
        FeatureDataD3DOptions { resource_heap_tier: resource_heap_tier, ..self }
    }

    /// As [`Self::with_resource_heap_tier`], on the value in place.
    pub fn set_resource_heap_tier(&mut self, resource_heap_tier: ResourceHeapTier) -> (r: &mut Self)
        ensures
            (*r) == (FeatureDataD3DOptions { resource_heap_tier: resource_heap_tier, ..(*old(self)) }),
            *final(self) == *final(r),
    {
        let v = (*self).with_resource_heap_tier(resource_heap_tier);
        *self = v;
        self
    }

    /// The resource heap tier.
    pub fn resource_heap_tier(&self) -> (r: ResourceHeapTier)
        ensures
            r == self.resource_heap_tier,
    {
        self.resource_heap_tier
    }
}

} // verus!
