//! Shader bytecode, input layouts, stream output, blend, rasterizer and depth-stencil state, and the graphics and compute pipeline descriptions.

use vstd::prelude::*;
use vstd::array::spec_array_fill_for_copy_type;
use vstd::string::StringSliceAdditionalSpecFns;

use crate::descriptors::SIMULTANEOUS_RENDER_TARGET_COUNT;
use crate::enums::{
    Blend, BlendOp, ComparisonFunc, ConservativeRasterizationMode, CullMode, DepthWriteMask, FillMode, Format,
    IndexBufferStripCut, InputClassification, LogicOp, PipelineStateFlags, PrimitiveTopologyType, StencilOp,
};
use crate::root_signature::RootSignature;
use crate::swapchain::SampleDesc;
use crate::utils::ByteCount;

verus! {

/// The position of the first NUL in a name that must be a C string (`std::ffi::NulError`).
#[derive(Clone, Copy, Debug, PartialEq, Eq)]
pub struct NulError {
    pub position: usize,
}

impl NulError {
    /// Where the NUL byte is.
    pub fn nul_position(&self) -> (r: usize)
        ensures
            r == self.position,
    {
        self.position
    }
}

/// Looks for a NUL byte in `name`, which a C string cannot hold.
fn find_nul(name: &str) -> (r: Option<usize>)
    ensures
        match r {
            Some(p) => p < name.spec_bytes().len() && name.spec_bytes()[p as int] == 0 && forall|j: int|
                0 <= j < p ==> name.spec_bytes()[j] != 0,
            None => forall|j: int| 0 <= j < name.spec_bytes().len() ==> name.spec_bytes()[j] != 0,
        },
{
    let bytes = name.as_bytes();
    let mut i: usize = 0;
    while i < bytes.len()
        invariant
            bytes@ == name.spec_bytes(),
            i <= bytes@.len(),
            forall|j: int| 0 <= j < i ==> bytes@[j] != 0,
        decreases bytes@.len() - i,
    {
        if bytes[i] == 0 {
            return Some(i);
        }
        i = i + 1;
    }
    None
}

/// Compiled shader code (`D3D12_SHADER_BYTECODE`).
#[derive(Clone, Copy, Debug, PartialEq, Eq)]
pub struct ShaderBytecode<'a> {
    pub bytecode: &'a [u8],
}

impl<'a> Default for ShaderBytecode<'a> {
    /// No code.
    fn default() -> (r: Self)
        ensures
            r == (ShaderBytecode { bytecode: &[] }),
    {
        ShaderBytecode { bytecode: &[] }
    }
}

impl<'a> ShaderBytecode<'a> {
    /// The shader whose code is `data`.
    pub fn from_bytes(data: &'a [u8]) -> (r: ShaderBytecode<'a>)
        ensures
            r.bytecode == data,
    {
        ShaderBytecode { bytecode: data }
    }
}

/// One element of a vertex input layout (`D3D12_INPUT_ELEMENT_DESC`).
#[derive(Clone, Copy, Debug, PartialEq, Eq)]
pub struct InputElementDesc<'a> {
    pub semantic_name: &'a str,
    pub index: u32,
    pub format: Format,
    pub input_slot: u32,
    pub offset: u32,
    pub input_slot_class: InputClassification,
    pub instance_data_step_rate: u32,
}

impl<'a> Default for InputElementDesc<'a> {
    /// An unnamed per-vertex element of unknown format at slot and offset zero.
    fn default() -> (r: Self)
        ensures
            r == (InputElementDesc {
                semantic_name: "",
                index: 0,
                format: Format::Unknown,
                input_slot: 0,
                offset: 0,
                input_slot_class: InputClassification::PerVertexData,
                instance_data_step_rate: 0,
            }),
    {
        InputElementDesc {
            semantic_name: "",
            index: 0,
            format: Format::Unknown,
            input_slot: 0,
            offset: 0,
            input_slot_class: InputClassification::PerVertexData,
            instance_data_step_rate: 0,
        }
    }
}

impl<'a> InputElementDesc<'a> {
    /// Replaces the index.
    pub fn with_index(self, index: u32) -> (r: Self)
        ensures
            r == (InputElementDesc { index: index, ..self }),
    {
        InputElementDesc { index: index, ..self }
    }

    /// As [`Self::with_index`], on the value in place.
    pub fn set_index(&mut self, index: u32) -> (r: &mut Self)
        ensures
            (*r) == (InputElementDesc { index: index, ..(*old(self)) }),
            *final(self) == *final(r),
    {
        let v = (*self).with_index(index);
        *self = v;
        self
    }

    /// The index.
    pub fn index(&self) -> (r: u32)
        ensures
            r == self.index,
    {
        self.index
    }

    /// Replaces the format.
    pub fn with_format(self, format: Format) -> (r: Self)
        ensures
            r == (InputElementDesc { format: format, ..self }),
    {
        InputElementDesc { format: format, ..self }
    }

    /// As [`Self::with_format`], on the value in place.
    pub fn set_format(&mut self, format: Format) -> (r: &mut Self)
        ensures
            (*r) == (InputElementDesc { format: format, ..(*old(self)) }),
            *final(self) == *final(r),
    {
        let v = (*self).with_format(format);
        *self = v;
        self
    }

    /// The format.
    pub fn format(&self) -> (r: Format)
        ensures
            r == self.format,
    {
        self.format
    }

    /// Replaces the input slot.
    pub fn with_input_slot(self, slot: u32) -> (r: Self)
        ensures
            r == (InputElementDesc { input_slot: slot, ..self }),
    {
        InputElementDesc { input_slot: slot, ..self }
    }

    /// As [`Self::with_input_slot`], on the value in place.
    pub fn set_input_slot(&mut self, slot: u32) -> (r: &mut Self)
        ensures
            (*r) == (InputElementDesc { input_slot: slot, ..(*old(self)) }),
            *final(self) == *final(r),
    {
        let v = (*self).with_input_slot(slot);
        *self = v;
        self
    }

    /// The input slot.
    pub fn input_slot(&self) -> (r: u32)
        ensures
            r == self.input_slot,
    {
        self.input_slot
    }

    /// Replaces the offset.
    pub fn with_offset(self, offset: ByteCount) -> (r: Self)
        ensures
            r == (InputElementDesc { offset: offset.0 as u32, ..self }),
    {
        InputElementDesc { offset: offset.0 as u32, ..self }
    }

    /// As [`Self::with_offset`], on the value in place.
    pub fn set_offset(&mut self, offset: ByteCount) -> (r: &mut Self)
        ensures
            (*r) == (InputElementDesc { offset: offset.0 as u32, ..(*old(self)) }),
            *final(self) == *final(r),
    {
        let v = (*self).with_offset(offset);
        *self = v;
        self
    }

    /// The offset.
    pub fn offset(&self) -> (r: ByteCount)
        ensures
            r == ByteCount(self.offset as u64),
    {
        ByteCount(self.offset as u64)
    }

    /// Replaces the input slot class.
    pub fn with_input_slot_class(self, class: InputClassification) -> (r: Self)
        ensures
            r == (InputElementDesc { input_slot_class: class, ..self }),
    {
        InputElementDesc { input_slot_class: class, ..self }
    }

    /// As [`Self::with_input_slot_class`], on the value in place.
    pub fn set_input_slot_class(&mut self, class: InputClassification) -> (r: &mut Self)
        ensures
            (*r) == (InputElementDesc { input_slot_class: class, ..(*old(self)) }),
            *final(self) == *final(r),
    {
        let v = (*self).with_input_slot_class(class);
        *self = v;
        self
    }

    /// The input slot class.
    pub fn input_slot_class(&self) -> (r: InputClassification)
        ensures
            r == self.input_slot_class,
    {
        self.input_slot_class
    }

    /// Replaces the instance data step rate.
    pub fn with_instance_data_step_rate(self, step_rate: u32) -> (r: Self)
        ensures
            r == (InputElementDesc { instance_data_step_rate: step_rate, ..self }),
    {
        InputElementDesc { instance_data_step_rate: step_rate, ..self }
    }

    /// As [`Self::with_instance_data_step_rate`], on the value in place.
    pub fn set_instance_data_step_rate(&mut self, step_rate: u32) -> (r: &mut Self)
        ensures
            (*r) == (InputElementDesc { instance_data_step_rate: step_rate, ..(*old(self)) }),
            *final(self) == *final(r),
    {
        let v = (*self).with_instance_data_step_rate(step_rate);
        *self = v;
        self
    }

    /// The instance data step rate.
    pub fn instance_data_step_rate(&self) -> (r: u32)
        ensures
            r == self.instance_data_step_rate,
    {
        self.instance_data_step_rate
    }

    /// Replaces the semantic name; fails with the position of the first NUL if `name` holds one.
    pub fn with_name(self, name: &'a str) -> (r: Result<InputElementDesc<'a>, NulError>)
        ensures
            match r {
                Ok(d) => d == (InputElementDesc { semantic_name: name, ..self }) && forall|j: int|
                    0 <= j < name.spec_bytes().len() ==> name.spec_bytes()[j] != 0,
                Err(e) => e.position < name.spec_bytes().len() && name.spec_bytes()[e.position as int] == 0
                    && forall|j: int| 0 <= j < e.position ==> name.spec_bytes()[j] != 0,
            },
    {
        match find_nul(name) {
            Some(position) => Err(NulError { position }),
            None => Ok(InputElementDesc { semantic_name: name, ..self }),
        }
    }

    /// As [`Self::with_name`], on the value in place: on failure the value is left as it was.
    pub fn set_name(&mut self, name: &'a str) -> (r: Result<&mut InputElementDesc<'a>, NulError>)
        ensures
            match r {
                Ok(d) => *d == (InputElementDesc { semantic_name: name, ..*old(self) }) && *final(self) == *final(d) && forall|j: int|
                    0 <= j < name.spec_bytes().len() ==> name.spec_bytes()[j] != 0,
                Err(e) => *final(self) == *old(self) && e.position < name.spec_bytes().len()
                    && name.spec_bytes()[e.position as int] == 0 && forall|j: int|
                    0 <= j < e.position ==> name.spec_bytes()[j] != 0,
            },
    {
        match find_nul(name) {
            Some(position) => Err(NulError { position }),
            None => {
                self.semantic_name = name;
                Ok(self)
            },
        }
    }

    /// The semantic name.
    pub fn name(&self) -> (r: &'a str)
        ensures
            r == self.semantic_name,
    {
        self.semantic_name
    }
}

/// A vertex input layout (`D3D12_INPUT_LAYOUT_DESC`).
#[derive(Clone, Copy, Debug, PartialEq, Eq)]
pub struct InputLayoutDesc<'a> {
    pub elements: &'a [InputElementDesc<'a>],
}

impl<'a> Default for InputLayoutDesc<'a> {
    /// A layout with no elements.
    fn default() -> (r: Self)
        ensures
            r == (InputLayoutDesc {
                elements: &[],
            }),
    {
        InputLayoutDesc {
            elements: &[],
        }
    }
}

impl<'a> InputLayoutDesc<'a> {
    /// The layout made of `layout`.
    pub fn from_input_elements(self, layout: &'a [InputElementDesc<'a>]) -> (r: Self)
        ensures
            r.elements == layout,
    {
        InputLayoutDesc { elements: layout }
    }
}

/// One stream output element (`D3D12_SO_DECLARATION_ENTRY`).
#[derive(Clone, Copy, Debug, PartialEq, Eq)]
pub struct SoDeclarationEntry<'a> {
    pub stream: u32,
    pub semantic_name: &'a str,
    pub semantic_index: u32,
    pub start_component: u8,
    pub component_count: u8,
    pub output_slot: u8,
}

impl<'a> Default for SoDeclarationEntry<'a> {
    /// An unnamed, empty entry of stream zero.
    fn default() -> (r: Self)
        ensures
            r == (SoDeclarationEntry {
                stream: 0,
                semantic_name: "",
                semantic_index: 0,
                start_component: 0,
                component_count: 0,
                output_slot: 0,
            }),
    {
        SoDeclarationEntry {
            stream: 0,
            semantic_name: "",
            semantic_index: 0,
            start_component: 0,
            component_count: 0,
            output_slot: 0,
        }
    }
}

impl<'a> SoDeclarationEntry<'a> {
    /// Replaces the stream.
    pub fn with_stream(self, stream: u32) -> (r: Self)
        ensures
            r == (SoDeclarationEntry { stream: stream, ..self }),
    {
        SoDeclarationEntry { stream: stream, ..self }
    }

    /// As [`Self::with_stream`], on the value in place.
    pub fn set_stream(&mut self, stream: u32) -> (r: &mut Self)
        ensures
            (*r) == (SoDeclarationEntry { stream: stream, ..(*old(self)) }),
            *final(self) == *final(r),
    {
        let v = (*self).with_stream(stream);
        *self = v;
        self
    }

    /// The stream.
    pub fn stream(&self) -> (r: u32)
        ensures
            r == self.stream,
    {
        self.stream
    }

    /// Replaces the semantic index.
    pub fn with_semantic_index(self, semantic_index: u32) -> (r: Self)
        ensures
            r == (SoDeclarationEntry { semantic_index: semantic_index, ..self }),
    {
        SoDeclarationEntry { semantic_index: semantic_index, ..self }
    }

    /// As [`Self::with_semantic_index`], on the value in place.
    pub fn set_semantic_index(&mut self, semantic_index: u32) -> (r: &mut Self)
        ensures
            (*r) == (SoDeclarationEntry { semantic_index: semantic_index, ..(*old(self)) }),
            *final(self) == *final(r),
    {
        let v = (*self).with_semantic_index(semantic_index);
        *self = v;
        self
    }

    /// The semantic index.
    pub fn semantic_index(&self) -> (r: u32)
        ensures
            r == self.semantic_index,
    {
        self.semantic_index
    }

    /// Replaces the start component.
    pub fn with_start_component(self, start_component: u32) -> (r: Self)
        ensures
            r == (SoDeclarationEntry { start_component: start_component as u8, ..self }),
    {
        SoDeclarationEntry { start_component: start_component as u8, ..self }
    }

    /// As [`Self::with_start_component`], on the value in place.
    pub fn set_start_component(&mut self, start_component: u32) -> (r: &mut Self)
        ensures
            (*r) == (SoDeclarationEntry { start_component: start_component as u8, ..(*old(self)) }),
            *final(self) == *final(r),
    {
        let v = (*self).with_start_component(start_component);
        *self = v;
        self
    }

    /// The start component.
    pub fn start_component(&self) -> (r: u8)
        ensures
            r == self.start_component,
    {
        self.start_component
    }

    /// Replaces the component count.
    pub fn with_component_count(self, component_count: u32) -> (r: Self)
        ensures
            r == (SoDeclarationEntry { component_count: component_count as u8, ..self }),
    {
        SoDeclarationEntry { component_count: component_count as u8, ..self }
    }

    /// As [`Self::with_component_count`], on the value in place.
    pub fn set_component_count(&mut self, component_count: u32) -> (r: &mut Self)
        ensures
            (*r) == (SoDeclarationEntry { component_count: component_count as u8, ..(*old(self)) }),
            *final(self) == *final(r),
    {
        let v = (*self).with_component_count(component_count);
        *self = v;
        self
    }

    /// The component count.
    pub fn component_count(&self) -> (r: u8)
        ensures
            r == self.component_count,
    {
        self.component_count
    }

    /// Replaces the output slot.
    pub fn with_output_slot(self, output_slot: u32) -> (r: Self)
        ensures
            r == (SoDeclarationEntry { output_slot: output_slot as u8, ..self }),
    {
        SoDeclarationEntry { output_slot: output_slot as u8, ..self }
    }

    /// As [`Self::with_output_slot`], on the value in place.
    pub fn set_output_slot(&mut self, output_slot: u32) -> (r: &mut Self)
        ensures
            (*r) == (SoDeclarationEntry { output_slot: output_slot as u8, ..(*old(self)) }),
            *final(self) == *final(r),
    {
        let v = (*self).with_output_slot(output_slot);
        *self = v;
        self
    }

    /// The output slot.
    pub fn output_slot(&self) -> (r: u8)
        ensures
            r == self.output_slot,
    {
        self.output_slot
    }

    /// Replaces the semantic name; fails with the position of the first NUL if `name` holds one.
    pub fn with_semantic_name(self, name: &'a str) -> (r: Result<SoDeclarationEntry<'a>, NulError>)
        ensures
            match r {
                Ok(d) => d == (SoDeclarationEntry { semantic_name: name, ..self }) && forall|j: int|
                    0 <= j < name.spec_bytes().len() ==> name.spec_bytes()[j] != 0,
                Err(e) => e.position < name.spec_bytes().len() && name.spec_bytes()[e.position as int] == 0
                    && forall|j: int| 0 <= j < e.position ==> name.spec_bytes()[j] != 0,
            },
    {
        match find_nul(name) {
            Some(position) => Err(NulError { position }),
            None => Ok(SoDeclarationEntry { semantic_name: name, ..self }),
        }
    }

    /// As [`Self::with_semantic_name`], on the value in place: on failure the value is left as it was.
    pub fn set_semantic_name(&mut self, name: &'a str) -> (r: Result<&mut SoDeclarationEntry<'a>, NulError>)
        ensures
            match r {
                Ok(d) => *d == (SoDeclarationEntry { semantic_name: name, ..*old(self) }) && *final(self) == *final(d) && forall|j: int|
                    0 <= j < name.spec_bytes().len() ==> name.spec_bytes()[j] != 0,
                Err(e) => *final(self) == *old(self) && e.position < name.spec_bytes().len()
                    && name.spec_bytes()[e.position as int] == 0 && forall|j: int|
                    0 <= j < e.position ==> name.spec_bytes()[j] != 0,
            },
    {
        match find_nul(name) {
            Some(position) => Err(NulError { position }),
            None => {
                self.semantic_name = name;
                Ok(self)
            },
        }
    }

    /// The semantic name.
    pub fn semantic_name(&self) -> (r: &'a str)
        ensures
            r == self.semantic_name,
    {
        self.semantic_name
    }
}

/// Stream output of a pipeline (`D3D12_STREAM_OUTPUT_DESC`).
#[derive(Clone, Copy, Debug, PartialEq, Eq)]
pub struct StreamOutputDesc<'a> {
    pub so_declarations: &'a [SoDeclarationEntry<'a>],
    pub buffer_strides: &'a [u32],
    pub rasterized_stream: u32,
}

impl<'a> Default for StreamOutputDesc<'a> {
    /// No stream output, rasterizing stream zero.
    fn default() -> (r: Self)
        ensures
            r == (StreamOutputDesc {
                so_declarations: &[],
                buffer_strides: &[],
                rasterized_stream: 0,
            }),
    {
        StreamOutputDesc {
            so_declarations: &[],
            buffer_strides: &[],
            rasterized_stream: 0,
        }
    }
}

impl<'a> StreamOutputDesc<'a> {
    /// Replaces the so declarations.
    pub fn with_so_declarations(self, so_declaration: &'a [SoDeclarationEntry<'a>]) -> (r: Self)
        ensures
            r == (StreamOutputDesc { so_declarations: so_declaration, ..self }),
    {
        StreamOutputDesc { so_declarations: so_declaration, ..self }
    }

    /// As [`Self::with_so_declarations`], on the value in place.
    pub fn set_so_declarations(&mut self, so_declaration: &'a [SoDeclarationEntry<'a>]) -> (r: &mut Self)
        ensures
            (*r) == (StreamOutputDesc { so_declarations: so_declaration, ..(*old(self)) }),
            *final(self) == *final(r),
    {
        let v = (*self).with_so_declarations(so_declaration);
        *self = v;
        self
    }

    /// The so declarations.
    pub fn so_declaration(&self) -> (r: &'a [SoDeclarationEntry<'a>])
        ensures
            r == self.so_declarations,
    {
        self.so_declarations
    }

    /// Replaces the buffer strides.
    pub fn with_buffer_strides(self, buffer_strides: &'a [u32]) -> (r: Self)
        ensures
            r == (StreamOutputDesc { buffer_strides: buffer_strides, ..self }),
    {
        StreamOutputDesc { buffer_strides: buffer_strides, ..self }
    }

    /// As [`Self::with_buffer_strides`], on the value in place.
    pub fn set_buffer_strides(&mut self, buffer_strides: &'a [u32]) -> (r: &mut Self)
        ensures
            (*r) == (StreamOutputDesc { buffer_strides: buffer_strides, ..(*old(self)) }),
            *final(self) == *final(r),
    {
        let v = (*self).with_buffer_strides(buffer_strides);
        *self = v;
        self
    }

    /// The buffer strides.
    pub fn buffer_strides(&self) -> (r: &'a [u32])
        ensures
            r == self.buffer_strides,
    {
        self.buffer_strides
    }

    /// Replaces the rasterized stream.
    pub fn with_rasterized_stream(self, rasterized_stream: u32) -> (r: Self)
        ensures
            r == (StreamOutputDesc { rasterized_stream: rasterized_stream, ..self }),
    {
        StreamOutputDesc { rasterized_stream: rasterized_stream, ..self }
    }

    /// As [`Self::with_rasterized_stream`], on the value in place.
    pub fn set_rasterized_stream(&mut self, rasterized_stream: u32) -> (r: &mut Self)
        ensures
            (*r) == (StreamOutputDesc { rasterized_stream: rasterized_stream, ..(*old(self)) }),
            *final(self) == *final(r),
    {
        let v = (*self).with_rasterized_stream(rasterized_stream);
        *self = v;
        self
    }

    /// The rasterized stream.
    pub fn rasterized_stream(&self) -> (r: u32)
        ensures
            r == self.rasterized_stream,
    {
        self.rasterized_stream
    }
}

/// Blending of one render target (`D3D12_RENDER_TARGET_BLEND_DESC`).
#[derive(Clone, Copy, Debug, PartialEq, Eq)]
pub struct RenderTargetBlendDesc {
    pub blend_enable: bool,
    pub logic_op_enable: bool,
    pub src_blend: Blend,
    pub dest_blend: Blend,
    pub blend_op: BlendOp,
    pub src_blend_alpha: Blend,
    pub dest_blend_alpha: Blend,
    pub blend_op_alpha: BlendOp,
    pub logic_op: LogicOp,
    pub render_target_write_mask: u8,
}

impl Default for RenderTargetBlendDesc {
    /// Blending and logic operations off; colour passes through to all four channels.
    fn default() -> (r: Self)
        ensures
            r == (RenderTargetBlendDesc {
                blend_enable: false,
                logic_op_enable: false,
                src_blend: Blend::One,
                dest_blend: Blend::Zero,
                blend_op: BlendOp::Add,
                src_blend_alpha: Blend::One,
                dest_blend_alpha: Blend::Zero,
                blend_op_alpha: BlendOp::Add,
                logic_op: LogicOp::NoOp,
                render_target_write_mask: 15,
            }),
    {
        RenderTargetBlendDesc {
            blend_enable: false,
            logic_op_enable: false,
            src_blend: Blend::One,
            dest_blend: Blend::Zero,
            blend_op: BlendOp::Add,
            src_blend_alpha: Blend::One,
            dest_blend_alpha: Blend::Zero,
            blend_op_alpha: BlendOp::Add,
            logic_op: LogicOp::NoOp,
            render_target_write_mask: 15,
        }
    }
}

impl RenderTargetBlendDesc {
    /// Replaces the blend enable.
    pub fn with_blend_enable(self, blend_enable: bool) -> (r: Self)
        ensures
            r == (RenderTargetBlendDesc { blend_enable: blend_enable, ..self }),
    {
        RenderTargetBlendDesc { blend_enable: blend_enable, ..self }
    }

    /// As [`Self::with_blend_enable`], on the value in place.
    pub fn set_blend_enable(&mut self, blend_enable: bool) -> (r: &mut Self)
        ensures
            (*r) == (RenderTargetBlendDesc { blend_enable: blend_enable, ..(*old(self)) }),
            *final(self) == *final(r),
    {
        let v = (*self).with_blend_enable(blend_enable);
        *self = v;
        self
    }

    /// The blend enable.
    pub fn blend_enable(&self) -> (r: bool)
        ensures
            r == self.blend_enable,
    {
        self.blend_enable
    }

    /// Replaces the logic op enable.
    pub fn with_logic_op_enable(self, logic_op_enable: bool) -> (r: Self)
        ensures
            r == (RenderTargetBlendDesc { logic_op_enable: logic_op_enable, ..self }),
    {
        RenderTargetBlendDesc { logic_op_enable: logic_op_enable, ..self }
    }

    /// As [`Self::with_logic_op_enable`], on the value in place.
    pub fn set_logic_op_enable(&mut self, logic_op_enable: bool) -> (r: &mut Self)
        ensures
            (*r) == (RenderTargetBlendDesc { logic_op_enable: logic_op_enable, ..(*old(self)) }),
            *final(self) == *final(r),
    {
        let v = (*self).with_logic_op_enable(logic_op_enable);
        *self = v;
        self
    }

    /// The logic op enable.
    pub fn logic_op_enable(&self) -> (r: bool)
        ensures
            r == self.logic_op_enable,
    {
        self.logic_op_enable
    }

    /// Replaces the src blend.
    pub fn with_src_blend(self, src_blend: Blend) -> (r: Self)
        ensures
            r == (RenderTargetBlendDesc { src_blend: src_blend, ..self }),
    {
        RenderTargetBlendDesc { src_blend: src_blend, ..self }
    }

    /// As [`Self::with_src_blend`], on the value in place.
    pub fn set_src_blend(&mut self, src_blend: Blend) -> (r: &mut Self)
        ensures
            (*r) == (RenderTargetBlendDesc { src_blend: src_blend, ..(*old(self)) }),
            *final(self) == *final(r),
    {
        let v = (*self).with_src_blend(src_blend);
        *self = v;
        self
    }

    /// The src blend.
    pub fn src_blend(&self) -> (r: Blend)
        ensures
            r == self.src_blend,
    {
        self.src_blend
    }

    /// Replaces the dest blend.
    pub fn with_dest_blend(self, dest_blend: Blend) -> (r: Self)
        ensures
            r == (RenderTargetBlendDesc { dest_blend: dest_blend, ..self }),
    {
        RenderTargetBlendDesc { dest_blend: dest_blend, ..self }
    }

    /// As [`Self::with_dest_blend`], on the value in place.
    pub fn set_dest_blend(&mut self, dest_blend: Blend) -> (r: &mut Self)
        ensures
            (*r) == (RenderTargetBlendDesc { dest_blend: dest_blend, ..(*old(self)) }),
            *final(self) == *final(r),
    {
        let v = (*self).with_dest_blend(dest_blend);
        *self = v;
        self
    }

    /// The dest blend.
    pub fn dest_blend(&self) -> (r: Blend)
        ensures
            r == self.dest_blend,
    {
        self.dest_blend
    }

    /// Replaces the blend op.
    pub fn with_blend_op(self, blend_op: BlendOp) -> (r: Self)
        ensures
            r == (RenderTargetBlendDesc { blend_op: blend_op, ..self }),
    {
        RenderTargetBlendDesc { blend_op: blend_op, ..self }
    }

    /// As [`Self::with_blend_op`], on the value in place.
    pub fn set_blend_op(&mut self, blend_op: BlendOp) -> (r: &mut Self)
        ensures
            (*r) == (RenderTargetBlendDesc { blend_op: blend_op, ..(*old(self)) }),
            *final(self) == *final(r),
    {
        let v = (*self).with_blend_op(blend_op);
        *self = v;
        self
    }

    /// The blend op.
    pub fn blend_op(&self) -> (r: BlendOp)
        ensures
            r == self.blend_op,
    {
        self.blend_op
    }

    /// Replaces the src blend alpha.
    pub fn with_src_blend_alpha(self, src_blend_alpha: Blend) -> (r: Self)
        ensures
            r == (RenderTargetBlendDesc { src_blend_alpha: src_blend_alpha, ..self }),
    {
        RenderTargetBlendDesc { src_blend_alpha: src_blend_alpha, ..self }
    }

    /// As [`Self::with_src_blend_alpha`], on the value in place.
    pub fn set_src_blend_alpha(&mut self, src_blend_alpha: Blend) -> (r: &mut Self)
        ensures
            (*r) == (RenderTargetBlendDesc { src_blend_alpha: src_blend_alpha, ..(*old(self)) }),
            *final(self) == *final(r),
    {
        let v = (*self).with_src_blend_alpha(src_blend_alpha);
        *self = v;
        self
    }

    /// The src blend alpha.
    pub fn src_blend_alpha(&self) -> (r: Blend)
        ensures
            r == self.src_blend_alpha,
    {
        self.src_blend_alpha
    }

    /// Replaces the dest blend alpha.
    pub fn with_dest_blend_alpha(self, dest_blend_alpha: Blend) -> (r: Self)
        ensures
            r == (RenderTargetBlendDesc { dest_blend_alpha: dest_blend_alpha, ..self }),
    {
        RenderTargetBlendDesc { dest_blend_alpha: dest_blend_alpha, ..self }
    }

    /// As [`Self::with_dest_blend_alpha`], on the value in place.
    pub fn set_dest_blend_alpha(&mut self, dest_blend_alpha: Blend) -> (r: &mut Self)
        ensures
            (*r) == (RenderTargetBlendDesc { dest_blend_alpha: dest_blend_alpha, ..(*old(self)) }),
            *final(self) == *final(r),
    {
        let v = (*self).with_dest_blend_alpha(dest_blend_alpha);
        *self = v;
        self
    }

    /// The dest blend alpha.
    pub fn dest_blend_alpha(&self) -> (r: Blend)
        ensures
            r == self.dest_blend_alpha,
    {
        self.dest_blend_alpha
    }

    /// Replaces the blend op alpha.
    pub fn with_blend_op_alpha(self, blend_op_alpha: BlendOp) -> (r: Self)
        ensures
            r == (RenderTargetBlendDesc { blend_op_alpha: blend_op_alpha, ..self }),
    {
        RenderTargetBlendDesc { blend_op_alpha: blend_op_alpha, ..self }
    }

    /// As [`Self::with_blend_op_alpha`], on the value in place.
    pub fn set_blend_op_alpha(&mut self, blend_op_alpha: BlendOp) -> (r: &mut Self)
        ensures
            (*r) == (RenderTargetBlendDesc { blend_op_alpha: blend_op_alpha, ..(*old(self)) }),
            *final(self) == *final(r),
    {
        let v = (*self).with_blend_op_alpha(blend_op_alpha);
        *self = v;
        self
    }

    /// The blend op alpha.
    pub fn blend_op_alpha(&self) -> (r: BlendOp)
        ensures
            r == self.blend_op_alpha,
    {
        self.blend_op_alpha
    }

    /// Replaces the logic op.
    pub fn with_logic_op(self, logic_op: LogicOp) -> (r: Self)
        ensures
            r == (RenderTargetBlendDesc { logic_op: logic_op, ..self }),
    {
        RenderTargetBlendDesc { logic_op: logic_op, ..self }
    }

    /// As [`Self::with_logic_op`], on the value in place.
    pub fn set_logic_op(&mut self, logic_op: LogicOp) -> (r: &mut Self)
        ensures
            (*r) == (RenderTargetBlendDesc { logic_op: logic_op, ..(*old(self)) }),
            *final(self) == *final(r),
    {
        let v = (*self).with_logic_op(logic_op);
        *self = v;
        self
    }

    /// The logic op.
    pub fn logic_op(&self) -> (r: LogicOp)
        ensures
            r == self.logic_op,
    {
        self.logic_op
    }

    /// Replaces the render target write mask.
    pub fn with_render_target_write_mask(self, render_target_write_mask: u8) -> (r: Self)
        ensures
            r == (RenderTargetBlendDesc { render_target_write_mask: render_target_write_mask, ..self }),
    {
        RenderTargetBlendDesc { render_target_write_mask: render_target_write_mask, ..self }
    }

    /// As [`Self::with_render_target_write_mask`], on the value in place.
    pub fn set_render_target_write_mask(&mut self, render_target_write_mask: u8) -> (r: &mut Self)
        ensures
            (*r) == (RenderTargetBlendDesc { render_target_write_mask: render_target_write_mask, ..(*old(self)) }),
            *final(self) == *final(r),
    {
        let v = (*self).with_render_target_write_mask(render_target_write_mask);
        *self = v;
        self
    }

    /// The render target write mask.
    pub fn render_target_write_mask(&self) -> (r: u8)
        ensures
            r == self.render_target_write_mask,
    {
        self.render_target_write_mask
    }
}

/// The default blending of one render target, as a value.
pub open spec fn default_render_target_blend() -> RenderTargetBlendDesc {
    RenderTargetBlendDesc {
        blend_enable: false,
        logic_op_enable: false,
        src_blend: Blend::One,
        dest_blend: Blend::Zero,
        blend_op: BlendOp::Add,
        src_blend_alpha: Blend::One,
        dest_blend_alpha: Blend::Zero,
        blend_op_alpha: BlendOp::Add,
        logic_op: LogicOp::NoOp,
        render_target_write_mask: 15,
    }
}

/// Blending of a pipeline (`D3D12_BLEND_DESC`).
#[derive(Clone, Copy, Debug, PartialEq, Eq)]
pub struct BlendDesc {
    pub alpha_to_coverage_enable: bool,
    pub independent_blend_enable: bool,
    pub render_target: [RenderTargetBlendDesc; 8],
}

impl Default for BlendDesc {
    /// No alpha to coverage, shared blending, and the default blending on all eight targets.
    fn default() -> (r: Self)
        ensures
            r == (BlendDesc {
                alpha_to_coverage_enable: false,
                independent_blend_enable: false,
                render_target: spec_array_fill_for_copy_type::<RenderTargetBlendDesc, 8>(default_render_target_blend()),
            }),
    {
        BlendDesc {
            alpha_to_coverage_enable: false,
            independent_blend_enable: false,
            render_target: [RenderTargetBlendDesc::default(); 8],
        }
    }
}

impl BlendDesc {
    /// Replaces the alpha to coverage enable.
    pub fn with_alpha_to_coverage_enable(self, alpha_to_coverage_enable: bool) -> (r: Self)
        ensures
            r == (BlendDesc { alpha_to_coverage_enable: alpha_to_coverage_enable, ..self }),
    {
        BlendDesc { alpha_to_coverage_enable: alpha_to_coverage_enable, ..self }
    }

    /// As [`Self::with_alpha_to_coverage_enable`], on the value in place.
    pub fn set_alpha_to_coverage_enable(&mut self, alpha_to_coverage_enable: bool) -> (r: &mut Self)
        ensures
            (*r) == (BlendDesc { alpha_to_coverage_enable: alpha_to_coverage_enable, ..(*old(self)) }),
            *final(self) == *final(r),
    {
        let v = (*self).with_alpha_to_coverage_enable(alpha_to_coverage_enable);
        *self = v;
        self
    }

    /// The alpha to coverage enable.
    pub fn alpha_to_coverage_enable(&self) -> (r: bool)
        ensures
            r == self.alpha_to_coverage_enable,
    {
        self.alpha_to_coverage_enable
    }

    /// Replaces the independent blend enable.
    pub fn with_independent_blend_enable(self, independent_blend_enable: bool) -> (r: Self)
        ensures
            r == (BlendDesc { independent_blend_enable: independent_blend_enable, ..self }),
    {
        BlendDesc { independent_blend_enable: independent_blend_enable, ..self }
    }

    /// As [`Self::with_independent_blend_enable`], on the value in place.
    pub fn set_independent_blend_enable(&mut self, independent_blend_enable: bool) -> (r: &mut Self)
        ensures
            (*r) == (BlendDesc { independent_blend_enable: independent_blend_enable, ..(*old(self)) }),
            *final(self) == *final(r),
    {
        let v = (*self).with_independent_blend_enable(independent_blend_enable);
        *self = v;
        self
    }

    /// The independent blend enable.
    pub fn independent_blend_enable(&self) -> (r: bool)
        ensures
            r == self.independent_blend_enable,
    {
        self.independent_blend_enable
    }

    /// Replaces the blending of the first `rt_blend_descs.len()` render targets.
    pub fn with_render_targets(self, rt_blend_descs: &[RenderTargetBlendDesc]) -> (r: Self)
        requires
            rt_blend_descs@.len() <= SIMULTANEOUS_RENDER_TARGET_COUNT,
        ensures
            r.alpha_to_coverage_enable == self.alpha_to_coverage_enable,
            r.independent_blend_enable == self.independent_blend_enable,
            forall|i: int| 0 <= i < rt_blend_descs@.len() ==> r.render_target@[i] == rt_blend_descs@[i],
            forall|i: int| rt_blend_descs@.len() <= i < 8 ==> r.render_target@[i] == self.render_target@[i],
    {
        let mut r = self;
        let mut i: usize = 0;
        while i < rt_blend_descs.len()
            invariant
                rt_blend_descs@.len() <= 8,
                i <= rt_blend_descs@.len(),
                r.alpha_to_coverage_enable == self.alpha_to_coverage_enable,
                r.independent_blend_enable == self.independent_blend_enable,
                forall|j: int| 0 <= j < i ==> r.render_target@[j] == rt_blend_descs@[j],
                forall|j: int| i <= j < 8 ==> r.render_target@[j] == self.render_target@[j],
            decreases rt_blend_descs@.len() - i,
        {
            r.render_target[i] = rt_blend_descs[i];
            i = i + 1;
        }
        r
    }

    /// As [`Self::with_render_targets`], on the value in place.
    pub fn set_render_targets(&mut self, rt_blend_descs: &[RenderTargetBlendDesc]) -> (r: &mut Self)
        requires
            rt_blend_descs@.len() <= SIMULTANEOUS_RENDER_TARGET_COUNT,
        ensures
            (*r).alpha_to_coverage_enable == (*old(self)).alpha_to_coverage_enable,
            (*r).independent_blend_enable == (*old(self)).independent_blend_enable,
            forall|i: int| 0 <= i < rt_blend_descs@.len() ==> (*r).render_target@[i] == rt_blend_descs@[i],
            forall|i: int| rt_blend_descs@.len() <= i < 8 ==> (*r).render_target@[i] == (*old(self)).render_target@[i],
            *final(self) == *final(r),
    {
        let v = (*self).with_render_targets(rt_blend_descs);
        *self = v;
        self
    }

    /// The blending of all eight render targets.
    pub fn render_targets(&self) -> (r: [RenderTargetBlendDesc; 8])
        ensures
            r == self.render_target,
    {
        self.render_target
    }
}

/// Rasterizer state (`D3D12_RASTERIZER_DESC`); the two floating-point biases are kept as their IEEE-754 bit patterns.
#[derive(Clone, Copy, Debug, PartialEq, Eq)]
pub struct RasterizerDesc {
    pub fill_mode: FillMode,
    pub cull_mode: CullMode,
    pub front_counter_clockwise: bool,
    pub depth_bias: i32,
    pub depth_bias_clamp_bits: u32,
    pub slope_scaled_depth_bias_bits: u32,
    pub depth_clip_enable: bool,
    pub multisample_enable: bool,
    pub antialiased_line_enable: bool,
    pub forced_sample_count: u32,
    pub conservative_raster: ConservativeRasterizationMode,
}

impl Default for RasterizerDesc {
    /// Solid, unculled, clockwise-front rasterization with no bias, no depth clip, no multisampling and conservative rasterization off.
    fn default() -> (r: Self)
        ensures
            r == (RasterizerDesc {
                fill_mode: FillMode::Solid,
                cull_mode: CullMode::NoCulling,
                front_counter_clockwise: false,
                depth_bias: 0,
                depth_bias_clamp_bits: 0,
                slope_scaled_depth_bias_bits: 0,
                depth_clip_enable: false,
                multisample_enable: false,
                antialiased_line_enable: false,
                forced_sample_count: 0,
                conservative_raster: ConservativeRasterizationMode::Off,
            }),
    {
        RasterizerDesc {
            fill_mode: FillMode::Solid,
            cull_mode: CullMode::NoCulling,
            front_counter_clockwise: false,
            depth_bias: 0,
            depth_bias_clamp_bits: 0,
            slope_scaled_depth_bias_bits: 0,
            depth_clip_enable: false,
            multisample_enable: false,
            antialiased_line_enable: false,
            forced_sample_count: 0,
            conservative_raster: ConservativeRasterizationMode::Off,
        }
    }
}

impl RasterizerDesc {
    /// Replaces the fill mode.
    pub fn with_fill_mode(self, fill_mode: FillMode) -> (r: Self)
        ensures
            r == (RasterizerDesc { fill_mode: fill_mode, ..self }),
    {
        RasterizerDesc { fill_mode: fill_mode, ..self }
    }

    /// As [`Self::with_fill_mode`], on the value in place.
    pub fn set_fill_mode(&mut self, fill_mode: FillMode) -> (r: &mut Self)
        ensures
            (*r) == (RasterizerDesc { fill_mode: fill_mode, ..(*old(self)) }),
            *final(self) == *final(r),
    {
        let v = (*self).with_fill_mode(fill_mode);
        *self = v;
        self
    }

    /// The fill mode.
    pub fn fill_mode(&self) -> (r: FillMode)
        ensures
            r == self.fill_mode,
    {
        self.fill_mode
    }

    /// Replaces the cull mode.
    pub fn with_cull_mode(self, cull_mode: CullMode) -> (r: Self)
        ensures
            r == (RasterizerDesc { cull_mode: cull_mode, ..self }),
    {
        RasterizerDesc { cull_mode: cull_mode, ..self }
    }

    /// As [`Self::with_cull_mode`], on the value in place.
    pub fn set_cull_mode(&mut self, cull_mode: CullMode) -> (r: &mut Self)
        ensures
            (*r) == (RasterizerDesc { cull_mode: cull_mode, ..(*old(self)) }),
            *final(self) == *final(r),
    {
        let v = (*self).with_cull_mode(cull_mode);
        *self = v;
        self
    }

    /// The cull mode.
    pub fn cull_mode(&self) -> (r: CullMode)
        ensures
            r == self.cull_mode,
    {
        self.cull_mode
    }

    /// Replaces the front counter clockwise.
    pub fn with_front_counter_clockwise(self, front_counter_clockwise: bool) -> (r: Self)
        ensures
            r == (RasterizerDesc { front_counter_clockwise: front_counter_clockwise, ..self }),
    {
        RasterizerDesc { front_counter_clockwise: front_counter_clockwise, ..self }
    }

    /// As [`Self::with_front_counter_clockwise`], on the value in place.
    pub fn set_front_counter_clockwise(&mut self, front_counter_clockwise: bool) -> (r: &mut Self)
        ensures
            (*r) == (RasterizerDesc { front_counter_clockwise: front_counter_clockwise, ..(*old(self)) }),
            *final(self) == *final(r),
    {
        let v = (*self).with_front_counter_clockwise(front_counter_clockwise);
        *self = v;
        self
    }

    /// The front counter clockwise.
    pub fn front_counter_clockwise(&self) -> (r: bool)
        ensures
            r == self.front_counter_clockwise,
    {
        self.front_counter_clockwise
    }

    /// Replaces the depth bias.
    pub fn with_depth_bias(self, depth_bias: i32) -> (r: Self)
        ensures
            r == (RasterizerDesc { depth_bias: depth_bias, ..self }),
    {
        RasterizerDesc { depth_bias: depth_bias, ..self }
    }

    /// As [`Self::with_depth_bias`], on the value in place.
    pub fn set_depth_bias(&mut self, depth_bias: i32) -> (r: &mut Self)
        ensures
            (*r) == (RasterizerDesc { depth_bias: depth_bias, ..(*old(self)) }),
            *final(self) == *final(r),
    {
        let v = (*self).with_depth_bias(depth_bias);
        *self = v;
        self
    }

    /// The depth bias.
    pub fn depth_bias(&self) -> (r: i32)
        ensures
            r == self.depth_bias,
    {
        self.depth_bias
    }

    /// Replaces the depth bias clamp bits.
    pub fn with_depth_bias_clamp_bits(self, depth_bias_clamp_bits: u32) -> (r: Self)
        ensures
            r == (RasterizerDesc { depth_bias_clamp_bits: depth_bias_clamp_bits, ..self }),
    {
        RasterizerDesc { depth_bias_clamp_bits: depth_bias_clamp_bits, ..self }
    }

    /// As [`Self::with_depth_bias_clamp_bits`], on the value in place.
    pub fn set_depth_bias_clamp_bits(&mut self, depth_bias_clamp_bits: u32) -> (r: &mut Self)
        ensures
            (*r) == (RasterizerDesc { depth_bias_clamp_bits: depth_bias_clamp_bits, ..(*old(self)) }),
            *final(self) == *final(r),
    {
        let v = (*self).with_depth_bias_clamp_bits(depth_bias_clamp_bits);
        *self = v;
        self
    }

    /// The depth bias clamp bits.
    pub fn depth_bias_clamp_bits(&self) -> (r: u32)
        ensures
            r == self.depth_bias_clamp_bits,
    {
        self.depth_bias_clamp_bits
    }

    /// Replaces the slope scaled depth bias bits.
    pub fn with_slope_scaled_depth_bias_bits(self, slope_scaled_depth_bias_bits: u32) -> (r: Self)
        ensures
            r == (RasterizerDesc { slope_scaled_depth_bias_bits: slope_scaled_depth_bias_bits, ..self }),
    {
        RasterizerDesc { slope_scaled_depth_bias_bits: slope_scaled_depth_bias_bits, ..self }
    }

    /// As [`Self::with_slope_scaled_depth_bias_bits`], on the value in place.
    pub fn set_slope_scaled_depth_bias_bits(&mut self, slope_scaled_depth_bias_bits: u32) -> (r: &mut Self)
        ensures
            (*r) == (RasterizerDesc { slope_scaled_depth_bias_bits: slope_scaled_depth_bias_bits, ..(*old(self)) }),
            *final(self) == *final(r),
    {
        let v = (*self).with_slope_scaled_depth_bias_bits(slope_scaled_depth_bias_bits);
        *self = v;
        self
    }

    /// The slope scaled depth bias bits.
    pub fn slope_scaled_depth_bias_bits(&self) -> (r: u32)
        ensures
            r == self.slope_scaled_depth_bias_bits,
    {
        self.slope_scaled_depth_bias_bits
    }

    /// Replaces the depth clip enable.
    pub fn with_depth_clip_enable(self, depth_clip_enable: bool) -> (r: Self)
        ensures
            r == (RasterizerDesc { depth_clip_enable: depth_clip_enable, ..self }),
    {
        RasterizerDesc { depth_clip_enable: depth_clip_enable, ..self }
    }

    /// As [`Self::with_depth_clip_enable`], on the value in place.
    pub fn set_depth_clip_enable(&mut self, depth_clip_enable: bool) -> (r: &mut Self)
        ensures
            (*r) == (RasterizerDesc { depth_clip_enable: depth_clip_enable, ..(*old(self)) }),
            *final(self) == *final(r),
    {
        let v = (*self).with_depth_clip_enable(depth_clip_enable);
        *self = v;
        self
    }

    /// The depth clip enable.
    pub fn depth_clip_enable(&self) -> (r: bool)
        ensures
            r == self.depth_clip_enable,
    {
        self.depth_clip_enable
    }

    /// Replaces the multisample enable.
    pub fn with_multisample_enable(self, multisample_enable: bool) -> (r: Self)
        ensures
            r == (RasterizerDesc { multisample_enable: multisample_enable, ..self }),
    {
        RasterizerDesc { multisample_enable: multisample_enable, ..self }
    }

    /// As [`Self::with_multisample_enable`], on the value in place.
    pub fn set_multisample_enable(&mut self, multisample_enable: bool) -> (r: &mut Self)
        ensures
            (*r) == (RasterizerDesc { multisample_enable: multisample_enable, ..(*old(self)) }),
            *final(self) == *final(r),
    {
        let v = (*self).with_multisample_enable(multisample_enable);
        *self = v;
        self
    }

    /// The multisample enable.
    pub fn multisample_enable(&self) -> (r: bool)
        ensures
            r == self.multisample_enable,
    {
        self.multisample_enable
    }

    /// Replaces the antialiased line enable.
    pub fn with_antialiased_line_enable(self, antialiased_line_enable: bool) -> (r: Self)
        ensures
            r == (RasterizerDesc { antialiased_line_enable: antialiased_line_enable, ..self }),
    {
        RasterizerDesc { antialiased_line_enable: antialiased_line_enable, ..self }
    }

    /// As [`Self::with_antialiased_line_enable`], on the value in place.
    pub fn set_antialiased_line_enable(&mut self, antialiased_line_enable: bool) -> (r: &mut Self)
        ensures
            (*r) == (RasterizerDesc { antialiased_line_enable: antialiased_line_enable, ..(*old(self)) }),
            *final(self) == *final(r),
    {
        let v = (*self).with_antialiased_line_enable(antialiased_line_enable);
        *self = v;
        self
    }

    /// The antialiased line enable.
    pub fn antialiased_line_enable(&self) -> (r: bool)
        ensures
            r == self.antialiased_line_enable,
    {
        self.antialiased_line_enable
    }

    /// Replaces the forced sample count.
    pub fn with_forced_sample_count(self, forced_sample_count: u32) -> (r: Self)
        ensures
            r == (RasterizerDesc { forced_sample_count: forced_sample_count, ..self }),
    {
        RasterizerDesc { forced_sample_count: forced_sample_count, ..self }
    }

    /// As [`Self::with_forced_sample_count`], on the value in place.
    pub fn set_forced_sample_count(&mut self, forced_sample_count: u32) -> (r: &mut Self)
        ensures
            (*r) == (RasterizerDesc { forced_sample_count: forced_sample_count, ..(*old(self)) }),
            *final(self) == *final(r),
    {
        let v = (*self).with_forced_sample_count(forced_sample_count);
        *self = v;
        self
    }

    /// The forced sample count.
    pub fn forced_sample_count(&self) -> (r: u32)
        ensures
            r == self.forced_sample_count,
    {
        self.forced_sample_count
    }

    /// Replaces the conservative raster.
    pub fn with_conservative_raster(self, conservative_raster: ConservativeRasterizationMode) -> (r: Self)
        ensures
            r == (RasterizerDesc { conservative_raster: conservative_raster, ..self }),
    {
        RasterizerDesc { conservative_raster: conservative_raster, ..self }
    }

    /// As [`Self::with_conservative_raster`], on the value in place.
    pub fn set_conservative_raster(&mut self, conservative_raster: ConservativeRasterizationMode) -> (r: &mut Self)
        ensures
            (*r) == (RasterizerDesc { conservative_raster: conservative_raster, ..(*old(self)) }),
            *final(self) == *final(r),
    {
        let v = (*self).with_conservative_raster(conservative_raster);
        *self = v;
        self
    }

    /// The conservative raster.
    pub fn conservative_raster(&self) -> (r: ConservativeRasterizationMode)
        ensures
            r == self.conservative_raster,
    {
        self.conservative_raster
    }
}

/// Stencil operations of one face (`D3D12_DEPTH_STENCILOP_DESC`).
#[derive(Clone, Copy, Debug, PartialEq, Eq)]
pub struct DepthStencilOpDesc {
    pub stencil_fail_op: StencilOp,
    pub stencil_depth_fail_op: StencilOp,
    pub stencil_pass_op: StencilOp,
    pub stencil_func: ComparisonFunc,
}

impl Default for DepthStencilOpDesc {
    /// Every outcome zeroes the stencil; the test never passes.
    fn default() -> (r: Self)
        ensures
            r == (DepthStencilOpDesc {
                stencil_fail_op: StencilOp::Zero,
                stencil_depth_fail_op: StencilOp::Zero,
                stencil_pass_op: StencilOp::Zero,
                stencil_func: ComparisonFunc::Never,
            }),
    {
        DepthStencilOpDesc {
            stencil_fail_op: StencilOp::Zero,
            stencil_depth_fail_op: StencilOp::Zero,
            stencil_pass_op: StencilOp::Zero,
            stencil_func: ComparisonFunc::Never,
        }
    }
}

impl DepthStencilOpDesc {
    /// Replaces the stencil fail op.
    pub fn with_stencil_fail_op(self, stencil_fail_op: StencilOp) -> (r: Self)
        ensures
            r == (DepthStencilOpDesc { stencil_fail_op: stencil_fail_op, ..self }),
    {
        DepthStencilOpDesc { stencil_fail_op: stencil_fail_op, ..self }
    }

    /// As [`Self::with_stencil_fail_op`], on the value in place.
    pub fn set_stencil_fail_op(&mut self, stencil_fail_op: StencilOp) -> (r: &mut Self)
        ensures
            (*r) == (DepthStencilOpDesc { stencil_fail_op: stencil_fail_op, ..(*old(self)) }),
            *final(self) == *final(r),
    {
        let v = (*self).with_stencil_fail_op(stencil_fail_op);
        *self = v;
        self
    }

    /// The stencil fail op.
    pub fn stencil_fail_op(&self) -> (r: StencilOp)
        ensures
            r == self.stencil_fail_op,
    {
        self.stencil_fail_op
    }

    /// Replaces the stencil depth fail op.
    pub fn with_stencil_depth_fail_op(self, stencil_depth_fail_op: StencilOp) -> (r: Self)
        ensures
            r == (DepthStencilOpDesc { stencil_depth_fail_op: stencil_depth_fail_op, ..self }),
    {
        DepthStencilOpDesc { stencil_depth_fail_op: stencil_depth_fail_op, ..self }
    }

    /// As [`Self::with_stencil_depth_fail_op`], on the value in place.
    pub fn set_stencil_depth_fail_op(&mut self, stencil_depth_fail_op: StencilOp) -> (r: &mut Self)
        ensures
            (*r) == (DepthStencilOpDesc { stencil_depth_fail_op: stencil_depth_fail_op, ..(*old(self)) }),
            *final(self) == *final(r),
    {
        let v = (*self).with_stencil_depth_fail_op(stencil_depth_fail_op);
        *self = v;
        self
    }

    /// The stencil depth fail op.
    pub fn stencil_depth_fail_op(&self) -> (r: StencilOp)
        ensures
            r == self.stencil_depth_fail_op,
    {
        self.stencil_depth_fail_op
    }

    /// Replaces the stencil pass op.
    pub fn with_stencil_pass_op(self, stencil_pass_op: StencilOp) -> (r: Self)
        ensures
            r == (DepthStencilOpDesc { stencil_pass_op: stencil_pass_op, ..self }),
    {
        DepthStencilOpDesc { stencil_pass_op: stencil_pass_op, ..self }
    }

    /// As [`Self::with_stencil_pass_op`], on the value in place.
    pub fn set_stencil_pass_op(&mut self, stencil_pass_op: StencilOp) -> (r: &mut Self)
        ensures
            (*r) == (DepthStencilOpDesc { stencil_pass_op: stencil_pass_op, ..(*old(self)) }),
            *final(self) == *final(r),
    {
        let v = (*self).with_stencil_pass_op(stencil_pass_op);
        *self = v;
        self
    }

    /// The stencil pass op.
    pub fn stencil_pass_op(&self) -> (r: StencilOp)
        ensures
            r == self.stencil_pass_op,
    {
        self.stencil_pass_op
    }

    /// Replaces the stencil func.
    pub fn with_stencil_func(self, stencil_func: ComparisonFunc) -> (r: Self)
        ensures
            r == (DepthStencilOpDesc { stencil_func: stencil_func, ..self }),
    {
        DepthStencilOpDesc { stencil_func: stencil_func, ..self }
    }

    /// As [`Self::with_stencil_func`], on the value in place.
    pub fn set_stencil_func(&mut self, stencil_func: ComparisonFunc) -> (r: &mut Self)
        ensures
            (*r) == (DepthStencilOpDesc { stencil_func: stencil_func, ..(*old(self)) }),
            *final(self) == *final(r),
    {
        let v = (*self).with_stencil_func(stencil_func);
        *self = v;
        self
    }

    /// The stencil func.
    pub fn stencil_func(&self) -> (r: ComparisonFunc)
        ensures
            r == self.stencil_func,
    {
        self.stencil_func
    }
}

/// Depth and stencil testing (`D3D12_DEPTH_STENCIL_DESC`).
#[derive(Clone, Copy, Debug, PartialEq, Eq)]
pub struct DepthStencilDesc {
    pub depth_enable: bool,
    pub depth_write_mask: DepthWriteMask,
    pub depth_func: ComparisonFunc,
    pub stencil_enable: bool,
    pub stencil_read_mask: u8,
    pub stencil_write_mask: u8,
    pub front_face: DepthStencilOpDesc,
    pub back_face: DepthStencilOpDesc,
}

impl Default for DepthStencilDesc {
    /// Depth and stencil testing off, with the default stencil operations on both faces.
    fn default() -> (r: Self)
        ensures
            r == (DepthStencilDesc {
                depth_enable: false,
                depth_write_mask: DepthWriteMask::Zero,
                depth_func: ComparisonFunc::Never,
                stencil_enable: false,
                stencil_read_mask: 0,
                stencil_write_mask: 0,
                front_face: (DepthStencilOpDesc { stencil_fail_op: StencilOp::Zero, stencil_depth_fail_op: StencilOp::Zero, stencil_pass_op: StencilOp::Zero, stencil_func: ComparisonFunc::Never }),
                back_face: (DepthStencilOpDesc { stencil_fail_op: StencilOp::Zero, stencil_depth_fail_op: StencilOp::Zero, stencil_pass_op: StencilOp::Zero, stencil_func: ComparisonFunc::Never }),
            }),
    {
        DepthStencilDesc {
            depth_enable: false,
            depth_write_mask: DepthWriteMask::Zero,
            depth_func: ComparisonFunc::Never,
            stencil_enable: false,
            stencil_read_mask: 0,
            stencil_write_mask: 0,
            front_face: DepthStencilOpDesc::default(),
            back_face: DepthStencilOpDesc::default(),
        }
    }
}

impl DepthStencilDesc {
    /// Replaces the depth enable.
    pub fn with_depth_enable(self, depth_enable: bool) -> (r: Self)
        ensures
            r == (DepthStencilDesc { depth_enable: depth_enable, ..self }),
    {
        DepthStencilDesc { depth_enable: depth_enable, ..self }
    }

    /// As [`Self::with_depth_enable`], on the value in place.
    pub fn set_depth_enable(&mut self, depth_enable: bool) -> (r: &mut Self)
        ensures
            (*r) == (DepthStencilDesc { depth_enable: depth_enable, ..(*old(self)) }),
            *final(self) == *final(r),
    {
        let v = (*self).with_depth_enable(depth_enable);
        *self = v;
        self
    }

    /// The depth enable.
    pub fn depth_enable(&self) -> (r: bool)
        ensures
            r == self.depth_enable,
    {
        self.depth_enable
    }

    /// Replaces the depth write mask.
    pub fn with_depth_write_mask(self, depth_write_mask: DepthWriteMask) -> (r: Self)
        ensures
            r == (DepthStencilDesc { depth_write_mask: depth_write_mask, ..self }),
    {
        DepthStencilDesc { depth_write_mask: depth_write_mask, ..self }
    }

    /// As [`Self::with_depth_write_mask`], on the value in place.
    pub fn set_depth_write_mask(&mut self, depth_write_mask: DepthWriteMask) -> (r: &mut Self)
        ensures
            (*r) == (DepthStencilDesc { depth_write_mask: depth_write_mask, ..(*old(self)) }),
            *final(self) == *final(r),
    {
        let v = (*self).with_depth_write_mask(depth_write_mask);
        *self = v;
        self
    }

    /// The depth write mask.
    pub fn depth_write_mask(&self) -> (r: DepthWriteMask)
        ensures
            r == self.depth_write_mask,
    {
        self.depth_write_mask
    }

    /// Replaces the depth func.
    pub fn with_depth_func(self, depth_func: ComparisonFunc) -> (r: Self)
        ensures
            r == (DepthStencilDesc { depth_func: depth_func, ..self }),
    {
        DepthStencilDesc { depth_func: depth_func, ..self }
    }

    /// As [`Self::with_depth_func`], on the value in place.
    pub fn set_depth_func(&mut self, depth_func: ComparisonFunc) -> (r: &mut Self)
        ensures
            (*r) == (DepthStencilDesc { depth_func: depth_func, ..(*old(self)) }),
            *final(self) == *final(r),
    {
        let v = (*self).with_depth_func(depth_func);
        *self = v;
        self
    }

    /// The depth func.
    pub fn depth_func(&self) -> (r: ComparisonFunc)
        ensures
            r == self.depth_func,
    {
        self.depth_func
    }

    /// Replaces the stencil enable.
    pub fn with_stencil_enable(self, stencil_enable: bool) -> (r: Self)
        ensures
            r == (DepthStencilDesc { stencil_enable: stencil_enable, ..self }),
    {
        DepthStencilDesc { stencil_enable: stencil_enable, ..self }
    }

    /// As [`Self::with_stencil_enable`], on the value in place.
    pub fn set_stencil_enable(&mut self, stencil_enable: bool) -> (r: &mut Self)
        ensures
            (*r) == (DepthStencilDesc { stencil_enable: stencil_enable, ..(*old(self)) }),
            *final(self) == *final(r),
    {
        let v = (*self).with_stencil_enable(stencil_enable);
        *self = v;
        self
    }

    /// The stencil enable.
    pub fn stencil_enable(&self) -> (r: bool)
        ensures
            r == self.stencil_enable,
    {
        self.stencil_enable
    }

    /// Replaces the stencil read mask.
    pub fn with_stencil_read_mask(self, stencil_read_mask: u8) -> (r: Self)
        ensures
            r == (DepthStencilDesc { stencil_read_mask: stencil_read_mask, ..self }),
    {
        DepthStencilDesc { stencil_read_mask: stencil_read_mask, ..self }
    }

    /// As [`Self::with_stencil_read_mask`], on the value in place.
    pub fn set_stencil_read_mask(&mut self, stencil_read_mask: u8) -> (r: &mut Self)
        ensures
            (*r) == (DepthStencilDesc { stencil_read_mask: stencil_read_mask, ..(*old(self)) }),
            *final(self) == *final(r),
    {
        let v = (*self).with_stencil_read_mask(stencil_read_mask);
        *self = v;
        self
    }

    /// The stencil read mask.
    pub fn stencil_read_mask(&self) -> (r: u8)
        ensures
            r == self.stencil_read_mask,
    {
        self.stencil_read_mask
    }

    /// Replaces the stencil write mask.
    pub fn with_stencil_write_mask(self, stencil_write_mask: u8) -> (r: Self)
        ensures
            r == (DepthStencilDesc { stencil_write_mask: stencil_write_mask, ..self }),
    {
        DepthStencilDesc { stencil_write_mask: stencil_write_mask, ..self }
    }

    /// As [`Self::with_stencil_write_mask`], on the value in place.
    pub fn set_stencil_write_mask(&mut self, stencil_write_mask: u8) -> (r: &mut Self)
        ensures
            (*r) == (DepthStencilDesc { stencil_write_mask: stencil_write_mask, ..(*old(self)) }),
            *final(self) == *final(r),
    {
        let v = (*self).with_stencil_write_mask(stencil_write_mask);
        *self = v;
        self
    }

    /// The stencil write mask.
    pub fn stencil_write_mask(&self) -> (r: u8)
        ensures
            r == self.stencil_write_mask,
    {
        self.stencil_write_mask
    }

    /// Replaces the front face.
    pub fn with_front_face(self, front_face: DepthStencilOpDesc) -> (r: Self)
        ensures
            r == (DepthStencilDesc { front_face: front_face, ..self }),
    {
        DepthStencilDesc { front_face: front_face, ..self }
    }

    /// As [`Self::with_front_face`], on the value in place.
    pub fn set_front_face(&mut self, front_face: DepthStencilOpDesc) -> (r: &mut Self)
        ensures
            (*r) == (DepthStencilDesc { front_face: front_face, ..(*old(self)) }),
            *final(self) == *final(r),
    {
        let v = (*self).with_front_face(front_face);
        *self = v;
        self
    }

    /// The front face.
    pub fn front_face(&self) -> (r: DepthStencilOpDesc)
        ensures
            r == self.front_face,
    {
        self.front_face
    }

    /// Replaces the back face.
    pub fn with_back_face(self, back_face: DepthStencilOpDesc) -> (r: Self)
        ensures
            r == (DepthStencilDesc { back_face: back_face, ..self }),
    {
        DepthStencilDesc { back_face: back_face, ..self }
    }

    /// As [`Self::with_back_face`], on the value in place.
    pub fn set_back_face(&mut self, back_face: DepthStencilOpDesc) -> (r: &mut Self)
        ensures
            (*r) == (DepthStencilDesc { back_face: back_face, ..(*old(self)) }),
            *final(self) == *final(r),
    {
        let v = (*self).with_back_face(back_face);
        *self = v;
        self
    }

    /// The back face.
    pub fn back_face(&self) -> (r: DepthStencilOpDesc)
        ensures
            r == self.back_face,
    {
        self.back_face
    }
}

/// A cached pipeline state blob (`D3D12_CACHED_PIPELINE_STATE`).
#[derive(Clone, Copy, Debug, PartialEq, Eq)]
pub struct CachedPipelineState<'a> {
    pub cached_blob: &'a [u8],
}

impl<'a> Default for CachedPipelineState<'a> {
    /// No cached blob.
    fn default() -> (r: Self)
        ensures
            r == (CachedPipelineState {
                cached_blob: &[],
            }),
    {
        CachedPipelineState {
            cached_blob: &[],
        }
    }
}

impl<'a> CachedPipelineState<'a> {
    /// Replaces the cached blob.
    pub fn with_cached_blob(self, cached_blob: &'a [u8]) -> (r: Self)
        ensures
            r == (CachedPipelineState { cached_blob: cached_blob, ..self }),
    {
        CachedPipelineState { cached_blob: cached_blob, ..self }
    }

    /// As [`Self::with_cached_blob`], on the value in place.
    pub fn set_cached_blob(&mut self, cached_blob: &'a [u8]) -> (r: &mut Self)
        ensures
            (*r) == (CachedPipelineState { cached_blob: cached_blob, ..(*old(self)) }),
            *final(self) == *final(r),
    {
        let v = (*self).with_cached_blob(cached_blob);
        *self = v;
        self
    }

    /// The cached blob.
    pub fn cached_blob(&self) -> (r: &'a [u8])
        ensures
            r == self.cached_blob,
    {
        self.cached_blob
    }
}

/// Formats of the render targets of a pipeline (`D3D12_RT_FORMAT_ARRAY`).
#[derive(Clone, Copy, Debug, PartialEq, Eq)]
pub struct RtFormatArray {
    pub rt_formats_array: [Format; 8],
    pub num_render_targets: u32,
}

impl Default for RtFormatArray {
    /// No render targets; every slot of unknown format.
    fn default() -> (r: Self)
        ensures
            r == (RtFormatArray {
                rt_formats_array: spec_array_fill_for_copy_type::<Format, 8>(Format::Unknown),
                num_render_targets: 0,
            }),
    {
        RtFormatArray {
            rt_formats_array: [Format::Unknown; 8],
            num_render_targets: 0,
        }
    }
}

impl RtFormatArray {
    /// Uses the formats of `rt_formats` for the first render targets and sets their count.
    pub fn with_rt_formats(self, rt_formats: &[Format]) -> (r: Self)
        requires
            rt_formats@.len() <= SIMULTANEOUS_RENDER_TARGET_COUNT,
        ensures
            r.num_render_targets == rt_formats@.len(),
            forall|i: int| 0 <= i < rt_formats@.len() ==> r.rt_formats_array@[i] == rt_formats@[i],
            forall|i: int| rt_formats@.len() <= i < 8 ==> r.rt_formats_array@[i] == self.rt_formats_array@[i],
    {
        let mut formats = self.rt_formats_array;
        let mut i: usize = 0;
        while i < rt_formats.len()
            invariant
                rt_formats@.len() <= 8,
                i <= rt_formats@.len(),
                forall|j: int| 0 <= j < i ==> formats@[j] == rt_formats@[j],
                forall|j: int| i <= j < 8 ==> formats@[j] == self.rt_formats_array@[j],
            decreases rt_formats@.len() - i,
        {
            formats[i] = rt_formats[i];
            i = i + 1;
        }
        RtFormatArray { rt_formats_array: formats, num_render_targets: rt_formats.len() as u32 }
    }

    /// As [`Self::with_rt_formats`], on the value in place.
    pub fn set_rt_formats(&mut self, rt_formats: &[Format]) -> (r: &mut Self)
        requires
            rt_formats@.len() <= SIMULTANEOUS_RENDER_TARGET_COUNT,
        ensures
            (*r).num_render_targets == rt_formats@.len(),
            forall|i: int| 0 <= i < rt_formats@.len() ==> (*r).rt_formats_array@[i] == rt_formats@[i],
            forall|i: int| rt_formats@.len() <= i < 8 ==> (*r).rt_formats_array@[i] == (*old(self)).rt_formats_array@[i],
            *final(self) == *final(r),
    {
        let v = (*self).with_rt_formats(rt_formats);
        *self = v;
        self
    }

    /// The formats of the render targets in use.
    pub fn rt_formats(&self) -> (r: &[Format])
        requires
            self.num_render_targets <= SIMULTANEOUS_RENDER_TARGET_COUNT,
        ensures
            r@ == self.rt_formats_array@.subrange(0, self.num_render_targets as int),
    {
        self.rt_formats_array.as_slice().split_at(self.num_render_targets as usize).0
    }
}

/// Description of a graphics pipeline (`D3D12_GRAPHICS_PIPELINE_STATE_DESC`).
#[derive(Clone, Copy, Debug, PartialEq, Eq)]
pub struct GraphicsPipelineStateDesc<'rs, 'sh, 'so, 'il> {
    pub root_signature: Option<&'rs RootSignature>,
    pub vs: ShaderBytecode<'sh>,
    pub ps: ShaderBytecode<'sh>,
    pub ds: ShaderBytecode<'sh>,
    pub hs: ShaderBytecode<'sh>,
    pub gs: ShaderBytecode<'sh>,
    pub stream_output: StreamOutputDesc<'so>,
    pub blend_state: BlendDesc,
    pub sample_mask: u32,
    pub rasterizer_state: RasterizerDesc,
    pub depth_stencil_state: DepthStencilDesc,
    pub input_layout: InputLayoutDesc<'il>,
    pub ib_strip_cut_value: IndexBufferStripCut,
    pub primitive_topology_type: PrimitiveTopologyType,
    pub rtv_formats: RtFormatArray,
    pub dsv_format: Format,
    pub sample_desc: SampleDesc,
    pub node_mask: u32,
    pub cached_pso: CachedPipelineState<'sh>,
    pub flags: PipelineStateFlags,
}

impl<'rs, 'sh, 'so, 'il> Default for GraphicsPipelineStateDesc<'rs, 'sh, 'so, 'il> {
    /// No root signature or shaders, default fixed-function state, all samples, eight render targets of unknown format.
    fn default() -> (r: Self)
        ensures
            r == (GraphicsPipelineStateDesc {
                root_signature: None,
                vs: (ShaderBytecode { bytecode: &[] }),
                ps: (ShaderBytecode { bytecode: &[] }),
                ds: (ShaderBytecode { bytecode: &[] }),
                hs: (ShaderBytecode { bytecode: &[] }),
                gs: (ShaderBytecode { bytecode: &[] }),
                stream_output: (StreamOutputDesc { so_declarations: &[], buffer_strides: &[], rasterized_stream: 0 }),
                blend_state: (BlendDesc { alpha_to_coverage_enable: false, independent_blend_enable: false, render_target: spec_array_fill_for_copy_type::<RenderTargetBlendDesc, 8>(default_render_target_blend()) }),
                sample_mask: 0xffff_ffff,
                rasterizer_state: (RasterizerDesc { fill_mode: FillMode::Solid, cull_mode: CullMode::NoCulling, front_counter_clockwise: false, depth_bias: 0, depth_bias_clamp_bits: 0, slope_scaled_depth_bias_bits: 0, depth_clip_enable: false, multisample_enable: false, antialiased_line_enable: false, forced_sample_count: 0, conservative_raster: ConservativeRasterizationMode::Off }),
                depth_stencil_state: (DepthStencilDesc { depth_enable: false, depth_write_mask: DepthWriteMask::Zero, depth_func: ComparisonFunc::Never, stencil_enable: false, stencil_read_mask: 0, stencil_write_mask: 0, front_face: (DepthStencilOpDesc { stencil_fail_op: StencilOp::Zero, stencil_depth_fail_op: StencilOp::Zero, stencil_pass_op: StencilOp::Zero, stencil_func: ComparisonFunc::Never }), back_face: (DepthStencilOpDesc { stencil_fail_op: StencilOp::Zero, stencil_depth_fail_op: StencilOp::Zero, stencil_pass_op: StencilOp::Zero, stencil_func: ComparisonFunc::Never }) }),
                input_layout: (InputLayoutDesc { elements: &[] }),
                ib_strip_cut_value: IndexBufferStripCut::Disabled,
                primitive_topology_type: PrimitiveTopologyType::Undefined,
                rtv_formats: (RtFormatArray { rt_formats_array: spec_array_fill_for_copy_type::<Format, 8>(Format::Unknown), num_render_targets: 8 }),
                dsv_format: Format::Unknown,
                sample_desc: (SampleDesc { count: 1, quality: 0 }),
                node_mask: 0,
                cached_pso: (CachedPipelineState { cached_blob: &[] }),
                flags: (PipelineStateFlags { bits: 0 }),
            }),
    {
        GraphicsPipelineStateDesc {
            root_signature: None,
            vs: (ShaderBytecode { bytecode: &[] }),
            ps: (ShaderBytecode { bytecode: &[] }),
            ds: (ShaderBytecode { bytecode: &[] }),
            hs: (ShaderBytecode { bytecode: &[] }),
            gs: (ShaderBytecode { bytecode: &[] }),
            stream_output: (StreamOutputDesc { so_declarations: &[], buffer_strides: &[], rasterized_stream: 0 }),
            blend_state: BlendDesc::default(),
            sample_mask: 0xffff_ffff,
            rasterizer_state: RasterizerDesc::default(),
            depth_stencil_state: DepthStencilDesc::default(),
            input_layout: (InputLayoutDesc { elements: &[] }),
            ib_strip_cut_value: IndexBufferStripCut::Disabled,
            primitive_topology_type: PrimitiveTopologyType::Undefined,
            rtv_formats: RtFormatArray { rt_formats_array: [Format::Unknown; 8], num_render_targets: 8 },
            dsv_format: Format::Unknown,
            sample_desc: SampleDesc::default(),
            node_mask: 0,
            cached_pso: (CachedPipelineState { cached_blob: &[] }),
            flags: PipelineStateFlags::empty(),
        }
    }
}

impl<'rs, 'sh, 'so, 'il> GraphicsPipelineStateDesc<'rs, 'sh, 'so, 'il> {
    /// Replaces the vs.
    pub fn with_vs_bytecode(self, bytecode: &'sh ShaderBytecode<'sh>) -> (r: Self)
        ensures
            r == (GraphicsPipelineStateDesc { vs: *bytecode, ..self }),
    {
        GraphicsPipelineStateDesc { vs: *bytecode, ..self }
    }

    /// As [`Self::with_vs_bytecode`], on the value in place.
    pub fn set_vs_bytecode(&mut self, bytecode: &'sh ShaderBytecode<'sh>) -> (r: &mut Self)
        ensures
            (*r) == (GraphicsPipelineStateDesc { vs: *bytecode, ..(*old(self)) }),
            *final(self) == *final(r),
    {
        let v = (*self).with_vs_bytecode(bytecode);
        *self = v;
        self
    }

    /// The vs.
    pub fn vs_bytecode(&self) -> (r: ShaderBytecode<'sh>)
        ensures
            r == self.vs,
    {
        self.vs
    }

    /// Replaces the ps.
    pub fn with_ps_bytecode(self, bytecode: &'sh ShaderBytecode<'sh>) -> (r: Self)
        ensures
            r == (GraphicsPipelineStateDesc { ps: *bytecode, ..self }),
    {
        GraphicsPipelineStateDesc { ps: *bytecode, ..self }
    }

    /// As [`Self::with_ps_bytecode`], on the value in place.
    pub fn set_ps_bytecode(&mut self, bytecode: &'sh ShaderBytecode<'sh>) -> (r: &mut Self)
        ensures
            (*r) == (GraphicsPipelineStateDesc { ps: *bytecode, ..(*old(self)) }),
            *final(self) == *final(r),
    {
        let v = (*self).with_ps_bytecode(bytecode);
        *self = v;
        self
    }

    /// The ps.
    pub fn ps_bytecode(&self) -> (r: ShaderBytecode<'sh>)
        ensures
            r == self.ps,
    {
        self.ps
    }

    /// Replaces the ds.
    pub fn with_ds_bytecode(self, bytecode: &'sh ShaderBytecode<'sh>) -> (r: Self)
        ensures
            r == (GraphicsPipelineStateDesc { ds: *bytecode, ..self }),
    {
        GraphicsPipelineStateDesc { ds: *bytecode, ..self }
    }

    /// As [`Self::with_ds_bytecode`], on the value in place.
    pub fn set_ds_bytecode(&mut self, bytecode: &'sh ShaderBytecode<'sh>) -> (r: &mut Self)
        ensures
            (*r) == (GraphicsPipelineStateDesc { ds: *bytecode, ..(*old(self)) }),
            *final(self) == *final(r),
    {
        let v = (*self).with_ds_bytecode(bytecode);
        *self = v;
        self
    }

    /// The ds.
    pub fn ds_bytecode(&self) -> (r: ShaderBytecode<'sh>)
        ensures
            r == self.ds,
    {
        self.ds
    }

    /// Replaces the hs.
    pub fn with_hs_bytecode(self, bytecode: &'sh ShaderBytecode<'sh>) -> (r: Self)
        ensures
            r == (GraphicsPipelineStateDesc { hs: *bytecode, ..self }),
    {
        GraphicsPipelineStateDesc { hs: *bytecode, ..self }
    }

    /// As [`Self::with_hs_bytecode`], on the value in place.
    pub fn set_hs_bytecode(&mut self, bytecode: &'sh ShaderBytecode<'sh>) -> (r: &mut Self)
        ensures
            (*r) == (GraphicsPipelineStateDesc { hs: *bytecode, ..(*old(self)) }),
            *final(self) == *final(r),
    {
        let v = (*self).with_hs_bytecode(bytecode);
        *self = v;
        self
    }

    /// The hs.
    pub fn hs_bytecode(&self) -> (r: ShaderBytecode<'sh>)
        ensures
            r == self.hs,
    {
        self.hs
    }

    /// Replaces the gs.
    pub fn with_gs_bytecode(self, bytecode: &'sh ShaderBytecode<'sh>) -> (r: Self)
        ensures
            r == (GraphicsPipelineStateDesc { gs: *bytecode, ..self }),
    {
        GraphicsPipelineStateDesc { gs: *bytecode, ..self }
    }

    /// As [`Self::with_gs_bytecode`], on the value in place.
    pub fn set_gs_bytecode(&mut self, bytecode: &'sh ShaderBytecode<'sh>) -> (r: &mut Self)
        ensures
            (*r) == (GraphicsPipelineStateDesc { gs: *bytecode, ..(*old(self)) }),
            *final(self) == *final(r),
    {
        let v = (*self).with_gs_bytecode(bytecode);
        *self = v;
        self
    }

    /// The gs.
    pub fn gs_bytecode(&self) -> (r: ShaderBytecode<'sh>)
        ensures
            r == self.gs,
    {
        self.gs
    }

    /// Replaces the stream output.
    pub fn with_stream_output(self, stream_output: StreamOutputDesc<'so>) -> (r: Self)
        ensures
            r == (GraphicsPipelineStateDesc { stream_output: stream_output, ..self }),
    {
        GraphicsPipelineStateDesc { stream_output: stream_output, ..self }
    }

    /// As [`Self::with_stream_output`], on the value in place.
    pub fn set_stream_output(&mut self, stream_output: StreamOutputDesc<'so>) -> (r: &mut Self)
        ensures
            (*r) == (GraphicsPipelineStateDesc { stream_output: stream_output, ..(*old(self)) }),
            *final(self) == *final(r),
    {
        let v = (*self).with_stream_output(stream_output);
        *self = v;
        self
    }

    /// The stream output.
    pub fn stream_output(&self) -> (r: StreamOutputDesc<'so>)
        ensures
            r == self.stream_output,
    {
        self.stream_output
    }

    /// Replaces the blend state.
    pub fn with_blend_state(self, blend_state: &BlendDesc) -> (r: Self)
        ensures
            r == (GraphicsPipelineStateDesc { blend_state: *blend_state, ..self }),
    {
        GraphicsPipelineStateDesc { blend_state: *blend_state, ..self }
    }

    /// As [`Self::with_blend_state`], on the value in place.
    pub fn set_blend_state(&mut self, blend_state: &BlendDesc) -> (r: &mut Self)
        ensures
            (*r) == (GraphicsPipelineStateDesc { blend_state: *blend_state, ..(*old(self)) }),
            *final(self) == *final(r),
    {
        let v = (*self).with_blend_state(blend_state);
        *self = v;
        self
    }

    /// The blend state.
    pub fn blend_state(&self) -> (r: BlendDesc)
        ensures
            r == self.blend_state,
    {
        self.blend_state
    }

    /// Replaces the sample mask.
    pub fn with_sample_mask(self, sample_mask: u32) -> (r: Self)
        ensures
            r == (GraphicsPipelineStateDesc { sample_mask: sample_mask, ..self }),
    {
        GraphicsPipelineStateDesc { sample_mask: sample_mask, ..self }
    }

    /// As [`Self::with_sample_mask`], on the value in place.
    pub fn set_sample_mask(&mut self, sample_mask: u32) -> (r: &mut Self)
        ensures
            (*r) == (GraphicsPipelineStateDesc { sample_mask: sample_mask, ..(*old(self)) }),
            *final(self) == *final(r),
    {
        let v = (*self).with_sample_mask(sample_mask);
        *self = v;
        self
    }

    /// The sample mask.
    pub fn sample_mask(&self) -> (r: u32)
        ensures
            r == self.sample_mask,
    {
        self.sample_mask
    }

    /// Replaces the rasterizer state.
    pub fn with_rasterizer_state(self, rasterizer_state: &RasterizerDesc) -> (r: Self)
        ensures
            r == (GraphicsPipelineStateDesc { rasterizer_state: *rasterizer_state, ..self }),
    {
        GraphicsPipelineStateDesc { rasterizer_state: *rasterizer_state, ..self }
    }

    /// As [`Self::with_rasterizer_state`], on the value in place.
    pub fn set_rasterizer_state(&mut self, rasterizer_state: &RasterizerDesc) -> (r: &mut Self)
        ensures
            (*r) == (GraphicsPipelineStateDesc { rasterizer_state: *rasterizer_state, ..(*old(self)) }),
            *final(self) == *final(r),
    {
        let v = (*self).with_rasterizer_state(rasterizer_state);
        *self = v;
        self
    }

    /// The rasterizer state.
    pub fn rasterizer_state(&self) -> (r: RasterizerDesc)
        ensures
            r == self.rasterizer_state,
    {
        self.rasterizer_state
    }

    /// Replaces the depth stencil state.
    pub fn with_depth_stencil_state(self, depth_stencil_state: &DepthStencilDesc) -> (r: Self)
        ensures
            r == (GraphicsPipelineStateDesc { depth_stencil_state: *depth_stencil_state, ..self }),
    {
        GraphicsPipelineStateDesc { depth_stencil_state: *depth_stencil_state, ..self }
    }

    /// As [`Self::with_depth_stencil_state`], on the value in place.
    pub fn set_depth_stencil_state(&mut self, depth_stencil_state: &DepthStencilDesc) -> (r: &mut Self)
        ensures
            (*r) == (GraphicsPipelineStateDesc { depth_stencil_state: *depth_stencil_state, ..(*old(self)) }),
            *final(self) == *final(r),
    {
        let v = (*self).with_depth_stencil_state(depth_stencil_state);
        *self = v;
        self
    }

    /// The depth stencil state.
    pub fn depth_stencil_state(&self) -> (r: DepthStencilDesc)
        ensures
            r == self.depth_stencil_state,
    {
        self.depth_stencil_state
    }

    /// Replaces the input layout.
    pub fn with_input_layout(self, input_layout: &'il InputLayoutDesc<'il>) -> (r: Self)
        ensures
            r == (GraphicsPipelineStateDesc { input_layout: *input_layout, ..self }),
    {
        GraphicsPipelineStateDesc { input_layout: *input_layout, ..self }
    }

    /// As [`Self::with_input_layout`], on the value in place.
    pub fn set_input_layout(&mut self, input_layout: &'il InputLayoutDesc<'il>) -> (r: &mut Self)
        ensures
            (*r) == (GraphicsPipelineStateDesc { input_layout: *input_layout, ..(*old(self)) }),
            *final(self) == *final(r),
    {
        let v = (*self).with_input_layout(input_layout);
        *self = v;
        self
    }

    /// The input layout.
    pub fn input_layout(&self) -> (r: InputLayoutDesc<'il>)
        ensures
            r == self.input_layout,
    {
        self.input_layout
    }

    /// Replaces the ib strip cut value.
    pub fn with_ib_strip_cut_value(self, ib_strip_cut_value: IndexBufferStripCut) -> (r: Self)
        ensures
            r == (GraphicsPipelineStateDesc { ib_strip_cut_value: ib_strip_cut_value, ..self }),
    {
        GraphicsPipelineStateDesc { ib_strip_cut_value: ib_strip_cut_value, ..self }
    }

    /// As [`Self::with_ib_strip_cut_value`], on the value in place.
    pub fn set_ib_strip_cut_value(&mut self, ib_strip_cut_value: IndexBufferStripCut) -> (r: &mut Self)
        ensures
            (*r) == (GraphicsPipelineStateDesc { ib_strip_cut_value: ib_strip_cut_value, ..(*old(self)) }),
            *final(self) == *final(r),
    {
        let v = (*self).with_ib_strip_cut_value(ib_strip_cut_value);
        *self = v;
        self
    }

    /// The ib strip cut value.
    pub fn ib_strip_cut_value(&self) -> (r: IndexBufferStripCut)
        ensures
            r == self.ib_strip_cut_value,
    {
        self.ib_strip_cut_value
    }

    /// Replaces the primitive topology type.
    pub fn with_primitive_topology_type(self, primitive_topology_type: PrimitiveTopologyType) -> (r: Self)
        ensures
            r == (GraphicsPipelineStateDesc { primitive_topology_type: primitive_topology_type, ..self }),
    {
        GraphicsPipelineStateDesc { primitive_topology_type: primitive_topology_type, ..self }
    }

    /// As [`Self::with_primitive_topology_type`], on the value in place.
    pub fn set_primitive_topology_type(&mut self, primitive_topology_type: PrimitiveTopologyType) -> (r: &mut Self)
        ensures
            (*r) == (GraphicsPipelineStateDesc { primitive_topology_type: primitive_topology_type, ..(*old(self)) }),
            *final(self) == *final(r),
    {
        let v = (*self).with_primitive_topology_type(primitive_topology_type);
        *self = v;
        self
    }

    /// The primitive topology type.
    pub fn primitive_topology_type(&self) -> (r: PrimitiveTopologyType)
        ensures
            r == self.primitive_topology_type,
    {
        self.primitive_topology_type
    }

    /// Replaces the dsv format.
    pub fn with_dsv_format(self, dsv_format: Format) -> (r: Self)
        ensures
            r == (GraphicsPipelineStateDesc { dsv_format: dsv_format, ..self }),
    {
        GraphicsPipelineStateDesc { dsv_format: dsv_format, ..self }
    }

    /// As [`Self::with_dsv_format`], on the value in place.
    pub fn set_dsv_format(&mut self, dsv_format: Format) -> (r: &mut Self)
        ensures
            (*r) == (GraphicsPipelineStateDesc { dsv_format: dsv_format, ..(*old(self)) }),
            *final(self) == *final(r),
    {
        let v = (*self).with_dsv_format(dsv_format);
        *self = v;
        self
    }

    /// The dsv format.
    pub fn dsv_format(&self) -> (r: Format)
        ensures
            r == self.dsv_format,
    {
        self.dsv_format
    }

    /// Replaces the sample desc.
    pub fn with_sample_desc(self, sample_desc: SampleDesc) -> (r: Self)
        ensures
            r == (GraphicsPipelineStateDesc { sample_desc: sample_desc, ..self }),
    {
        GraphicsPipelineStateDesc { sample_desc: sample_desc, ..self }
    }

    /// As [`Self::with_sample_desc`], on the value in place.
    pub fn set_sample_desc(&mut self, sample_desc: SampleDesc) -> (r: &mut Self)
        ensures
            (*r) == (GraphicsPipelineStateDesc { sample_desc: sample_desc, ..(*old(self)) }),
            *final(self) == *final(r),
    {
        let v = (*self).with_sample_desc(sample_desc);
        *self = v;
        self
    }

    /// The sample desc.
    pub fn sample_desc(&self) -> (r: SampleDesc)
        ensures
            r == self.sample_desc,
    {
        self.sample_desc
    }

    /// Replaces the node mask.
    pub fn with_node_mask(self, node_mask: u32) -> (r: Self)
        ensures
            r == (GraphicsPipelineStateDesc { node_mask: node_mask, ..self }),
    {
        GraphicsPipelineStateDesc { node_mask: node_mask, ..self }
    }

    /// As [`Self::with_node_mask`], on the value in place.
    pub fn set_node_mask(&mut self, node_mask: u32) -> (r: &mut Self)
        ensures
            (*r) == (GraphicsPipelineStateDesc { node_mask: node_mask, ..(*old(self)) }),
            *final(self) == *final(r),
    {
        let v = (*self).with_node_mask(node_mask);
        *self = v;
        self
    }

    /// The node mask.
    pub fn node_mask(&self) -> (r: u32)
        ensures
            r == self.node_mask,
    {
        self.node_mask
    }

    /// Replaces the cached pso.
    pub fn with_cached_pso(self, cached_pso: &'sh CachedPipelineState<'sh>) -> (r: Self)
        ensures
            r == (GraphicsPipelineStateDesc { cached_pso: *cached_pso, ..self }),
    {
        GraphicsPipelineStateDesc { cached_pso: *cached_pso, ..self }
    }

    /// As [`Self::with_cached_pso`], on the value in place.
    pub fn set_cached_pso(&mut self, cached_pso: &'sh CachedPipelineState<'sh>) -> (r: &mut Self)
        ensures
            (*r) == (GraphicsPipelineStateDesc { cached_pso: *cached_pso, ..(*old(self)) }),
            *final(self) == *final(r),
    {
        let v = (*self).with_cached_pso(cached_pso);
        *self = v;
        self
    }

    /// The cached pso.
    pub fn cached_pso(&self) -> (r: CachedPipelineState<'sh>)
        ensures
            r == self.cached_pso,
    {
        self.cached_pso
    }

    /// Replaces the flags.
    pub fn with_flags(self, pipeline_state_flags: PipelineStateFlags) -> (r: Self)
        ensures
            r == (GraphicsPipelineStateDesc { flags: pipeline_state_flags, ..self }),
    {
        GraphicsPipelineStateDesc { flags: pipeline_state_flags, ..self }
    }

    /// As [`Self::with_flags`], on the value in place.
    pub fn set_flags(&mut self, pipeline_state_flags: PipelineStateFlags) -> (r: &mut Self)
        ensures
            (*r) == (GraphicsPipelineStateDesc { flags: pipeline_state_flags, ..(*old(self)) }),
            *final(self) == *final(r),
    {
        let v = (*self).with_flags(pipeline_state_flags);
        *self = v;
        self
    }

    /// The flags.
    pub fn flags(&self) -> (r: PipelineStateFlags)
        ensures
            r == self.flags,
    {
        self.flags
    }

    /// Uses `root_signature` for the pipeline.
    pub fn with_root_signature(self, root_signature: &'rs RootSignature) -> (r: Self)
        ensures
            r == (GraphicsPipelineStateDesc { root_signature: Some(root_signature), ..self }),
    {
        GraphicsPipelineStateDesc { root_signature: Some(root_signature), ..self }
    }

    /// As [`Self::with_root_signature`], on the value in place.
    pub fn set_root_signature(&mut self, root_signature: &'rs RootSignature) -> (r: &mut Self)
        ensures
            (*r) == (GraphicsPipelineStateDesc { root_signature: Some(root_signature), ..(*old(self)) }),
            *final(self) == *final(r),
    {
        let v = (*self).with_root_signature(root_signature);
        *self = v;
        self
    }

    /// The root signature; the null object when none was set.
    pub fn root_signature(&self) -> (r: RootSignature)
        ensures
            r == (match self.root_signature {
                Some(rs) => *rs,
                None => RootSignature { this: 0 },
            }),
    {
        match self.root_signature {
            Some(rs) => *rs,
            None => RootSignature { this: 0 },
        }
    }

    /// Uses the formats of `rtv_formats` for the first render targets and sets their count.
    pub fn with_rtv_formats(self, rtv_formats: &[Format]) -> (r: Self)
        requires
            rtv_formats@.len() <= SIMULTANEOUS_RENDER_TARGET_COUNT,
        ensures
            r == (GraphicsPipelineStateDesc { rtv_formats: r.rtv_formats, ..self }),
            r.rtv_formats.num_render_targets == rtv_formats@.len(),
            r.rtv_formats.rt_formats_array@.subrange(0, rtv_formats@.len() as int) == rtv_formats@,
            forall|i: int| rtv_formats@.len() <= i < 8 ==> r.rtv_formats.rt_formats_array@[i] == self.rtv_formats.rt_formats_array@[i],
    {
        let formats = self.rtv_formats.with_rt_formats(rtv_formats);
        proof {
            assert(formats.rt_formats_array@.subrange(0, rtv_formats@.len() as int) =~= rtv_formats@);
        }
        GraphicsPipelineStateDesc { rtv_formats: formats, ..self }
    }

    /// As [`Self::with_rtv_formats`], on the value in place.
    pub fn set_rtv_formats(&mut self, rtv_formats: &[Format]) -> (r: &mut Self)
        requires
            rtv_formats@.len() <= SIMULTANEOUS_RENDER_TARGET_COUNT,
        ensures
            (*r) == (GraphicsPipelineStateDesc { rtv_formats: (*r).rtv_formats, ..(*old(self)) }),
            (*r).rtv_formats.num_render_targets == rtv_formats@.len(),
            (*r).rtv_formats.rt_formats_array@.subrange(0, rtv_formats@.len() as int) == rtv_formats@,
            forall|i: int| rtv_formats@.len() <= i < 8 ==> (*r).rtv_formats.rt_formats_array@[i] == (*old(self)).rtv_formats.rt_formats_array@[i],
            *final(self) == *final(r),
    {
        let v = (*self).with_rtv_formats(rtv_formats);
        *self = v;
        self
    }

    /// The formats of the render targets in use.
    pub fn rtv_formats(&self) -> (r: &[Format])
        requires
            self.rtv_formats.num_render_targets <= SIMULTANEOUS_RENDER_TARGET_COUNT,
        ensures
            r@ == self.rtv_formats.rt_formats_array@.subrange(0, self.rtv_formats.num_render_targets as int),
    {
        self.rtv_formats.rt_formats()
    }
}

/// Description of a compute pipeline (`D3D12_COMPUTE_PIPELINE_STATE_DESC`).
#[derive(Clone, Copy, Debug, PartialEq, Eq)]
pub struct ComputePipelineStateDesc<'rs, 'sh> {
    pub root_signature: Option<&'rs RootSignature>,
    pub cs: ShaderBytecode<'sh>,
    pub node_mask: u32,
    pub cached_pso: CachedPipelineState<'sh>,
    pub flags: PipelineStateFlags,
}

impl<'rs, 'sh> Default for ComputePipelineStateDesc<'rs, 'sh> {
    /// No root signature, no shader, node zero, no cached state and no flags.
    fn default() -> (r: Self)
        ensures
            r == (ComputePipelineStateDesc {
                root_signature: None,
                cs: (ShaderBytecode { bytecode: &[] }),
                node_mask: 0,
                cached_pso: (CachedPipelineState { cached_blob: &[] }),
                flags: (PipelineStateFlags { bits: 0 }),
            }),
    {
        ComputePipelineStateDesc {
            root_signature: None,
            cs: (ShaderBytecode { bytecode: &[] }),
            node_mask: 0,
            cached_pso: (CachedPipelineState { cached_blob: &[] }),
            flags: PipelineStateFlags::empty(),
        }
    }
}

impl<'rs, 'sh> ComputePipelineStateDesc<'rs, 'sh> {
    /// Replaces the cs.
    pub fn with_cs_bytecode(self, bytecode: &'sh ShaderBytecode<'sh>) -> (r: Self)
        ensures
            r == (ComputePipelineStateDesc { cs: *bytecode, ..self }),
    {
        ComputePipelineStateDesc { cs: *bytecode, ..self }
    }

    /// As [`Self::with_cs_bytecode`], on the value in place.
    pub fn set_cs_bytecode(&mut self, bytecode: &'sh ShaderBytecode<'sh>) -> (r: &mut Self)
        ensures
            (*r) == (ComputePipelineStateDesc { cs: *bytecode, ..(*old(self)) }),
            *final(self) == *final(r),
    {
        let v = (*self).with_cs_bytecode(bytecode);
        *self = v;
        self
    }

    /// The cs.
    pub fn cs_bytecode(&self) -> (r: ShaderBytecode<'sh>)
        ensures
            r == self.cs,
    {
        self.cs
    }

    /// Replaces the node mask.
    pub fn with_node_mask(self, node_mask: u32) -> (r: Self)
        ensures
            r == (ComputePipelineStateDesc { node_mask: node_mask, ..self }),
    {
        ComputePipelineStateDesc { node_mask: node_mask, ..self }
    }

    /// As [`Self::with_node_mask`], on the value in place.
    pub fn set_node_mask(&mut self, node_mask: u32) -> (r: &mut Self)
        ensures
            (*r) == (ComputePipelineStateDesc { node_mask: node_mask, ..(*old(self)) }),
            *final(self) == *final(r),
    {
        let v = (*self).with_node_mask(node_mask);
        *self = v;
        self
    }

    /// The node mask.
    pub fn node_mask(&self) -> (r: u32)
        ensures
            r == self.node_mask,
    {
        self.node_mask
    }

    /// Replaces the cached pso.
    pub fn with_cached_pso(self, cached_pso: &'sh CachedPipelineState<'sh>) -> (r: Self)
        ensures
            r == (ComputePipelineStateDesc { cached_pso: *cached_pso, ..self }),
    {
        ComputePipelineStateDesc { cached_pso: *cached_pso, ..self }
    }

    /// As [`Self::with_cached_pso`], on the value in place.
    pub fn set_cached_pso(&mut self, cached_pso: &'sh CachedPipelineState<'sh>) -> (r: &mut Self)
        ensures
            (*r) == (ComputePipelineStateDesc { cached_pso: *cached_pso, ..(*old(self)) }),
            *final(self) == *final(r),
    {
        let v = (*self).with_cached_pso(cached_pso);
        *self = v;
        self
    }

    /// The cached pso.
    pub fn cached_pso(&self) -> (r: CachedPipelineState<'sh>)
        ensures
            r == self.cached_pso,
    {
        self.cached_pso
    }

    /// Replaces the flags.
    pub fn with_flags(self, pipeline_state_flags: PipelineStateFlags) -> (r: Self)
        ensures
            r == (ComputePipelineStateDesc { flags: pipeline_state_flags, ..self }),
    {
        ComputePipelineStateDesc { flags: pipeline_state_flags, ..self }
    }

    /// As [`Self::with_flags`], on the value in place.
    pub fn set_flags(&mut self, pipeline_state_flags: PipelineStateFlags) -> (r: &mut Self)
        ensures
            (*r) == (ComputePipelineStateDesc { flags: pipeline_state_flags, ..(*old(self)) }),
            *final(self) == *final(r),
    {
        let v = (*self).with_flags(pipeline_state_flags);
        *self = v;
        self
    }

    /// The flags.
    pub fn flags(&self) -> (r: PipelineStateFlags)
        ensures
            r == self.flags,
    {
        self.flags
    }

    /// Uses `root_signature` for the pipeline.
    pub fn with_root_signature(self, root_signature: &'rs RootSignature) -> (r: Self)
        ensures
            r == (ComputePipelineStateDesc { root_signature: Some(root_signature), ..self }),
    {
        ComputePipelineStateDesc { root_signature: Some(root_signature), ..self }
    }

    /// As [`Self::with_root_signature`], on the value in place.
    pub fn set_root_signature(&mut self, root_signature: &'rs RootSignature) -> (r: &mut Self)
        ensures
            (*r) == (ComputePipelineStateDesc { root_signature: Some(root_signature), ..(*old(self)) }),
            *final(self) == *final(r),
    {
        let v = (*self).with_root_signature(root_signature);
        *self = v;
        self
    }

    /// The root signature; the null object when none was set.
    pub fn root_signature(&self) -> (r: RootSignature)
        ensures
            r == (match self.root_signature {
                Some(rs) => *rs,
                None => RootSignature { this: 0 },
            }),
    {
        match self.root_signature {
            Some(rs) => *rs,
            None => RootSignature { this: 0 },
        }
    }
}

} // verus!
