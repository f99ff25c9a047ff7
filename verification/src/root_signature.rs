//! Descriptor ranges, root parameters, samplers and root-signature descriptions.

use vstd::prelude::*;
use vstd::std_specs::convert::FromSpecImpl;

use crate::enums::{
    ComparisonFunc, DescriptorRangeFlags, DescriptorRangeType, Filter, RootDescriptorFlags, RootParameterType,
    RootSignatureFlags, RootSignatureVersion, ShaderVisibility, StaticBorderColor, TextureAddressMode,
};

verus! {

/// The identity of a Direct3D 12 root signature object: the address of its COM interface.
#[derive(Clone, Copy, Debug, PartialEq, Eq)]
pub struct RootSignature {
    pub this: u64,
}

/// Root signature version support (`D3D12_FEATURE_DATA_ROOT_SIGNATURE`).
#[derive(Clone, Copy, Debug, PartialEq, Eq)]
pub struct FeatureDataRootSignature {
    pub highest_version: RootSignatureVersion,
}

impl FeatureDataRootSignature {
    /// Replaces the highest version.
    pub fn with_highest_version(self, version: RootSignatureVersion) -> (r: Self)
        ensures
            r == (FeatureDataRootSignature { highest_version: version, ..self }),
    {
        FeatureDataRootSignature { highest_version: version, ..self }
    }

    /// As [`Self::with_highest_version`], on the value in place.
    pub fn set_highest_version(&mut self, version: RootSignatureVersion) -> (r: &mut Self)
        ensures
            (*r) == (FeatureDataRootSignature { highest_version: version, ..(*old(self)) }),
            *final(self) == *final(r),
    {
        let v = (*self).with_highest_version(version);
        *self = v;
        self
    }

    /// The highest version.
    pub fn highest_version(&self) -> (r: RootSignatureVersion)
        ensures
            r == self.highest_version,
    {
        self.highest_version
    }

    /// Asks about `version`.
    pub fn new(version: RootSignatureVersion) -> (r: Self)
        ensures
            r.highest_version == version,
    {
        FeatureDataRootSignature { highest_version: version }
    }
}

/// `OffsetInDescriptorsFromTableStart` value that places a range right after the previous one
/// (`D3D12_DESCRIPTOR_RANGE_OFFSET_APPEND`).
pub const DESCRIPTOR_RANGE_OFFSET_APPEND: u32 = 0xffff_ffff;

/// Where a descriptor range starts in its table, in descriptors.
#[derive(Clone, Copy, Debug, PartialEq, Eq)]
pub struct DescriptorRangeOffset(pub u32);

impl From<u32> for DescriptorRangeOffset {
    fn from(count: u32) -> (r: Self) {
        DescriptorRangeOffset(count)
    }
}

impl FromSpecImpl<u32> for DescriptorRangeOffset {
    open spec fn obeys_from_spec() -> bool {
        true
    }

    open spec fn from_spec(v: u32) -> DescriptorRangeOffset {
        DescriptorRangeOffset(v)
    }
}

impl DescriptorRangeOffset {
    /// Right after the previous range of the table.
    pub fn append() -> (r: Self)
        ensures
            r.0 == DESCRIPTOR_RANGE_OFFSET_APPEND,
    {
        DescriptorRangeOffset(DESCRIPTOR_RANGE_OFFSET_APPEND)
    }
}

/// A range of descriptors in a root descriptor table (`D3D12_DESCRIPTOR_RANGE1`).
#[derive(Clone, Copy, Debug, PartialEq, Eq)]
pub struct DescriptorRange {
    pub range_type: DescriptorRangeType,
    pub num_descriptors: u32,
    pub base_shader_register: u32,
    pub register_space: u32,
    pub flags: DescriptorRangeFlags,
    pub offset_in_descriptors_from_table_start: u32,
}

impl Default for DescriptorRange {
    /// An empty SRV range at register zero of space zero, at the start of its table.
    fn default() -> (r: Self)
        ensures
            r == (DescriptorRange {
                range_type: DescriptorRangeType::Srv,
                num_descriptors: 0,
                base_shader_register: 0,
                register_space: 0,
                flags: (DescriptorRangeFlags { bits: 0 }),
                offset_in_descriptors_from_table_start: 0,
            }),
    {
        DescriptorRange {
            range_type: DescriptorRangeType::Srv,
            num_descriptors: 0,
            base_shader_register: 0,
            register_space: 0,
            flags: DescriptorRangeFlags::empty(),
            offset_in_descriptors_from_table_start: 0,
        }
    }
}

impl DescriptorRange {
    /// Replaces the range type.
    pub fn with_range_type(self, range_type: DescriptorRangeType) -> (r: Self)
        ensures
            r == (DescriptorRange { range_type: range_type, ..self }),
    {
        DescriptorRange { range_type: range_type, ..self }
    }

    /// As [`Self::with_range_type`], on the value in place.
    pub fn set_range_type(&mut self, range_type: DescriptorRangeType) -> (r: &mut Self)
        ensures
            (*r) == (DescriptorRange { range_type: range_type, ..(*old(self)) }),
            *final(self) == *final(r),
    {
        let v = (*self).with_range_type(range_type);
        *self = v;
        self
    }

    /// The range type.
    pub fn range_type(&self) -> (r: DescriptorRangeType)
        ensures
            r == self.range_type,
    {
        self.range_type
    }

    /// Replaces the num descriptors.
    pub fn with_num_descriptors(self, num_descriptors: u32) -> (r: Self)
        ensures
            r == (DescriptorRange { num_descriptors: num_descriptors, ..self }),
    {
        DescriptorRange { num_descriptors: num_descriptors, ..self }
    }

    /// As [`Self::with_num_descriptors`], on the value in place.
    pub fn set_num_descriptors(&mut self, num_descriptors: u32) -> (r: &mut Self)
        ensures
            (*r) == (DescriptorRange { num_descriptors: num_descriptors, ..(*old(self)) }),
            *final(self) == *final(r),
    {
        let v = (*self).with_num_descriptors(num_descriptors);
        *self = v;
        self
    }

    /// The num descriptors.
    pub fn num_descriptors(&self) -> (r: u32)
        ensures
            r == self.num_descriptors,
    {
        self.num_descriptors
    }

    /// Replaces the base shader register.
    pub fn with_base_shader_register(self, base_shader_register: u32) -> (r: Self)
        ensures
            r == (DescriptorRange { base_shader_register: base_shader_register, ..self }),
    {
        DescriptorRange { base_shader_register: base_shader_register, ..self }
    }

    /// As [`Self::with_base_shader_register`], on the value in place.
    pub fn set_base_shader_register(&mut self, base_shader_register: u32) -> (r: &mut Self)
        ensures
            (*r) == (DescriptorRange { base_shader_register: base_shader_register, ..(*old(self)) }),
            *final(self) == *final(r),
    {
        let v = (*self).with_base_shader_register(base_shader_register);
        *self = v;
        self
    }

    /// The base shader register.
    pub fn base_shader_register(&self) -> (r: u32)
        ensures
            r == self.base_shader_register,
    {
        self.base_shader_register
    }

    /// Replaces the register space.
    pub fn with_register_space(self, register_space: u32) -> (r: Self)
        ensures
            r == (DescriptorRange { register_space: register_space, ..self }),
    {
        DescriptorRange { register_space: register_space, ..self }
    }

    /// As [`Self::with_register_space`], on the value in place.
    pub fn set_register_space(&mut self, register_space: u32) -> (r: &mut Self)
        ensures
            (*r) == (DescriptorRange { register_space: register_space, ..(*old(self)) }),
            *final(self) == *final(r),
    {
        let v = (*self).with_register_space(register_space);
        *self = v;
        self
    }

    /// The register space.
    pub fn register_space(&self) -> (r: u32)
        ensures
            r == self.register_space,
    {
        self.register_space
    }

    /// Replaces the flags.
    pub fn with_flags(self, flags: DescriptorRangeFlags) -> (r: Self)
        ensures
            r == (DescriptorRange { flags: flags, ..self }),
    {
        DescriptorRange { flags: flags, ..self }
    }

    /// As [`Self::with_flags`], on the value in place.
    pub fn set_flags(&mut self, flags: DescriptorRangeFlags) -> (r: &mut Self)
        ensures
            (*r) == (DescriptorRange { flags: flags, ..(*old(self)) }),
            *final(self) == *final(r),
    {
        let v = (*self).with_flags(flags);
        *self = v;
        self
    }

    /// The flags.
    pub fn flags(&self) -> (r: DescriptorRangeFlags)
        ensures
            r == self.flags,
    {
        self.flags
    }

    /// Places the range in its table.
    pub fn with_offset_in_descriptors_from_table_start(
        self,
        offset_in_descriptors_from_table_start: DescriptorRangeOffset,
    ) -> (r: Self)
        ensures
            r == (DescriptorRange {
                offset_in_descriptors_from_table_start: offset_in_descriptors_from_table_start.0,
                ..self
            }),
    {
        DescriptorRange { offset_in_descriptors_from_table_start: offset_in_descriptors_from_table_start.0, ..self }
    }

    /// As [`Self::with_offset_in_descriptors_from_table_start`], on the value in place.
    pub fn set_offset_in_descriptors_from_table_start(&mut self, offset_in_descriptors_from_table_start: DescriptorRangeOffset) -> (r: &mut Self)
        ensures
            (*r) == (DescriptorRange {
                offset_in_descriptors_from_table_start: offset_in_descriptors_from_table_start.0,
                ..(*old(self))
            }),
            *final(self) == *final(r),
    {
        let v = (*self).with_offset_in_descriptors_from_table_start(offset_in_descriptors_from_table_start);
        *self = v;
        self
    }

    /// Where the range starts in its table.
    pub fn offset_in_descriptors_from_table_start(&self) -> (r: DescriptorRangeOffset)
        ensures
            r.0 == self.offset_in_descriptors_from_table_start,
    {
        DescriptorRangeOffset(self.offset_in_descriptors_from_table_start)
    }
}

/// A root parameter made of descriptor ranges (`D3D12_ROOT_DESCRIPTOR_TABLE1`).
#[derive(Clone, Copy, Debug, PartialEq, Eq)]
pub struct RootDescriptorTable<'a> {
    pub descriptor_ranges: &'a [DescriptorRange],
}

impl<'a> Default for RootDescriptorTable<'a> {
    /// A table with no ranges.
    fn default() -> (r: Self)
        ensures
            r == (RootDescriptorTable {
                descriptor_ranges: &[],
            }),
    {
        RootDescriptorTable {
            descriptor_ranges: &[],
        }
    }
}

impl<'a> RootDescriptorTable<'a> {
    /// Replaces the descriptor ranges.
    pub fn with_descriptor_ranges(self, ranges: &'a [DescriptorRange]) -> (r: Self)
        ensures
            r == (RootDescriptorTable { descriptor_ranges: ranges, ..self }),
    {
        RootDescriptorTable { descriptor_ranges: ranges, ..self }
    }

    /// As [`Self::with_descriptor_ranges`], on the value in place.
    pub fn set_descriptor_ranges(&mut self, ranges: &'a [DescriptorRange]) -> (r: &mut Self)
        ensures
            (*r) == (RootDescriptorTable { descriptor_ranges: ranges, ..(*old(self)) }),
            *final(self) == *final(r),
    {
        let v = (*self).with_descriptor_ranges(ranges);
        *self = v;
        self
    }

    /// The descriptor ranges.
    pub fn descriptor_ranges(&self) -> (r: &'a [DescriptorRange])
        ensures
            r == self.descriptor_ranges,
    {
        self.descriptor_ranges
    }
}

/// A root parameter of inline 32-bit constants (`D3D12_ROOT_CONSTANTS`).
#[derive(Clone, Copy, Debug, PartialEq, Eq)]
pub struct RootConstants {
    pub shader_register: u32,
    pub register_space: u32,
    pub num32_bit_values: u32,
}

impl Default for RootConstants {
    /// No constants at register zero of space zero.
    fn default() -> (r: Self)
        ensures
            r == (RootConstants {
                shader_register: 0,
                register_space: 0,
                num32_bit_values: 0,
            }),
    {
        RootConstants {
            shader_register: 0,
            register_space: 0,
            num32_bit_values: 0,
        }
    }
}

impl RootConstants {
    /// Replaces the shader register.
    pub fn with_shader_register(self, shader_register: u32) -> (r: Self)
        ensures
            r == (RootConstants { shader_register: shader_register, ..self }),
    {
        RootConstants { shader_register: shader_register, ..self }
    }

    /// As [`Self::with_shader_register`], on the value in place.
    pub fn set_shader_register(&mut self, shader_register: u32) -> (r: &mut Self)
        ensures
            (*r) == (RootConstants { shader_register: shader_register, ..(*old(self)) }),
            *final(self) == *final(r),
    {
        let v = (*self).with_shader_register(shader_register);
        *self = v;
        self
    }

    /// The shader register.
    pub fn shader_register(&self) -> (r: u32)
        ensures
            r == self.shader_register,
    {
        self.shader_register
    }

    /// Replaces the register space.
    pub fn with_register_space(self, register_space: u32) -> (r: Self)
        ensures
            r == (RootConstants { register_space: register_space, ..self }),
    {
        RootConstants { register_space: register_space, ..self }
    }

    /// As [`Self::with_register_space`], on the value in place.
    pub fn set_register_space(&mut self, register_space: u32) -> (r: &mut Self)
        ensures
            (*r) == (RootConstants { register_space: register_space, ..(*old(self)) }),
            *final(self) == *final(r),
    {
        let v = (*self).with_register_space(register_space);
        *self = v;
        self
    }

    /// The register space.
    pub fn register_space(&self) -> (r: u32)
        ensures
            r == self.register_space,
    {
        self.register_space
    }

    /// Replaces the num32 bit values.
    pub fn with_num_32_bit_values(self, num32_bit_values: u32) -> (r: Self)
        ensures
            r == (RootConstants { num32_bit_values: num32_bit_values, ..self }),
    {
        RootConstants { num32_bit_values: num32_bit_values, ..self }
    }

    /// As [`Self::with_num_32_bit_values`], on the value in place.
    pub fn set_num_32_bit_values(&mut self, num32_bit_values: u32) -> (r: &mut Self)
        ensures
            (*r) == (RootConstants { num32_bit_values: num32_bit_values, ..(*old(self)) }),
            *final(self) == *final(r),
    {
        let v = (*self).with_num_32_bit_values(num32_bit_values);
        *self = v;
        self
    }

    /// The num32 bit values.
    pub fn num32_bit_values(&self) -> (r: u32)
        ensures
            r == self.num32_bit_values,
    {
        self.num32_bit_values
    }
}

/// A root parameter holding one descriptor (`D3D12_ROOT_DESCRIPTOR1`).
#[derive(Clone, Copy, Debug, PartialEq, Eq)]
pub struct RootDescriptor {
    pub shader_register: u32,
    pub register_space: u32,
    pub flags: RootDescriptorFlags,
}

impl Default for RootDescriptor {
    /// Register zero of space zero with no flags.
    fn default() -> (r: Self)
        ensures
            r == (RootDescriptor {
                shader_register: 0,
                register_space: 0,
                flags: (RootDescriptorFlags { bits: 0 }),
            }),
    {
        RootDescriptor {
            shader_register: 0,
            register_space: 0,
            flags: RootDescriptorFlags::empty(),
        }
    }
}

impl RootDescriptor {
    /// Replaces the shader register.
    pub fn with_shader_register(self, shader_register: u32) -> (r: Self)
        ensures
            r == (RootDescriptor { shader_register: shader_register, ..self }),
    {
        RootDescriptor { shader_register: shader_register, ..self }
    }

    /// As [`Self::with_shader_register`], on the value in place.
    pub fn set_shader_register(&mut self, shader_register: u32) -> (r: &mut Self)
        ensures
            (*r) == (RootDescriptor { shader_register: shader_register, ..(*old(self)) }),
            *final(self) == *final(r),
    {
        let v = (*self).with_shader_register(shader_register);
        *self = v;
        self
    }

    /// The shader register.
    pub fn shader_register(&self) -> (r: u32)
        ensures
            r == self.shader_register,
    {
        self.shader_register
    }

    /// Replaces the register space.
    pub fn with_register_space(self, register_space: u32) -> (r: Self)
        ensures
            r == (RootDescriptor { register_space: register_space, ..self }),
    {
        RootDescriptor { register_space: register_space, ..self }
    }

    /// As [`Self::with_register_space`], on the value in place.
    pub fn set_register_space(&mut self, register_space: u32) -> (r: &mut Self)
        ensures
            (*r) == (RootDescriptor { register_space: register_space, ..(*old(self)) }),
            *final(self) == *final(r),
    {
        let v = (*self).with_register_space(register_space);
        *self = v;
        self
    }

    /// The register space.
    pub fn register_space(&self) -> (r: u32)
        ensures
            r == self.register_space,
    {
        self.register_space
    }

    /// Replaces the flags.
    pub fn with_flags(self, flags: RootDescriptorFlags) -> (r: Self)
        ensures
            r == (RootDescriptor { flags: flags, ..self }),
    {
        RootDescriptor { flags: flags, ..self }
    }

    /// As [`Self::with_flags`], on the value in place.
    pub fn set_flags(&mut self, flags: RootDescriptorFlags) -> (r: &mut Self)
        ensures
            (*r) == (RootDescriptor { flags: flags, ..(*old(self)) }),
            *final(self) == *final(r),
    {
        let v = (*self).with_flags(flags);
        *self = v;
        self
    }

    /// The flags.
    pub fn flags(&self) -> (r: RootDescriptorFlags)
        ensures
            r == self.flags,
    {
        self.flags
    }
}

/// The kind-specific part of a root parameter (`D3D12_ROOT_PARAMETER1`'s union).
#[derive(Clone, Copy, Debug, PartialEq, Eq)]
pub enum RootParameterPayload<'a> {
    DescriptorTable(RootDescriptorTable<'a>),
    Constants(RootConstants),
    Descriptor(RootDescriptor),
}

/// `t` is one of the descriptor kinds of root parameter: CBV, SRV or UAV.
pub open spec fn is_root_descriptor_type(t: RootParameterType) -> bool {
    t == RootParameterType::Cbv || t == RootParameterType::Srv || t == RootParameterType::Uav
}

/// A root signature parameter (`D3D12_ROOT_PARAMETER1`): its kind tag, payload and visibility.
#[derive(Clone, Copy, Debug, PartialEq, Eq)]
pub struct RootParameter<'a> {
    pub parameter_type: RootParameterType,
    pub payload: RootParameterPayload<'a>,
    pub shader_visibility: ShaderVisibility,
}

impl<'a> Default for RootParameter<'a> {
    /// An empty descriptor table visible to all stages.
    fn default() -> (r: Self)
        ensures
            r == (RootParameter {
                parameter_type: RootParameterType::DescriptorTable,
                payload: RootParameterPayload::DescriptorTable(RootDescriptorTable { descriptor_ranges: &[] }),
                shader_visibility: ShaderVisibility::All,
            }),
    {
        RootParameter {
            parameter_type: RootParameterType::DescriptorTable,
            payload: RootParameterPayload::DescriptorTable(RootDescriptorTable { descriptor_ranges: &[] }),
            shader_visibility: ShaderVisibility::All,
        }
    }
}

impl<'a> RootParameter<'a> {
    /// The parameter type.
    pub fn parameter_type(&self) -> (r: RootParameterType)
        ensures
            r == self.parameter_type,
    {
        self.parameter_type
    }

    /// Replaces the shader visibility.
    pub fn with_shader_visibility(self, shader_visibility: ShaderVisibility) -> (r: Self)
        ensures
            r == (RootParameter { shader_visibility: shader_visibility, ..self }),
    {
        RootParameter { shader_visibility: shader_visibility, ..self }
    }

    /// As [`Self::with_shader_visibility`], on the value in place.
    pub fn set_shader_visibility(&mut self, shader_visibility: ShaderVisibility) -> (r: &mut Self)
        ensures
            (*r) == (RootParameter { shader_visibility: shader_visibility, ..(*old(self)) }),
            *final(self) == *final(r),
    {
        let v = (*self).with_shader_visibility(shader_visibility);
        *self = v;
        self
    }

    /// The shader visibility.
    pub fn shader_visibility(&self) -> (r: ShaderVisibility)
        ensures
            r == self.shader_visibility,
    {
        self.shader_visibility
    }

    /// This parameter made the descriptor table `table`.
    pub open spec fn holding_descriptor_table(self, table: RootDescriptorTable<'a>) -> Self {
        RootParameter {
            parameter_type: RootParameterType::DescriptorTable,
            payload: RootParameterPayload::DescriptorTable(table),
            ..self
        }
    }

    /// The descriptor table, when the parameter is tagged and filled as one.
    pub open spec fn descriptor_table_of(self) -> Option<RootDescriptorTable<'a>> {
        match (self.parameter_type, self.payload) {
            (RootParameterType::DescriptorTable, RootParameterPayload::DescriptorTable(t)) => Some(t),
            _ => None,
        }
    }

    /// This parameter made the inline constants `constants`.
    pub open spec fn holding_constants(self, constants: RootConstants) -> Self {
        RootParameter {
            parameter_type: RootParameterType::T32BitConstants,
            payload: RootParameterPayload::Constants(constants),
            ..self
        }
    }

    /// The inline constants, when the parameter is tagged and filled as such.
    pub open spec fn constants_of(self) -> Option<RootConstants> {
        match (self.parameter_type, self.payload) {
            (RootParameterType::T32BitConstants, RootParameterPayload::Constants(c)) => Some(c),
            _ => None,
        }
    }

    /// This parameter made the root descriptor `descriptor` of kind `kind`.
    pub open spec fn holding_descriptor(self, descriptor: RootDescriptor, kind: RootParameterType) -> Self {
        RootParameter { parameter_type: kind, payload: RootParameterPayload::Descriptor(descriptor), ..self }
    }

    /// The root descriptor, when the parameter is tagged CBV, SRV or UAV and filled as one.
    pub open spec fn descriptor_of(self) -> Option<RootDescriptor> {
        match self.payload {
            RootParameterPayload::Descriptor(d) => if is_root_descriptor_type(self.parameter_type) {
                Some(d)
            } else {
                None
            },
            _ => None,
        }
    }

    /// Turns the parameter into the descriptor table `descriptor_table`.
    pub fn new_descriptor_table(self, descriptor_table: &RootDescriptorTable<'a>) -> (r: Self)
        ensures
            r == self.holding_descriptor_table(*descriptor_table),
    {
        RootParameter {
            parameter_type: RootParameterType::DescriptorTable,
            payload: RootParameterPayload::DescriptorTable(*descriptor_table),
            ..self
        }
    }

    /// The descriptor table, when the parameter is tagged and filled as one.
    pub fn descriptor_table(&self) -> (r: Option<RootDescriptorTable<'a>>)
        ensures
            r == self.descriptor_table_of(),
    {
        match (self.parameter_type, self.payload) {
            (RootParameterType::DescriptorTable, RootParameterPayload::DescriptorTable(t)) => Some(t),
            _ => None,
        }
    }

    /// Turns the parameter into the inline constants `constants`.
    pub fn new_constants(self, constants: &RootConstants) -> (r: Self)
        ensures
            r == self.holding_constants(*constants),
    {
        RootParameter {
            parameter_type: RootParameterType::T32BitConstants,
            payload: RootParameterPayload::Constants(*constants),
            ..self
        }
    }

    /// The inline constants, when the parameter is tagged and filled as such.
    pub fn constants(&self) -> (r: Option<RootConstants>)
        ensures
            r == self.constants_of(),
    {
        match (self.parameter_type, self.payload) {
            (RootParameterType::T32BitConstants, RootParameterPayload::Constants(c)) => Some(c),
            _ => None,
        }
    }

    /// Turns the parameter into the root descriptor `descriptor` of kind `descriptor_type`,
    /// which is CBV, SRV or UAV.
    pub fn new_descriptor(self, descriptor: &RootDescriptor, descriptor_type: RootParameterType) -> (r: Self)
        requires
            is_root_descriptor_type(descriptor_type),
        ensures
            r == self.holding_descriptor(*descriptor, descriptor_type),
    {
        RootParameter { parameter_type: descriptor_type, payload: RootParameterPayload::Descriptor(*descriptor), ..self }
    }

    /// The root descriptor, when the parameter is tagged CBV, SRV or UAV and filled as one.
    pub fn descriptor(&self) -> (r: Option<RootDescriptor>)
        ensures
            r == self.descriptor_of(),
    {
        match self.payload {
            RootParameterPayload::Descriptor(d) => match self.parameter_type {
                RootParameterType::Cbv | RootParameterType::Srv | RootParameterType::Uav => Some(d),
                _ => None,
            },
            _ => None,
        }
    }
}

/// A root parameter made into one kind reads back as that kind, with what it was made of,
/// and as none of the other kinds.
pub proof fn lemma_root_parameter_kinds<'a>(
    p: RootParameter<'a>,
    table: RootDescriptorTable<'a>,
    constants: RootConstants,
    descriptor: RootDescriptor,
    kind: RootParameterType,
)
    requires
        is_root_descriptor_type(kind),
    ensures
        p.holding_descriptor_table(table).descriptor_table_of() == Some(table),
        p.holding_descriptor_table(table).constants_of() is None,
        p.holding_descriptor_table(table).descriptor_of() is None,
        p.holding_constants(constants).constants_of() == Some(constants),
        p.holding_constants(constants).descriptor_table_of() is None,
        p.holding_constants(constants).descriptor_of() is None,
        p.holding_descriptor(descriptor, kind).descriptor_of() == Some(descriptor),
        p.holding_descriptor(descriptor, kind).descriptor_table_of() is None,
        p.holding_descriptor(descriptor, kind).constants_of() is None,
        p.holding_descriptor(descriptor, kind).parameter_type == kind,
{
}

/// Description of a sampler (`D3D12_SAMPLER_DESC`); the level-of-detail values and the border colour are kept as IEEE-754 bit patterns.
#[derive(Clone, Copy, Debug, PartialEq, Eq)]
pub struct SamplerDesc {
    pub filter: Filter,
    pub address_u: TextureAddressMode,
    pub address_v: TextureAddressMode,
    pub address_w: TextureAddressMode,
    pub mip_lod_bias_bits: u32,
    pub max_anisotropy: u32,
    pub comparison_func: ComparisonFunc,
    pub border_color_bits: [u32; 4],
    pub min_lod_bits: u32,
    pub max_lod_bits: u32,
}

impl Default for SamplerDesc {
    /// Point filtering, wrapped addressing, no bias or anisotropy, a never-passing comparison, a transparent black border and a zero level-of-detail range.
    fn default() -> (r: Self)
        ensures
            r == (SamplerDesc {
                filter: Filter::MinMagMipPoint,
                address_u: TextureAddressMode::Wrap,
                address_v: TextureAddressMode::Wrap,
                address_w: TextureAddressMode::Wrap,
                mip_lod_bias_bits: 0,
                max_anisotropy: 0,
                comparison_func: ComparisonFunc::Never,
                border_color_bits: [0u32, 0u32, 0u32, 0u32],
                min_lod_bits: 0,
                max_lod_bits: 0,
            }),
    {
        SamplerDesc {
            filter: Filter::MinMagMipPoint,
            address_u: TextureAddressMode::Wrap,
            address_v: TextureAddressMode::Wrap,
            address_w: TextureAddressMode::Wrap,
            mip_lod_bias_bits: 0,
            max_anisotropy: 0,
            comparison_func: ComparisonFunc::Never,
            border_color_bits: [0u32, 0u32, 0u32, 0u32],
            min_lod_bits: 0,
            max_lod_bits: 0,
        }
    }
}

impl SamplerDesc {
    /// Replaces the filter.
    pub fn with_filter(self, filter: Filter) -> (r: Self)
        ensures
            r == (SamplerDesc { filter: filter, ..self }),
    {
        SamplerDesc { filter: filter, ..self }
    }

    /// As [`Self::with_filter`], on the value in place.
    pub fn set_filter(&mut self, filter: Filter) -> (r: &mut Self)
        ensures
            (*r) == (SamplerDesc { filter: filter, ..(*old(self)) }),
            *final(self) == *final(r),
    {
        let v = (*self).with_filter(filter);
        *self = v;
        self
    }

    /// The filter.
    pub fn filter(&self) -> (r: Filter)
        ensures
            r == self.filter,
    {
        self.filter
    }

    /// Replaces the address u.
    pub fn with_address_u(self, address_u: TextureAddressMode) -> (r: Self)
        ensures
            r == (SamplerDesc { address_u: address_u, ..self }),
    {
        SamplerDesc { address_u: address_u, ..self }
    }

    /// As [`Self::with_address_u`], on the value in place.
    pub fn set_address_u(&mut self, address_u: TextureAddressMode) -> (r: &mut Self)
        ensures
            (*r) == (SamplerDesc { address_u: address_u, ..(*old(self)) }),
            *final(self) == *final(r),
    {
        let v = (*self).with_address_u(address_u);
        *self = v;
        self
    }

    /// The address u.
    pub fn address_u(&self) -> (r: TextureAddressMode)
        ensures
            r == self.address_u,
    {
        self.address_u
    }

    /// Replaces the address v.
    pub fn with_address_v(self, address_v: TextureAddressMode) -> (r: Self)
        ensures
            r == (SamplerDesc { address_v: address_v, ..self }),
    {
        SamplerDesc { address_v: address_v, ..self }
    }

    /// As [`Self::with_address_v`], on the value in place.
    pub fn set_address_v(&mut self, address_v: TextureAddressMode) -> (r: &mut Self)
        ensures
            (*r) == (SamplerDesc { address_v: address_v, ..(*old(self)) }),
            *final(self) == *final(r),
    {
        let v = (*self).with_address_v(address_v);
        *self = v;
        self
    }

    /// The address v.
    pub fn address_v(&self) -> (r: TextureAddressMode)
        ensures
            r == self.address_v,
    {
        self.address_v
    }

    /// Replaces the address w.
    pub fn with_address_w(self, address_w: TextureAddressMode) -> (r: Self)
        ensures
            r == (SamplerDesc { address_w: address_w, ..self }),
    {
        SamplerDesc { address_w: address_w, ..self }
    }

    /// As [`Self::with_address_w`], on the value in place.
    pub fn set_address_w(&mut self, address_w: TextureAddressMode) -> (r: &mut Self)
        ensures
            (*r) == (SamplerDesc { address_w: address_w, ..(*old(self)) }),
            *final(self) == *final(r),
    {
        let v = (*self).with_address_w(address_w);
        *self = v;
        self
    }

    /// The address w.
    pub fn address_w(&self) -> (r: TextureAddressMode)
        ensures
            r == self.address_w,
    {
        self.address_w
    }

    /// Replaces the mip lod bias bits.
    pub fn with_mip_lod_bias_bits(self, mip_lod_bias_bits: u32) -> (r: Self)
        ensures
            r == (SamplerDesc { mip_lod_bias_bits: mip_lod_bias_bits, ..self }),
    {
        SamplerDesc { mip_lod_bias_bits: mip_lod_bias_bits, ..self }
    }

    /// As [`Self::with_mip_lod_bias_bits`], on the value in place.
    pub fn set_mip_lod_bias_bits(&mut self, mip_lod_bias_bits: u32) -> (r: &mut Self)
        ensures
            (*r) == (SamplerDesc { mip_lod_bias_bits: mip_lod_bias_bits, ..(*old(self)) }),
            *final(self) == *final(r),
    {
        let v = (*self).with_mip_lod_bias_bits(mip_lod_bias_bits);
        *self = v;
        self
    }

    /// The mip lod bias bits.
    pub fn mip_lod_bias_bits(&self) -> (r: u32)
        ensures
            r == self.mip_lod_bias_bits,
    {
        self.mip_lod_bias_bits
    }

    /// Replaces the max anisotropy.
    pub fn with_max_anisotropy(self, max_anisotropy: u32) -> (r: Self)
        ensures
            r == (SamplerDesc { max_anisotropy: max_anisotropy, ..self }),
    {
        SamplerDesc { max_anisotropy: max_anisotropy, ..self }
    }

    /// As [`Self::with_max_anisotropy`], on the value in place.
    pub fn set_max_anisotropy(&mut self, max_anisotropy: u32) -> (r: &mut Self)
        ensures
            (*r) == (SamplerDesc { max_anisotropy: max_anisotropy, ..(*old(self)) }),
            *final(self) == *final(r),
    {
        let v = (*self).with_max_anisotropy(max_anisotropy);
        *self = v;
        self
    }

    /// The max anisotropy.
    pub fn max_anisotropy(&self) -> (r: u32)
        ensures
            r == self.max_anisotropy,
    {
        self.max_anisotropy
    }

    /// Replaces the comparison func.
    pub fn with_comparison_func(self, comparison_func: ComparisonFunc) -> (r: Self)
        ensures
            r == (SamplerDesc { comparison_func: comparison_func, ..self }),
    {
        SamplerDesc { comparison_func: comparison_func, ..self }
    }

    /// As [`Self::with_comparison_func`], on the value in place.
    pub fn set_comparison_func(&mut self, comparison_func: ComparisonFunc) -> (r: &mut Self)
        ensures
            (*r) == (SamplerDesc { comparison_func: comparison_func, ..(*old(self)) }),
            *final(self) == *final(r),
    {
        let v = (*self).with_comparison_func(comparison_func);
        *self = v;
        self
    }

    /// The comparison func.
    pub fn comparison_func(&self) -> (r: ComparisonFunc)
        ensures
            r == self.comparison_func,
    {
        self.comparison_func
    }

    /// Replaces the border color bits.
    pub fn with_border_color_bits(self, border_color_bits: [u32; 4]) -> (r: Self)
        ensures
            r == (SamplerDesc { border_color_bits: border_color_bits, ..self }),
    {
        SamplerDesc { border_color_bits: border_color_bits, ..self }
    }

    /// As [`Self::with_border_color_bits`], on the value in place.
    pub fn set_border_color_bits(&mut self, border_color_bits: [u32; 4]) -> (r: &mut Self)
        ensures
            (*r) == (SamplerDesc { border_color_bits: border_color_bits, ..(*old(self)) }),
            *final(self) == *final(r),
    {
        let v = (*self).with_border_color_bits(border_color_bits);
        *self = v;
        self
    }

    /// The border color bits.
    pub fn border_color_bits(&self) -> (r: [u32; 4])
        ensures
            r == self.border_color_bits,
    {
        self.border_color_bits
    }

    /// Replaces the min lod bits.
    pub fn with_min_lod_bits(self, min_lod_bits: u32) -> (r: Self)
        ensures
            r == (SamplerDesc { min_lod_bits: min_lod_bits, ..self }),
    {
        SamplerDesc { min_lod_bits: min_lod_bits, ..self }
    }

    /// As [`Self::with_min_lod_bits`], on the value in place.
    pub fn set_min_lod_bits(&mut self, min_lod_bits: u32) -> (r: &mut Self)
        ensures
            (*r) == (SamplerDesc { min_lod_bits: min_lod_bits, ..(*old(self)) }),
            *final(self) == *final(r),
    {
        let v = (*self).with_min_lod_bits(min_lod_bits);
        *self = v;
        self
    }

    /// The min lod bits.
    pub fn min_lod_bits(&self) -> (r: u32)
        ensures
            r == self.min_lod_bits,
    {
        self.min_lod_bits
    }

    /// Replaces the max lod bits.
    pub fn with_max_lod_bits(self, max_lod_bits: u32) -> (r: Self)
        ensures
            r == (SamplerDesc { max_lod_bits: max_lod_bits, ..self }),
    {
        SamplerDesc { max_lod_bits: max_lod_bits, ..self }
    }

    /// As [`Self::with_max_lod_bits`], on the value in place.
    pub fn set_max_lod_bits(&mut self, max_lod_bits: u32) -> (r: &mut Self)
        ensures
            (*r) == (SamplerDesc { max_lod_bits: max_lod_bits, ..(*old(self)) }),
            *final(self) == *final(r),
    {
        let v = (*self).with_max_lod_bits(max_lod_bits);
        *self = v;
        self
    }

    /// The max lod bits.
    pub fn max_lod_bits(&self) -> (r: u32)
        ensures
            r == self.max_lod_bits,
    {
        self.max_lod_bits
    }
}

/// Description of a sampler baked into a root signature (`D3D12_STATIC_SAMPLER_DESC`); the level-of-detail values are kept as IEEE-754 bit patterns.
#[derive(Clone, Copy, Debug, PartialEq, Eq)]
pub struct StaticSamplerDesc {
    pub filter: Filter,
    pub address_u: TextureAddressMode,
    pub address_v: TextureAddressMode,
    pub address_w: TextureAddressMode,
    pub mip_lod_bias_bits: u32,
    pub max_anisotropy: u32,
    pub comparison_func: ComparisonFunc,
    pub border_color: StaticBorderColor,
    pub min_lod_bits: u32,
    pub max_lod_bits: u32,
    pub shader_register: u32,
    pub register_space: u32,
    pub shader_visibility: ShaderVisibility,
}

impl Default for StaticSamplerDesc {
    /// Sixteen-fold anisotropic, wrapped sampling with a less-or-equal comparison, an opaque white border, levels of detail from `0.0` to `f32::MAX`, register zero of space zero, visible to all stages.
    fn default() -> (r: Self)
        ensures
            r == (StaticSamplerDesc {
                filter: Filter::Anisotropic,
                address_u: TextureAddressMode::Wrap,
                address_v: TextureAddressMode::Wrap,
                address_w: TextureAddressMode::Wrap,
                mip_lod_bias_bits: 0,
                max_anisotropy: 16,
                comparison_func: ComparisonFunc::LessEqual,
                border_color: StaticBorderColor::OpaqueWhite,
                min_lod_bits: 0,
                max_lod_bits: 0x7f7f_ffff,
                shader_register: 0,
                register_space: 0,
                shader_visibility: ShaderVisibility::All,
            }),
    {
        StaticSamplerDesc {
            filter: Filter::Anisotropic,
            address_u: TextureAddressMode::Wrap,
            address_v: TextureAddressMode::Wrap,
            address_w: TextureAddressMode::Wrap,
            mip_lod_bias_bits: 0,
            max_anisotropy: 16,
            comparison_func: ComparisonFunc::LessEqual,
            border_color: StaticBorderColor::OpaqueWhite,
            min_lod_bits: 0,
            max_lod_bits: 0x7f7f_ffff,
            shader_register: 0,
            register_space: 0,
            shader_visibility: ShaderVisibility::All,
        }
    }
}

impl StaticSamplerDesc {
    /// Replaces the filter.
    pub fn with_filter(self, filter: Filter) -> (r: Self)
        ensures
            r == (StaticSamplerDesc { filter: filter, ..self }),
    {
        StaticSamplerDesc { filter: filter, ..self }
    }

    /// As [`Self::with_filter`], on the value in place.
    pub fn set_filter(&mut self, filter: Filter) -> (r: &mut Self)
        ensures
            (*r) == (StaticSamplerDesc { filter: filter, ..(*old(self)) }),
            *final(self) == *final(r),
    {
        let v = (*self).with_filter(filter);
        *self = v;
        self
    }

    /// The filter.
    pub fn filter(&self) -> (r: Filter)
        ensures
            r == self.filter,
    {
        self.filter
    }

    /// Replaces the address u.
    pub fn with_address_u(self, address_u: TextureAddressMode) -> (r: Self)
        ensures
            r == (StaticSamplerDesc { address_u: address_u, ..self }),
    {
        StaticSamplerDesc { address_u: address_u, ..self }
    }

    /// As [`Self::with_address_u`], on the value in place.
    pub fn set_address_u(&mut self, address_u: TextureAddressMode) -> (r: &mut Self)
        ensures
            (*r) == (StaticSamplerDesc { address_u: address_u, ..(*old(self)) }),
            *final(self) == *final(r),
    {
        let v = (*self).with_address_u(address_u);
        *self = v;
        self
    }

    /// The address u.
    pub fn address_u(&self) -> (r: TextureAddressMode)
        ensures
            r == self.address_u,
    {
        self.address_u
    }

    /// Replaces the address v.
    pub fn with_address_v(self, address_v: TextureAddressMode) -> (r: Self)
        ensures
            r == (StaticSamplerDesc { address_v: address_v, ..self }),
    {
        StaticSamplerDesc { address_v: address_v, ..self }
    }

    /// As [`Self::with_address_v`], on the value in place.
    pub fn set_address_v(&mut self, address_v: TextureAddressMode) -> (r: &mut Self)
        ensures
            (*r) == (StaticSamplerDesc { address_v: address_v, ..(*old(self)) }),
            *final(self) == *final(r),
    {
        let v = (*self).with_address_v(address_v);
        *self = v;
        self
    }

    /// The address v.
    pub fn address_v(&self) -> (r: TextureAddressMode)
        ensures
            r == self.address_v,
    {
        self.address_v
    }

    /// Replaces the address w.
    pub fn with_address_w(self, address_w: TextureAddressMode) -> (r: Self)
        ensures
            r == (StaticSamplerDesc { address_w: address_w, ..self }),
    {
        StaticSamplerDesc { address_w: address_w, ..self }
    }

    /// As [`Self::with_address_w`], on the value in place.
    pub fn set_address_w(&mut self, address_w: TextureAddressMode) -> (r: &mut Self)
        ensures
            (*r) == (StaticSamplerDesc { address_w: address_w, ..(*old(self)) }),
            *final(self) == *final(r),
    {
        let v = (*self).with_address_w(address_w);
        *self = v;
        self
    }

    /// The address w.
    pub fn address_w(&self) -> (r: TextureAddressMode)
        ensures
            r == self.address_w,
    {
        self.address_w
    }

    /// Replaces the mip lod bias bits.
    pub fn with_mip_lod_bias_bits(self, mip_lod_bias_bits: u32) -> (r: Self)
        ensures
            r == (StaticSamplerDesc { mip_lod_bias_bits: mip_lod_bias_bits, ..self }),
    {
        StaticSamplerDesc { mip_lod_bias_bits: mip_lod_bias_bits, ..self }
    }

    /// As [`Self::with_mip_lod_bias_bits`], on the value in place.
    pub fn set_mip_lod_bias_bits(&mut self, mip_lod_bias_bits: u32) -> (r: &mut Self)
        ensures
            (*r) == (StaticSamplerDesc { mip_lod_bias_bits: mip_lod_bias_bits, ..(*old(self)) }),
            *final(self) == *final(r),
    {
        let v = (*self).with_mip_lod_bias_bits(mip_lod_bias_bits);
        *self = v;
        self
    }

    /// The mip lod bias bits.
    pub fn mip_lod_bias_bits(&self) -> (r: u32)
        ensures
            r == self.mip_lod_bias_bits,
    {
        self.mip_lod_bias_bits
    }

    /// Replaces the max anisotropy.
    pub fn with_max_anisotropy(self, max_anisotropy: u32) -> (r: Self)
        ensures
            r == (StaticSamplerDesc { max_anisotropy: max_anisotropy, ..self }),
    {
        StaticSamplerDesc { max_anisotropy: max_anisotropy, ..self }
    }

    /// As [`Self::with_max_anisotropy`], on the value in place.
    pub fn set_max_anisotropy(&mut self, max_anisotropy: u32) -> (r: &mut Self)
        ensures
            (*r) == (StaticSamplerDesc { max_anisotropy: max_anisotropy, ..(*old(self)) }),
            *final(self) == *final(r),
    {
        let v = (*self).with_max_anisotropy(max_anisotropy);
        *self = v;
        self
    }

    /// The max anisotropy.
    pub fn max_anisotropy(&self) -> (r: u32)
        ensures
            r == self.max_anisotropy,
    {
        self.max_anisotropy
    }

    /// Replaces the comparison func.
    pub fn with_comparison_func(self, comparison_func: ComparisonFunc) -> (r: Self)
        ensures
            r == (StaticSamplerDesc { comparison_func: comparison_func, ..self }),
    {
        StaticSamplerDesc { comparison_func: comparison_func, ..self }
    }

    /// As [`Self::with_comparison_func`], on the value in place.
    pub fn set_comparison_func(&mut self, comparison_func: ComparisonFunc) -> (r: &mut Self)
        ensures
            (*r) == (StaticSamplerDesc { comparison_func: comparison_func, ..(*old(self)) }),
            *final(self) == *final(r),
    {
        let v = (*self).with_comparison_func(comparison_func);
        *self = v;
        self
    }

    /// The comparison func.
    pub fn comparison_func(&self) -> (r: ComparisonFunc)
        ensures
            r == self.comparison_func,
    {
        self.comparison_func
    }

    /// Replaces the border color.
    pub fn with_border_color(self, border_color: StaticBorderColor) -> (r: Self)
        ensures
            r == (StaticSamplerDesc { border_color: border_color, ..self }),
    {
        StaticSamplerDesc { border_color: border_color, ..self }
    }

    /// As [`Self::with_border_color`], on the value in place.
    pub fn set_border_color(&mut self, border_color: StaticBorderColor) -> (r: &mut Self)
        ensures
            (*r) == (StaticSamplerDesc { border_color: border_color, ..(*old(self)) }),
            *final(self) == *final(r),
    {
        let v = (*self).with_border_color(border_color);
        *self = v;
        self
    }

    /// The border color.
    pub fn border_color(&self) -> (r: StaticBorderColor)
        ensures
            r == self.border_color,
    {
        self.border_color
    }

    /// Replaces the min lod bits.
    pub fn with_min_lod_bits(self, min_lod_bits: u32) -> (r: Self)
        ensures
            r == (StaticSamplerDesc { min_lod_bits: min_lod_bits, ..self }),
    {
        StaticSamplerDesc { min_lod_bits: min_lod_bits, ..self }
    }

    /// As [`Self::with_min_lod_bits`], on the value in place.
    pub fn set_min_lod_bits(&mut self, min_lod_bits: u32) -> (r: &mut Self)
        ensures
            (*r) == (StaticSamplerDesc { min_lod_bits: min_lod_bits, ..(*old(self)) }),
            *final(self) == *final(r),
    {
        let v = (*self).with_min_lod_bits(min_lod_bits);
        *self = v;
        self
    }

    /// The min lod bits.
    pub fn min_lod_bits(&self) -> (r: u32)
        ensures
            r == self.min_lod_bits,
    {
        self.min_lod_bits
    }

    /// Replaces the max lod bits.
    pub fn with_max_lod_bits(self, max_lod_bits: u32) -> (r: Self)
        ensures
            r == (StaticSamplerDesc { max_lod_bits: max_lod_bits, ..self }),
    {
        StaticSamplerDesc { max_lod_bits: max_lod_bits, ..self }
    }

    /// As [`Self::with_max_lod_bits`], on the value in place.
    pub fn set_max_lod_bits(&mut self, max_lod_bits: u32) -> (r: &mut Self)
        ensures
            (*r) == (StaticSamplerDesc { max_lod_bits: max_lod_bits, ..(*old(self)) }),
            *final(self) == *final(r),
    {
        let v = (*self).with_max_lod_bits(max_lod_bits);
        *self = v;
        self
    }

    /// The max lod bits.
    pub fn max_lod_bits(&self) -> (r: u32)
        ensures
            r == self.max_lod_bits,
    {
        self.max_lod_bits
    }

    /// Replaces the shader register.
    pub fn with_shader_register(self, shader_register: u32) -> (r: Self)
        ensures
            r == (StaticSamplerDesc { shader_register: shader_register, ..self }),
    {
        StaticSamplerDesc { shader_register: shader_register, ..self }
    }

    /// As [`Self::with_shader_register`], on the value in place.
    pub fn set_shader_register(&mut self, shader_register: u32) -> (r: &mut Self)
        ensures
            (*r) == (StaticSamplerDesc { shader_register: shader_register, ..(*old(self)) }),
            *final(self) == *final(r),
    {
        let v = (*self).with_shader_register(shader_register);
        *self = v;
        self
    }

    /// The shader register.
    pub fn shader_register(&self) -> (r: u32)
        ensures
            r == self.shader_register,
    {
        self.shader_register
    }

    /// Replaces the register space.
    pub fn with_register_space(self, register_space: u32) -> (r: Self)
        ensures
            r == (StaticSamplerDesc { register_space: register_space, ..self }),
    {
        StaticSamplerDesc { register_space: register_space, ..self }
    }

    /// As [`Self::with_register_space`], on the value in place.
    pub fn set_register_space(&mut self, register_space: u32) -> (r: &mut Self)
        ensures
            (*r) == (StaticSamplerDesc { register_space: register_space, ..(*old(self)) }),
            *final(self) == *final(r),
    {
        let v = (*self).with_register_space(register_space);
        *self = v;
        self
    }

    /// The register space.
    pub fn register_space(&self) -> (r: u32)
        ensures
            r == self.register_space,
    {
        self.register_space
    }

    /// Replaces the shader visibility.
    pub fn with_shader_visibility(self, shader_visibility: ShaderVisibility) -> (r: Self)
        ensures
            r == (StaticSamplerDesc { shader_visibility: shader_visibility, ..self }),
    {
        StaticSamplerDesc { shader_visibility: shader_visibility, ..self }
    }

    /// As [`Self::with_shader_visibility`], on the value in place.
    pub fn set_shader_visibility(&mut self, shader_visibility: ShaderVisibility) -> (r: &mut Self)
        ensures
            (*r) == (StaticSamplerDesc { shader_visibility: shader_visibility, ..(*old(self)) }),
            *final(self) == *final(r),
    {
        let v = (*self).with_shader_visibility(shader_visibility);
        *self = v;
        self
    }

    /// The shader visibility.
    pub fn shader_visibility(&self) -> (r: ShaderVisibility)
        ensures
            r == self.shader_visibility,
    {
        self.shader_visibility
    }
}

/// Description of a version 1.1 root signature (`D3D12_ROOT_SIGNATURE_DESC1`).
#[derive(Clone, Copy, Debug, PartialEq, Eq)]
pub struct RootSignatureDesc<'a, 'b> {
    pub parameters: &'a [RootParameter<'a>],
    pub static_samplers: &'b [StaticSamplerDesc],
    pub flags: RootSignatureFlags,
}

impl<'a, 'b> Default for RootSignatureDesc<'a, 'b> {
    /// No parameters, no static samplers, no flags.
    fn default() -> (r: Self)
        ensures
            r == (RootSignatureDesc {
                parameters: &[],
                static_samplers: &[],
                flags: (RootSignatureFlags { bits: 0 }),
            }),
    {
        RootSignatureDesc {
            parameters: &[],
            static_samplers: &[],
            flags: RootSignatureFlags::empty(),
        }
    }
}

impl<'a, 'b> RootSignatureDesc<'a, 'b> {
    /// Replaces the parameters.
    pub fn with_parameters(self, parameters: &'a [RootParameter<'a>]) -> (r: Self)
        ensures
            r == (RootSignatureDesc { parameters: parameters, ..self }),
    {
        RootSignatureDesc { parameters: parameters, ..self }
    }

    /// As [`Self::with_parameters`], on the value in place.
    pub fn set_parameters(&mut self, parameters: &'a [RootParameter<'a>]) -> (r: &mut Self)
        ensures
            (*r) == (RootSignatureDesc { parameters: parameters, ..(*old(self)) }),
            *final(self) == *final(r),
    {
        let v = (*self).with_parameters(parameters);
        *self = v;
        self
    }

    /// The parameters.
    pub fn parameters(&self) -> (r: &'a [RootParameter<'a>])
        ensures
            r == self.parameters,
    {
        self.parameters
    }

    /// Replaces the static samplers.
    pub fn with_static_samplers(self, static_samplers: &'b [StaticSamplerDesc]) -> (r: Self)
        ensures
            r == (RootSignatureDesc { static_samplers: static_samplers, ..self }),
    {
        RootSignatureDesc { static_samplers: static_samplers, ..self }
    }

    /// As [`Self::with_static_samplers`], on the value in place.
    pub fn set_static_samplers(&mut self, static_samplers: &'b [StaticSamplerDesc]) -> (r: &mut Self)
        ensures
            (*r) == (RootSignatureDesc { static_samplers: static_samplers, ..(*old(self)) }),
            *final(self) == *final(r),
    {
        let v = (*self).with_static_samplers(static_samplers);
        *self = v;
        self
    }

    /// The static samplers.
    pub fn static_samplers(&self) -> (r: &'b [StaticSamplerDesc])
        ensures
            r == self.static_samplers,
    {
        self.static_samplers
    }

    /// Replaces the flags.
    pub fn with_flags(self, flags: RootSignatureFlags) -> (r: Self)
        ensures
            r == (RootSignatureDesc { flags: flags, ..self }),
    {
        RootSignatureDesc { flags: flags, ..self }
    }

    /// As [`Self::with_flags`], on the value in place.
    pub fn set_flags(&mut self, flags: RootSignatureFlags) -> (r: &mut Self)
        ensures
            (*r) == (RootSignatureDesc { flags: flags, ..(*old(self)) }),
            *final(self) == *final(r),
    {
        let v = (*self).with_flags(flags);
        *self = v;
        self
    }

    /// The flags.
    pub fn flags(&self) -> (r: RootSignatureFlags)
        ensures
            r == self.flags,
    {
        self.flags
    }
}

/// A root signature description with its version (`D3D12_VERSIONED_ROOT_SIGNATURE_DESC`).
#[derive(Clone, Copy, Debug, PartialEq, Eq)]
pub struct VersionedRootSignatureDesc<'a, 'b> {
    pub version: RootSignatureVersion,
    pub desc_1_1: RootSignatureDesc<'a, 'b>,
}

impl<'a, 'b> Default for VersionedRootSignatureDesc<'a, 'b> {
    /// An empty description tagged as version 1.0.
    fn default() -> (r: Self)
        ensures
            r == (VersionedRootSignatureDesc {
                version: RootSignatureVersion::V1_0,
                desc_1_1: (RootSignatureDesc { parameters: &[], static_samplers: &[], flags: RootSignatureFlags { bits: 0 } }),
            }),
    {
        VersionedRootSignatureDesc {
            version: RootSignatureVersion::V1_0,
            desc_1_1: RootSignatureDesc { parameters: &[], static_samplers: &[], flags: RootSignatureFlags::empty() },
        }
    }
}

impl<'a, 'b> VersionedRootSignatureDesc<'a, 'b> {
    /// Uses the version 1.1 description `desc_1_1`.
    pub fn with_desc_1_1(self, desc_1_1: &RootSignatureDesc<'a, 'b>) -> (r: Self)
        ensures
            r.version == RootSignatureVersion::V1_1,
            r.desc_1_1 == *desc_1_1,
    {
        VersionedRootSignatureDesc { version: RootSignatureVersion::V1_1, desc_1_1: *desc_1_1 }
    }

    /// As [`Self::with_desc_1_1`], on the value in place.
    pub fn set_desc_1_1(&mut self, desc_1_1: &RootSignatureDesc<'a, 'b>) -> (r: &mut Self)
        ensures
            (*r).version == RootSignatureVersion::V1_1,
            (*r).desc_1_1 == *desc_1_1,
            *final(self) == *final(r),
    {
        let v = (*self).with_desc_1_1(desc_1_1);
        *self = v;
        self
    }

    /// The version 1.1 description.
    pub fn desc_1_1(&self) -> (r: RootSignatureDesc<'a, 'b>)
        ensures
            r == self.desc_1_1,
    {
        self.desc_1_1
    }
}

} // verus!
