//! Swapchain and adapter descriptions.

use vstd::prelude::*;
use vstd::string::{StrSliceExecFns, StringExecFns};

use crate::enums::{AlphaMode, Format, Scaling, SwapChainFlags, SwapEffect, Usage};

verus! {

/// Multisampling parameters of a resource (`DXGI_SAMPLE_DESC`).
#[derive(Clone, Copy, Debug, PartialEq, Eq)]
pub struct SampleDesc {
    pub count: u32,
    pub quality: u32,
}

impl Default for SampleDesc {
    /// One sample per pixel at quality level zero.
    fn default() -> (r: Self)
        ensures
            r == (SampleDesc {
                count: 1,
                quality: 0,
            }),
    {
        SampleDesc {
            count: 1,
            quality: 0,
        }
    }
}

impl SampleDesc {
    /// Replaces the count.
    pub fn with_count(self, count: u32) -> (r: Self)
        ensures
            r == (SampleDesc { count: count, ..self }),
    {
        SampleDesc { count: count, ..self }
    }

    /// As [`Self::with_count`], on the value in place.
    pub fn set_count(&mut self, count: u32) -> (r: &mut Self)
        ensures
            (*r) == (SampleDesc { count: count, ..(*old(self)) }),
            *final(self) == *final(r),
    {
        let v = (*self).with_count(count);
        *self = v;
        self
    }

    /// The count.
    pub fn count(&self) -> (r: u32)
        ensures
            r == self.count,
    {
        self.count
    }

    /// Replaces the quality.
    pub fn with_quality(self, quality: u32) -> (r: Self)
        ensures
            r == (SampleDesc { quality: quality, ..self }),
    {
        SampleDesc { quality: quality, ..self }
    }

    /// As [`Self::with_quality`], on the value in place.
    pub fn set_quality(&mut self, quality: u32) -> (r: &mut Self)
        ensures
            (*r) == (SampleDesc { quality: quality, ..(*old(self)) }),
            *final(self) == *final(r),
    {
        let v = (*self).with_quality(quality);
        *self = v;
        self
    }

    /// The quality.
    pub fn quality(&self) -> (r: u32)
        ensures
            r == self.quality,
    {
        self.quality
    }
}

/// Description of a swap chain (`DXGI_SWAP_CHAIN_DESC1`).
#[derive(Clone, Copy, Debug, PartialEq, Eq)]
pub struct SwapchainDesc {
    pub width: u32,
    pub height: u32,
    pub format: Format,
    pub stereo: bool,
    pub sample_desc: SampleDesc,
    pub buffer_usage: Usage,
    pub buffer_count: u32,
    pub scaling: Scaling,
    pub swap_effect: SwapEffect,
    pub alpha_mode: AlphaMode,
    pub flags: SwapChainFlags,
}

impl Default for SwapchainDesc {
    /// A double-buffered, tearing-capable flip-discard chain of `R8G8B8A8_UNorm` render target buffers.
    fn default() -> (r: Self)
        ensures
            r == (SwapchainDesc {
                width: 0,
                height: 0,
                format: Format::R8G8B8A8_UNorm,
                stereo: false,
                sample_desc: (SampleDesc { count: 1, quality: 0 }),
                buffer_usage: (Usage { bits: 0x20 }),
                buffer_count: 2,
                scaling: Scaling::Stretch,
                swap_effect: SwapEffect::FlipDiscard,
                alpha_mode: AlphaMode::Unspecified,
                flags: (SwapChainFlags { bits: 0x800 }),
            }),
    {
        SwapchainDesc {
            width: 0,
            height: 0,
            format: Format::R8G8B8A8_UNorm,
            stereo: false,
            sample_desc: SampleDesc::default(),
            buffer_usage: Usage::render_target_output(),
            buffer_count: 2,
            scaling: Scaling::Stretch,
            swap_effect: SwapEffect::FlipDiscard,
            alpha_mode: AlphaMode::Unspecified,
            flags: SwapChainFlags::allow_tearing(),
        }
    }
}

impl SwapchainDesc {
    /// Replaces the width.
    pub fn with_width(self, width: u32) -> (r: Self)
        ensures
            r == (SwapchainDesc { width: width, ..self }),
    {
        SwapchainDesc { width: width, ..self }
    }

    /// As [`Self::with_width`], on the value in place.
    pub fn set_width(&mut self, width: u32) -> (r: &mut Self)
        ensures
            (*r) == (SwapchainDesc { width: width, ..(*old(self)) }),
            *final(self) == *final(r),
    {
        let v = (*self).with_width(width);
        *self = v;
        self
    }

    /// The width.
    pub fn width(&self) -> (r: u32)
        ensures
            r == self.width,
    {
        self.width
    }

    /// Replaces the height.
    pub fn with_height(self, height: u32) -> (r: Self)
        ensures
            r == (SwapchainDesc { height: height, ..self }),
    {
        SwapchainDesc { height: height, ..self }
    }

    /// As [`Self::with_height`], on the value in place.
    pub fn set_height(&mut self, height: u32) -> (r: &mut Self)
        ensures
            (*r) == (SwapchainDesc { height: height, ..(*old(self)) }),
            *final(self) == *final(r),
    {
        let v = (*self).with_height(height);
        *self = v;
        self
    }

    /// The height.
    pub fn height(&self) -> (r: u32)
        ensures
            r == self.height,
    {
        self.height
    }

    /// Replaces the format.
    pub fn with_format(self, format: Format) -> (r: Self)
        ensures
            r == (SwapchainDesc { format: format, ..self }),
    {
        SwapchainDesc { format: format, ..self }
    }

    /// As [`Self::with_format`], on the value in place.
    pub fn set_format(&mut self, format: Format) -> (r: &mut Self)
        ensures
            (*r) == (SwapchainDesc { format: format, ..(*old(self)) }),
            *final(self) == *final(r),
    {
        let v = (*self).with_format(format);
        *self = v;
        self
    }

    /// The format.
    pub fn format(&self) -> (r: Format)
        ensures
            r == self.format,
    {
        self.format
    }

    /// Replaces the stereo.
    pub fn with_stereo(self, stereo: bool) -> (r: Self)
        ensures
            r == (SwapchainDesc { stereo: stereo, ..self }),
    {
        SwapchainDesc { stereo: stereo, ..self }
    }

    /// As [`Self::with_stereo`], on the value in place.
    pub fn set_stereo(&mut self, stereo: bool) -> (r: &mut Self)
        ensures
            (*r) == (SwapchainDesc { stereo: stereo, ..(*old(self)) }),
            *final(self) == *final(r),
    {
        let v = (*self).with_stereo(stereo);
        *self = v;
        self
    }

    /// The stereo.
    pub fn stereo(&self) -> (r: bool)
        ensures
            r == self.stereo,
    {
        self.stereo
    }

    /// Replaces the sample desc.
    pub fn with_sample_desc(self, sample_desc: &SampleDesc) -> (r: Self)
        ensures
            r == (SwapchainDesc { sample_desc: *sample_desc, ..self }),
    {
        SwapchainDesc { sample_desc: *sample_desc, ..self }
    }

    /// As [`Self::with_sample_desc`], on the value in place.
    pub fn set_sample_desc(&mut self, sample_desc: &SampleDesc) -> (r: &mut Self)
        ensures
            (*r) == (SwapchainDesc { sample_desc: *sample_desc, ..(*old(self)) }),
            *final(self) == *final(r),
    {
        let v = (*self).with_sample_desc(sample_desc);
        *self = v;
        self
    }

    /// The sample desc.
    pub fn sample_desc(&self) -> (r: SampleDesc)
        ensures
            r == self.sample_desc,
    {
        self.sample_desc
    }

    /// Replaces the buffer usage.
    pub fn with_buffer_usage(self, buffer_usage: Usage) -> (r: Self)
        ensures
            r == (SwapchainDesc { buffer_usage: buffer_usage, ..self }),
    {
        SwapchainDesc { buffer_usage: buffer_usage, ..self }
    }

    /// As [`Self::with_buffer_usage`], on the value in place.
    pub fn set_buffer_usage(&mut self, buffer_usage: Usage) -> (r: &mut Self)
        ensures
            (*r) == (SwapchainDesc { buffer_usage: buffer_usage, ..(*old(self)) }),
            *final(self) == *final(r),
    {
        let v = (*self).with_buffer_usage(buffer_usage);
        *self = v;
        self
    }

    /// The buffer usage.
    pub fn buffer_usage(&self) -> (r: Usage)
        ensures
            r == self.buffer_usage,
    {
        self.buffer_usage
    }

    /// Replaces the buffer count.
    pub fn with_buffer_count(self, buffer_count: u32) -> (r: Self)
        ensures
            r == (SwapchainDesc { buffer_count: buffer_count, ..self }),
    {
        SwapchainDesc { buffer_count: buffer_count, ..self }
    }

    /// As [`Self::with_buffer_count`], on the value in place.
    pub fn set_buffer_count(&mut self, buffer_count: u32) -> (r: &mut Self)
        ensures
            (*r) == (SwapchainDesc { buffer_count: buffer_count, ..(*old(self)) }),
            *final(self) == *final(r),
    {
        let v = (*self).with_buffer_count(buffer_count);
        *self = v;
        self
    }

    /// The buffer count.
    pub fn buffer_count(&self) -> (r: u32)
        ensures
            r == self.buffer_count,
    {
        self.buffer_count
    }

    /// Replaces the scaling.
    pub fn with_scaling(self, scaling: Scaling) -> (r: Self)
        ensures
            r == (SwapchainDesc { scaling: scaling, ..self }),
    {
        SwapchainDesc { scaling: scaling, ..self }
    }

    /// As [`Self::with_scaling`], on the value in place.
    pub fn set_scaling(&mut self, scaling: Scaling) -> (r: &mut Self)
        ensures
            (*r) == (SwapchainDesc { scaling: scaling, ..(*old(self)) }),
            *final(self) == *final(r),
    {
        let v = (*self).with_scaling(scaling);
        *self = v;
        self
    }

    /// The scaling.
    pub fn scaling(&self) -> (r: Scaling)
        ensures
            r == self.scaling,
    {
        self.scaling
    }

    /// Replaces the swap effect.
    pub fn with_swap_effect(self, swap_effect: SwapEffect) -> (r: Self)
        ensures
            r == (SwapchainDesc { swap_effect: swap_effect, ..self }),
    {
        SwapchainDesc { swap_effect: swap_effect, ..self }
    }

    /// As [`Self::with_swap_effect`], on the value in place.
    pub fn set_swap_effect(&mut self, swap_effect: SwapEffect) -> (r: &mut Self)
        ensures
            (*r) == (SwapchainDesc { swap_effect: swap_effect, ..(*old(self)) }),
            *final(self) == *final(r),
    {
        let v = (*self).with_swap_effect(swap_effect);
        *self = v;
        self
    }

    /// The swap effect.
    pub fn swap_effect(&self) -> (r: SwapEffect)
        ensures
            r == self.swap_effect,
    {
        self.swap_effect
    }

    /// Replaces the alpha mode.
    pub fn with_alpha_mode(self, alpha_mode: AlphaMode) -> (r: Self)
        ensures
            r == (SwapchainDesc { alpha_mode: alpha_mode, ..self }),
    {
        SwapchainDesc { alpha_mode: alpha_mode, ..self }
    }

    /// As [`Self::with_alpha_mode`], on the value in place.
    pub fn set_alpha_mode(&mut self, alpha_mode: AlphaMode) -> (r: &mut Self)
        ensures
            (*r) == (SwapchainDesc { alpha_mode: alpha_mode, ..(*old(self)) }),
            *final(self) == *final(r),
    {
        let v = (*self).with_alpha_mode(alpha_mode);
        *self = v;
        self
    }

    /// The alpha mode.
    pub fn alpha_mode(&self) -> (r: AlphaMode)
        ensures
            r == self.alpha_mode,
    {
        self.alpha_mode
    }

    /// Replaces the flags.
    pub fn with_flags(self, flags: SwapChainFlags) -> (r: Self)
        ensures
            r == (SwapchainDesc { flags: flags, ..self }),
    {
        SwapchainDesc { flags: flags, ..self }
    }

    /// As [`Self::with_flags`], on the value in place.
    pub fn set_flags(&mut self, flags: SwapChainFlags) -> (r: &mut Self)
        ensures
            (*r) == (SwapchainDesc { flags: flags, ..(*old(self)) }),
            *final(self) == *final(r),
    {
        let v = (*self).with_flags(flags);
        *self = v;
        self
    }

    /// The flags.
    pub fn flags(&self) -> (r: SwapChainFlags)
        ensures
            r == self.flags,
    {
        self.flags
    }
}

/// The index of the first zero unit in `units`, if any.
pub open spec fn first_nul_u16(units: Seq<u16>) -> Option<int> {
    if exists|i: int| 0 <= i < units.len() && units[i] == 0 {
        Some(choose|i: int| 0 <= i < units.len() && units[i] == 0 && forall|j: int| 0 <= j < i ==> units[j] != 0)
    } else {
        None
    }
}

/// UTF-16 decoding with replacement: a unit outside the surrogate range is its own code
/// point, a high surrogate followed by a low surrogate is the code point they encode together,
/// and any other surrogate becomes U+FFFD.
pub open spec fn decode_utf16_lossy(units: Seq<u16>) -> Seq<char>
    decreases units.len(),
{
    if units.len() == 0 {
        Seq::empty()
    } else {
        let u = units[0];
        if u < 0xd800 || u >= 0xe000 {
            seq![u as char] + decode_utf16_lossy(units.drop_first())
        } else if u < 0xdc00 && units.len() >= 2 && 0xdc00 <= units[1] && units[1] < 0xe000 {
            seq![(0x10000 + (u - 0xd800) * 0x400 + (units[1] - 0xdc00)) as char] + decode_utf16_lossy(
                units.subrange(2, units.len() as int),
            )
        } else {
            seq!['\u{fffd}'] + decode_utf16_lossy(units.drop_first())
        }
    }
}

/// Calls `widestring::U16Str::to_string_lossy` on `units`, which is
/// `String::from_utf16_lossy`: the units decoded as UTF-16, each ill-formed surrogate
/// replaced by U+FFFD.
#[verifier::external_body]
fn string_from_utf16_lossy(units: &[u16]) -> (r: String)
    ensures
        r@ == decode_utf16_lossy(units@),
{
    widestring::U16Str::from_slice(units).to_string_lossy()
}

/// The locally unique identifier of an adapter (`LUID`).
#[derive(Clone, Copy, Debug, PartialEq, Eq)]
pub struct Luid {
    pub low_part: u32,
    pub high_part: i32,
}

/// `DXGI_ADAPTER_FLAG_SOFTWARE`: the adapter is a software rasterizer.
pub const ADAPTER_FLAG_SOFTWARE: u32 = 2;

/// Description of a display adapter (`DXGI_ADAPTER_DESC1`).
#[derive(Clone, Copy, Debug, PartialEq, Eq)]
pub struct AdapterDesc {
    pub description: [u16; 128],
    pub vendor_id: u32,
    pub device_id: u32,
    pub sub_sys_id: u32,
    pub revision: u32,
    pub dedicated_video_memory: u64,
    pub dedicated_system_memory: u64,
    pub shared_system_memory: u64,
    pub adapter_luid: Luid,
    pub flags: u32,
}

impl Default for AdapterDesc {
    /// An all-zero description.
    fn default() -> (r: Self)
        ensures
            forall|i: int| 0 <= i < 128 ==> r.description@[i] == 0,
            r.vendor_id == 0 && r.device_id == 0 && r.sub_sys_id == 0 && r.revision == 0,
            r.dedicated_video_memory == 0 && r.dedicated_system_memory == 0 && r.shared_system_memory == 0,
            r.adapter_luid == (Luid { low_part: 0, high_part: 0 }),
            r.flags == 0,
    {
        AdapterDesc {
            description: [0u16; 128],
            vendor_id: 0,
            device_id: 0,
            sub_sys_id: 0,
            revision: 0,
            dedicated_video_memory: 0,
            dedicated_system_memory: 0,
            shared_system_memory: 0,
            adapter_luid: Luid { low_part: 0, high_part: 0 },
            flags: 0,
        }
    }
}

impl AdapterDesc {
    /// Whether the adapter is a software rasterizer.
    pub fn is_software(&self) -> (r: bool)
        ensures
            r == (self.flags & ADAPTER_FLAG_SOFTWARE != 0),
    {
        self.flags & ADAPTER_FLAG_SOFTWARE != 0
    }

    /// The adapter's name: its description up to the first NUL, decoded from UTF-16 with
    /// ill-formed sequences replaced; `None` when the description holds no NUL.
    pub fn description(&self) -> (r: Option<String>)
        ensures
            match first_nul_u16(self.description@) {
                Some(p) => r.is_some() && r.unwrap()@ == decode_utf16_lossy(self.description@.subrange(0, p)),
                None => r.is_none(),
            },
    {
        let units = self.description.as_slice();
        let mut i: usize = 0;
        while i < units.len()
            invariant
                units@ == self.description@,
                i <= units@.len(),
                forall|j: int| 0 <= j < i ==> units@[j] != 0,
            decreases units@.len() - i,
        {
            if units[i] == 0 {
                let (name, _) = units.split_at(i);
                proof {
                    assert(first_nul_u16(self.description@) == Some(i as int)) by {
                        let p = choose|p: int|
                            0 <= p < self.description@.len() && self.description@[p] == 0 && forall|j: int|
                                0 <= j < p ==> self.description@[j] != 0;
                        assert(0 <= i < self.description@.len() && self.description@[i as int] == 0 && forall|j: int|
                                0 <= j < i ==> self.description@[j] != 0);
                        if p < i {
                            assert(self.description@[p] != 0);
                        } else if p > i {
                            assert(self.description@[i as int] != 0);
                        }
                    }
                }
                return Some(string_from_utf16_lossy(name));
            }
            i = i + 1;
        }
        None
    }
}


/// The character of hexadecimal digit `d` (below 16), lower case.
pub open spec fn hex_digit_char(d: nat) -> char {
    if d < 10 {
        (48 + d) as char
    } else {
        (87 + d) as char
    }
}

/// `v` in lower-case hexadecimal, without leading zeros (`{:x}`).
pub open spec fn hex_text(v: nat) -> Seq<char>
    decreases v,
{
    if v < 16 {
        seq![hex_digit_char(v)]
    } else {
        hex_text(v / 16) + seq![hex_digit_char(v % 16)]
    }
}

/// `v` in decimal, without leading zeros (`{}`).
pub open spec fn dec_text(v: nat) -> Seq<char>
    decreases v,
{
    if v < 10 {
        seq![hex_digit_char(v)]
    } else {
        dec_text(v / 10) + seq![hex_digit_char(v % 10)]
    }
}

/// How an adapter description reads, with `name` as its decoded description.
pub open spec fn adapter_text(d: AdapterDesc, name: Seq<char>) -> Seq<char> {
    "Description: "@ + name + ", VendorId: "@ + hex_text(d.vendor_id as nat) + ", DeviceId: "@ + hex_text(
        d.device_id as nat,
    ) + ", SubSysId: "@ + hex_text(d.sub_sys_id as nat) + ", Revision: "@ + hex_text(d.revision as nat)
        + ", DedicatedVideoMemory: "@ + dec_text(d.dedicated_video_memory as nat) + ", DedicatedSystemMemory: "@
        + dec_text(d.dedicated_system_memory as nat) + ", SharedSystemMemory: "@ + dec_text(
        d.shared_system_memory as nat,
    ) + ", AdapterLuid.LowPart: "@ + hex_text(d.adapter_luid.low_part as nat) + ", AdapterLuid.HighPart: "@
        + hex_text((d.adapter_luid.high_part as u32) as nat) + ", Flags: "@ + hex_text(d.flags as nat)
}

/// Appends the character of digit `d`.
fn push_digit(s: &mut String, d: u64)
    requires
        d < 16,
    ensures
        final(s)@ == old(s)@.push(hex_digit_char(d as nat)),
{
    let digits = "0123456789abcdef";
    proof {
        reveal_strlit("0123456789abcdef");
    }
    let digit = digits.substring_char(d as usize, d as usize + 1);
    assert(digit@ =~= seq![hex_digit_char(d as nat)]);
    s.append(digit);
}

/// Appends `v` in lower-case hexadecimal.
fn push_hex(s: &mut String, v: u64)
    ensures
        final(s)@ == old(s)@ + hex_text(v as nat),
    decreases v,
{
    if v >= 16 {
        push_hex(s, v / 16);
    }
    push_digit(s, v % 16);
    proof {
        assert(old(s)@ + hex_text(v as nat) =~= if v >= 16 {
            old(s)@ + hex_text((v / 16) as nat) + seq![hex_digit_char((v % 16) as nat)]
        } else {
            old(s)@.push(hex_digit_char((v % 16) as nat))
        });
    }
}

/// Appends `v` in decimal.
fn push_dec(s: &mut String, v: u64)
    ensures
        final(s)@ == old(s)@ + dec_text(v as nat),
    decreases v,
{
    if v >= 10 {
        push_dec(s, v / 10);
    }
    push_digit(s, v % 10);
    proof {
        assert(old(s)@ + dec_text(v as nat) =~= if v >= 10 {
            old(s)@ + dec_text((v / 10) as nat) + seq![hex_digit_char((v % 10) as nat)]
        } else {
            old(s)@.push(hex_digit_char((v % 10) as nat))
        });
    }
}

impl AdapterDesc {
    /// The description as text: `Description: <name>, VendorId: <hex>, DeviceId: <hex>,
    /// SubSysId: <hex>, Revision: <hex>, DedicatedVideoMemory: <decimal>,
    /// DedicatedSystemMemory: <decimal>, SharedSystemMemory: <decimal>,
    /// AdapterLuid.LowPart: <hex>, AdapterLuid.HighPart: <hex>, Flags: <hex>`, hexadecimal in
    /// lower case without leading zeros; `None` when the description holds no NUL.
    pub fn describe(&self) -> (r: Option<String>)
        ensures
            match first_nul_u16(self.description@) {
                Some(p) => r is Some && r->0@ == adapter_text(
                    *self,
                    decode_utf16_lossy(self.description@.subrange(0, p)),
                ),
                None => r is None,
            },
    {
        match self.description() {
            None => None,
            Some(name) => {
                let mut s = String::new();
                s.append("Description: ");
                s.append(name.as_str());
                s.append(", VendorId: ");
                push_hex(&mut s, self.vendor_id as u64);
                s.append(", DeviceId: ");
                push_hex(&mut s, self.device_id as u64);
                s.append(", SubSysId: ");
                push_hex(&mut s, self.sub_sys_id as u64);
                s.append(", Revision: ");
                push_hex(&mut s, self.revision as u64);
                s.append(", DedicatedVideoMemory: ");
                push_dec(&mut s, self.dedicated_video_memory);
                s.append(", DedicatedSystemMemory: ");
                push_dec(&mut s, self.dedicated_system_memory);
                s.append(", SharedSystemMemory: ");
                push_dec(&mut s, self.shared_system_memory);
                s.append(", AdapterLuid.LowPart: ");
                push_hex(&mut s, self.adapter_luid.low_part as u64);
                s.append(", AdapterLuid.HighPart: ");
                push_hex(&mut s, self.adapter_luid.high_part as u32 as u64);
                s.append(", Flags: ");
                push_hex(&mut s, self.flags as u64);
                proof {
                    assert(s@ =~= adapter_text(*self, name@));
                }
                Some(s)
            },
        }
    }
}

} // verus!
