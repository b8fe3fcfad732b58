//! What specialises a pixel shader beyond its bytecode.

use vstd::prelude::*;

verus! {

/// Boolean features of a pixel-shader variant.
#[derive(Clone, Copy, Debug, PartialEq, Eq, Hash, Structural)]
pub struct VariantFlags {
    pub bits: u8,
}

impl VariantFlags {
    /// Table fog reads the eye W instead of the pixel depth.
    pub const FOG_SOURCE_W: u8 = 1;

    /// Colours come from the provoking vertex instead of being interpolated.
    pub const FLAT_SHADE: u8 = 2;

    /// The final colour is encoded from linear to sRGB.
    pub const SRGB_WRITE: u8 = 4;

    /// The samples of a fixed-function shader take a bias of their level.
    pub const LOD_BIAS: u8 = 8;

    /// A fixed-function shader writes `sample_mask`.
    pub const SAMPLE_MASK: u8 = 16;

    /// No feature.
    pub open spec fn spec_empty() -> VariantFlags {
        VariantFlags { bits: 0 }
    }

    /// No feature.
    pub fn empty() -> (r: VariantFlags)
        ensures
            r == VariantFlags::spec_empty(),
    {
        VariantFlags { bits: 0 }
    }

    /// The features with the given bits.
    pub fn from_bits(bits: u8) -> (r: VariantFlags)
        ensures
            r.bits == bits,
    {
        VariantFlags { bits }
    }

    /// Whether all bits of `flag` are set.
    pub open spec fn has(self, flag: u8) -> bool {
        self.bits & flag == flag
    }

    /// Whether all bits of `flag` are set.
    pub fn contains(self, flag: u8) -> (r: bool)
        ensures
            r == self.has(flag),
    {
        self.bits & flag == flag
    }

    /// Sets the bits of `flag` where `value` holds, and clears them otherwise.
    pub fn set(&mut self, flag: u8, value: bool)
        ensures
            final(self).bits == (if value { old(self).bits | flag } else { old(self).bits & !flag }),
    {
        if value {
            self.bits = self.bits | flag;
        } else {
            self.bits = self.bits & !flag;
        }
    }
}

/// The pixel-shader specialization that is not part of the bytecode.
#[derive(Clone, Copy, Debug, PartialEq, Eq, Hash, Structural)]
pub struct VariantKey {
    /// Alpha-test comparison (`D3DCMP_*`); 0 where the test is off.
    pub alpha_func: u8,
    /// Vertex-fog mode; 0 where there is none.
    pub fog_mode: u8,
    /// Table-fog mode (`D3DFOG_*`); 0 where there is none.
    pub fog_table_mode: u8,
    /// Samplers bound to a depth texture, one bit each.
    pub depth_sampler_mask: u16,
    /// Samplers whose depth texture is read raw instead of compared.
    pub depth_fetch_mask: u16,
    /// Samplers bound to a volume texture. Only fixed-function shaders read it.
    pub volume_sampler_mask: u16,
    /// Samplers bound to a cube texture. Only fixed-function shaders read it.
    pub cube_sampler_mask: u16,
    /// The samples that a fixed-function shader writes, one bit each.
    pub sample_mask: u32,
    /// Texture stages with an implicit projective divide.
    pub tt_projected_mask: u8,
    pub flags: VariantFlags,
}

impl VariantKey {
    /// No specialization.
    pub open spec fn spec_default() -> VariantKey {
        VariantKey {
            alpha_func: 0,
            fog_mode: 0,
            fog_table_mode: 0,
            depth_sampler_mask: 0,
            depth_fetch_mask: 0,
            volume_sampler_mask: 0,
            cube_sampler_mask: 0,
            sample_mask: 0,
            tt_projected_mask: 0,
            flags: VariantFlags::spec_empty(),
        }
    }

    /// Whether the variant blends fog, from either source.
    pub open spec fn blends_fog(self) -> bool {
        self.fog_mode != 0 || self.fog_table_mode != 0
    }

    /// Whether the variant discards fragments by their alpha. A zero function
    /// and `D3DCMP_ALWAYS` both pass every fragment.
    pub open spec fn tests_alpha(self) -> bool {
        self.alpha_func != 0 && self.alpha_func != 8
    }
}

impl Default for VariantKey {
    fn default() -> (r: VariantKey)
        ensures
            r == VariantKey::spec_default(),
    {
        VariantKey {
            alpha_func: 0,
            fog_mode: 0,
            fog_table_mode: 0,
            depth_sampler_mask: 0,
            depth_fetch_mask: 0,
            volume_sampler_mask: 0,
            cube_sampler_mask: 0,
            sample_mask: 0,
            tt_projected_mask: 0,
            flags: VariantFlags::empty(),
        }
    }
}

/// Whether the variant blends fog at the end of the pixel shader: vertex fog
/// or table fog.
pub fn fog_blend_active(variant: VariantKey) -> (r: bool)
    ensures
        r == variant.blends_fog(),
{
    variant.fog_mode != 0 || variant.fog_table_mode != 0
}

} // verus!
