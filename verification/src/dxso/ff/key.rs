//! The state that a fixed-function shader is made for.

use vstd::prelude::*;

verus! {

/// Boolean state of the vertex stage.
#[derive(Clone, Copy, Debug, PartialEq, Eq, Hash, Structural)]
pub struct FfVsFlags {
    pub bits: u32,
}

impl FfVsFlags {
    /// Positions are transformed already.
    pub const HAS_RHW: u32 = 1;

    /// The vertices have normals.
    pub const HAS_NORMAL: u32 = 2;

    /// The vertices have a diffuse colour.
    pub const HAS_COLOR0: u32 = 4;

    /// The vertices have a specular colour.
    pub const HAS_COLOR1: u32 = 8;

    /// Lighting is on.
    pub const LIGHTING_ENABLED: u32 = 16;

    /// Lights have specular highlights.
    pub const SPECULAR_ENABLE: u32 = 32;

    /// Highlights are seen from the eye instead of from far away.
    pub const LOCAL_VIEWER: u32 = 64;

    /// Material colours may come from the vertices.
    pub const COLOR_VERTEX: u32 = 128;

    /// Normals are made unit vectors before they are lit.
    pub const NORMALIZE_NORMALS: u32 = 256;

    /// The vertices select their blend matrices.
    pub const VERTEX_BLEND_INDEXED: u32 = 512;

    /// The vertices have blend indices.
    pub const DECLARED_INDICES: u32 = 1024;

    /// Fog takes the distance to the eye instead of the depth.
    pub const RANGE_FOG: u32 = 2048;

    /// The vertices have a point size.
    pub const HAS_PSIZE: u32 = 4096;

    /// Points shrink with the distance to the eye.
    pub const POINT_SCALE: u32 = 8192;

    /// No flag.
    pub fn empty() -> (r: FfVsFlags)
        ensures
            r.bits == 0,
    {
        FfVsFlags { bits: 0 }
    }

    /// The flags with the given bits.
    pub fn from_bits(bits: u32) -> (r: FfVsFlags)
        ensures
            r.bits == bits,
    {
        FfVsFlags { bits }
    }

    /// Whether all bits of `flag` are set.
    pub open spec fn has(self, flag: u32) -> bool {
        self.bits & flag == flag
    }

    /// Whether all bits of `flag` are set.
    pub fn contains(self, flag: u32) -> (r: bool)
        ensures
            r == self.has(flag),
    {
        self.bits & flag == flag
    }

    /// Sets the bits of `flag`.
    pub fn insert(&mut self, flag: u32)
        ensures
            final(self).bits == old(self).bits | flag,
    {
        self.bits = self.bits | flag;
    }

    /// Clears the bits of `flag`.
    pub fn remove(&mut self, flag: u32)
        ensures
            final(self).bits == old(self).bits & !flag,
    {
        self.bits = self.bits & !flag;
    }

    /// Sets the bits of `flag` where `value` holds, and clears them otherwise.
    pub fn set(&mut self, flag: u32, value: bool)
        ensures
            final(self).bits == (if value { old(self).bits | flag } else { old(self).bits & !flag }),
    {
        if value {
            self.insert(flag);
        } else {
            self.remove(flag);
        }
    }
}

/// Selects the count of coordinates in a texture-transform flag.
pub const TT_COUNT_MASK: u8 = 7;

/// In a texture-transform flag: the last coordinate divides the others.
pub const TT_PROJECTED: u8 = 128;

/// The state of the vertex stage.
#[derive(Clone, Copy, Debug, PartialEq, Eq, Hash)]
pub struct FfVsKey {
    pub flags: FfVsFlags,
    /// The texture coordinates that the vertices have.
    pub input_tex_coord_count: u8,
    /// The texture coordinates that the stage outputs.
    pub tex_coord_count: u8,
    /// The lights that are on, one bit each.
    pub light_active_mask: u8,
    /// The lights that shine along a direction; the others have a position.
    pub light_directional_mask: u8,
    /// The lights with a position that shine in a cone.
    pub light_spot_mask: u8,
    /// Where the material colours come from: 1 is the diffuse colour of the
    /// vertex, 2 the specular one, anything else the material itself.
    pub diffuse_source: u8,
    pub ambient_source: u8,
    pub specular_source: u8,
    pub emissive_source: u8,
    /// Vertex fog: 1 is exponential, 2 squared exponential, 3 linear, 4 the
    /// alpha of the specular colour, 0 none.
    pub fog_mode: u8,
    /// How each output coordinate is made: 1 is the normal, 2 the position, 3
    /// the reflection, 4 the sphere map, anything else an input coordinate.
    pub tci_modes: [u8; 8],
    /// The input coordinate of each output coordinate.
    pub tci_coord_indices: [u8; 8],
    /// The components of each input coordinate.
    pub tex_coord_dims: [u8; 8],
    /// The texture transform of each output coordinate.
    pub tt_flags: [u8; 8],
    /// The matrices that a vertex is blended from; 0 where it is not.
    pub vertex_blend_count: u8,
    /// The blend weights that the vertices have.
    pub declared_weights_count: u8,
}

/// The register that a texture stage writes.
#[derive(Clone, Copy, Debug, PartialEq, Eq, Structural)]
pub enum FfStageResult {
    /// The result so far, which the next stage reads.
    Current,
    /// The temporary register.
    Temp,
}

/// Boolean state of a texture stage.
#[derive(Clone, Copy, Debug, PartialEq, Eq, Hash, Structural)]
pub struct FfStageFlags {
    pub bits: u8,
}

impl FfStageFlags {
    /// A texture is bound.
    pub const HAS_TEXTURE: u8 = 1;

    /// The stage writes the temporary register.
    pub const RESULT_TEMP: u8 = 2;

    /// No flag.
    pub fn empty() -> (r: FfStageFlags)
        ensures
            r.bits == 0,
    {
        FfStageFlags { bits: 0 }
    }

    /// The flags with the given bits.
    pub fn from_bits(bits: u8) -> (r: FfStageFlags)
        ensures
            r.bits == bits,
    {
        FfStageFlags { bits }
    }

    /// Whether all bits of `flag` are set.
    pub open spec fn has(self, flag: u8) -> bool {
        self.bits & flag == flag
    }

    /// Whether all bits of `flag` are set.
    pub fn contains(self, flag: u8) -> (r: bool)
        ensures
            r == self.has(flag),
    {
        self.bits & flag == flag
    }

    /// Sets the bits of `flag`.
    pub fn insert(&mut self, flag: u8)
        ensures
            final(self).bits == old(self).bits | flag,
    {
        self.bits = self.bits | flag;
    }

    /// Clears the bits of `flag`.
    pub fn remove(&mut self, flag: u8)
        ensures
            final(self).bits == old(self).bits & !flag,
    {
        self.bits = self.bits & !flag;
    }
}

/// The state of one texture stage.
#[derive(Clone, Copy, Debug, PartialEq, Eq, Hash, Structural)]
pub struct FfStage {
    pub color_op: u8,
    pub color_arg1: u8,
    pub color_arg2: u8,
    pub alpha_op: u8,
    pub alpha_arg1: u8,
    pub alpha_arg2: u8,
    pub flags: FfStageFlags,
}

impl FfStage {
    /// Whether a texture is bound.
    pub open spec fn textured(self) -> bool {
        self.flags.has(FfStageFlags::HAS_TEXTURE)
    }

    /// Whether a texture is bound.
    pub fn has_texture(&self) -> (r: bool)
        ensures
            r == self.textured(),
    {
        self.flags.contains(FfStageFlags::HAS_TEXTURE)
    }

    /// The register that the stage writes.
    pub open spec fn destination(self) -> FfStageResult {
        if self.flags.has(FfStageFlags::RESULT_TEMP) {
            FfStageResult::Temp
        } else {
            FfStageResult::Current
        }
    }

    /// The register that the stage writes.
    pub fn result(&self) -> (r: FfStageResult)
        ensures
            r == self.destination(),
    {
        if self.flags.contains(FfStageFlags::RESULT_TEMP) {
            FfStageResult::Temp
        } else {
            FfStageResult::Current
        }
    }

    /// Selects the register that the stage writes.
    pub fn set_result(&mut self, result: FfStageResult)
        ensures
            final(self).destination() == result,
            final(self).textured() == old(self).textured(),
            *final(self) == (FfStage { flags: final(self).flags, ..*old(self) }),
    {
        let bits: u8 = self.flags.bits;
        assert((bits | 2) & 2 == 2 && (bits | 2) & 1 == bits & 1) by (bit_vector);
        assert((bits & !2u8) & 2 == 0 && (bits & !2u8) & 1 == bits & 1) by (bit_vector);
        match result {
            FfStageResult::Current => self.flags.remove(FfStageFlags::RESULT_TEMP),
            FfStageResult::Temp => self.flags.insert(FfStageFlags::RESULT_TEMP),
        }
    }
}

impl Default for FfStage {
    fn default() -> (r: FfStage)
        ensures
            r == (FfStage {
                color_op: 0,
                color_arg1: 0,
                color_arg2: 0,
                alpha_op: 0,
                alpha_arg1: 0,
                alpha_arg2: 0,
                flags: FfStageFlags { bits: 0 },
            }),
    {
        FfStage {
            color_op: 0,
            color_arg1: 0,
            color_arg2: 0,
            alpha_op: 0,
            alpha_arg1: 0,
            alpha_arg2: 0,
            flags: FfStageFlags::empty(),
        }
    }
}

/// The state of the pixel stage.
#[derive(Clone, Copy, Debug, PartialEq, Eq, Hash)]
pub struct FfPsKey {
    pub stages: [FfStage; 8],
    /// The specular colour is added at the end.
    pub specular_add: bool,
    /// The stages whose coordinate is divided by its last component.
    pub tt_projected_mask: u8,
}

} // verus!
