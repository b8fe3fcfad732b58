//! What the device reports of itself, as far as the driver depends on it.
//!
//! The snapshot is taken once, with the configured overrides folded in, so no
//! consumer has to look at the configuration.

use vstd::prelude::*;

verus! {

/// The row alignment that Intel and AMD Macs report for linear textures.
pub const MAC2_LINEAR_TEXTURE_ALIGN: u32 = 256;

/// Single answers of the device.
#[derive(Clone, Copy, Debug, PartialEq, Eq, Structural)]
pub struct DeviceCapsFlags {
    pub bits: u32,
}

impl DeviceCapsFlags {
    /// A resolve is only visible to commands of a later submission.
    pub const RESOLVE_NEEDS_RETIRE: u32 = 1;

    /// Textures of four samples are supported.
    pub const SAMPLE_COUNT_4: u32 = 2;

    /// Samplers support a border colour.
    pub const SAMPLER_BORDER: u32 = 4;

    /// No answer.
    pub fn empty() -> (r: DeviceCapsFlags)
        ensures
            r.bits == 0,
    {
        DeviceCapsFlags { bits: 0 }
    }

    /// The answers with the given bits.
    pub fn from_bits(bits: u32) -> (r: DeviceCapsFlags)
        ensures
            r.bits == bits,
    {
        DeviceCapsFlags { bits }
    }

    /// Whether all bits of `flag` are set.
    pub open spec fn has(self, flag: u32) -> bool {
        self.bits & flag == flag
    }

    /// Whether all bits of `flag` are set.
    pub fn contains(self, flag: u32) -> (r: bool)
        ensures
            r == self.has(flag),
    {
        self.bits & flag == flag
    }
}

/// The capabilities of a device.
#[derive(Clone, Copy, Debug, PartialEq, Eq, Structural)]
pub struct GpuCaps {
    /// Whether the CPU and the GPU share their memory.
    pub unified_memory: bool,
    /// The smallest row alignment of a linear texture, in bytes.
    pub min_linear_texture_align: u32,
    /// The single answers of the device.
    pub device_caps: DeviceCapsFlags,
}

impl GpuCaps {
    /// The capabilities of Apple Silicon.
    pub fn apple_silicon_default() -> (r: GpuCaps)
        ensures
            r.unified_memory,
            r.min_linear_texture_align == 16,
            r.device_caps.bits == 0,
    {
        GpuCaps {
            unified_memory: true,
            min_linear_texture_align: 16,
            device_caps: DeviceCapsFlags::empty(),
        }
    }

    /// The capabilities with the overrides folded in. Each moves one field
    /// towards the answer of an Intel or AMD Mac, and nothing else.
    pub open spec fn overridden(self, managed_memory: bool, linear_align256: bool) -> GpuCaps {
        GpuCaps {
            unified_memory: self.unified_memory && !managed_memory,
            min_linear_texture_align: if linear_align256 && self.min_linear_texture_align
                < MAC2_LINEAR_TEXTURE_ALIGN {
                MAC2_LINEAR_TEXTURE_ALIGN
            } else {
                self.min_linear_texture_align
            },
            device_caps: self.device_caps,
        }
    }

    /// Applies the configured overrides.
    pub fn with_intel_overrides(self, managed_memory: bool, linear_align256: bool) -> (r: GpuCaps)
        ensures
            r == self.overridden(managed_memory, linear_align256),
    {
        let min_linear_texture_align: u32 = if linear_align256 && self.min_linear_texture_align
            < MAC2_LINEAR_TEXTURE_ALIGN {
            MAC2_LINEAR_TEXTURE_ALIGN
        } else {
            self.min_linear_texture_align
        };
        GpuCaps {
            unified_memory: self.unified_memory && !managed_memory,
            min_linear_texture_align,
            device_caps: self.device_caps,
        }
    }

    /// Whether a resolve has to retire before it is read.
    pub fn resolve_needs_retire(&self) -> (r: bool)
        ensures
            r == self.device_caps.has(DeviceCapsFlags::RESOLVE_NEEDS_RETIRE),
    {
        self.device_caps.contains(DeviceCapsFlags::RESOLVE_NEEDS_RETIRE)
    }

    /// Whether reading a source of `samples` samples takes a submission of its
    /// own.
    pub fn multisample_read_splits_submission(&self, samples: u8) -> (r: bool)
        ensures
            r == (self.device_caps.has(DeviceCapsFlags::RESOLVE_NEEDS_RETIRE) && samples > 1),
    {
        self.resolve_needs_retire() && samples > 1
    }
}

/// An override that was applied once changes nothing when applied again.
pub proof fn overrides_are_idempotent(caps: GpuCaps, managed_memory: bool, linear_align256: bool)
    ensures
        caps.overridden(managed_memory, linear_align256).overridden(
            managed_memory,
            linear_align256,
        ) == caps.overridden(managed_memory, linear_align256),
{
}

/// Overrides only move towards the answer of an Intel or AMD Mac: memory never
/// becomes unified, the alignment never shrinks, and the rest stays.
pub proof fn overrides_move_one_way(caps: GpuCaps, managed_memory: bool, linear_align256: bool)
    ensures
        ({
            let after = caps.overridden(managed_memory, linear_align256);
            &&& after.unified_memory ==> caps.unified_memory
            &&& after.min_linear_texture_align >= caps.min_linear_texture_align
            &&& after.device_caps == caps.device_caps
        }),
        caps.overridden(false, false) == caps,
        !caps.overridden(true, true).unified_memory,
        caps.overridden(true, true).min_linear_texture_align >= MAC2_LINEAR_TEXTURE_ALIGN,
{
}

} // verus!
