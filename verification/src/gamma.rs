//! Gamma ramps: validation, identity detection, and the lookup table that the
//! present pass samples.
//!
//! A ramp maps each 8-bit code to the 16-bit level that the display should
//! show. The present pass applies it as a row of `RGBA16Unorm` texels.

use crate::d3d::{D3DGAMMARAMP, GAMMA_RAMP_ENTRIES};
use vstd::prelude::*;

verus! {

/// Texels of the lookup table, one per 8-bit code.
pub const LUT_TEXELS: usize = GAMMA_RAMP_ENTRIES;

/// Lanes of the lookup table, four per texel.
pub const LUT_LANES: usize = LUT_TEXELS * 4;

/// Whether every level of `channel` is that of the identity ramp: the code
/// scaled from 8 to 16 bits.
pub open spec fn is_identity_channel(channel: Seq<u16>) -> bool {
    forall|i: int| 0 <= i < GAMMA_RAMP_ENTRIES ==> #[trigger] channel[i] == i * 257
}

/// Whether `channel` rises from its first level to its last, decreases nowhere,
/// and never jumps by half the range.
pub open spec fn rises_smoothly(channel: Seq<u16>) -> bool {
    &&& channel[0] < channel[GAMMA_RAMP_ENTRIES - 1]
    &&& forall|i: int|
        #![trigger channel[i]]
        0 <= i < GAMMA_RAMP_ENTRIES - 1 ==> channel[i] <= channel[i + 1] && channel[i + 1]
            - channel[i] < 0x7FFF
}

/// Texel `i` of the lookup table holds the three levels of code `i` and an
/// opaque alpha.
pub open spec fn is_texel(lut: Seq<u16>, ramp: D3DGAMMARAMP, i: int) -> bool {
    &&& lut[4 * i] == ramp.red[i]
    &&& lut[4 * i + 1] == ramp.green[i]
    &&& lut[4 * i + 2] == ramp.blue[i]
    &&& lut[4 * i + 3] == u16::MAX
}

/// The level that the identity ramp holds for code `index`: the code scaled
/// from the 8-bit to the 16-bit range, which is exact.
pub fn identity_level(index: u8) -> (level: u16)
    ensures
        level == index * 257,
        level * 255 == 65535 * index,
{
    index as u16 * 257
}

/// The identity ramp, which a device reports before one is set.
pub fn identity_ramp() -> (ramp: D3DGAMMARAMP)
    ensures
        is_identity_channel(ramp.red@),
        is_identity_channel(ramp.green@),
        is_identity_channel(ramp.blue@),
{
    let mut channel: [u16; GAMMA_RAMP_ENTRIES] = [0u16; GAMMA_RAMP_ENTRIES];
    let mut i: usize = 0;
    while i < GAMMA_RAMP_ENTRIES
        invariant
            i <= GAMMA_RAMP_ENTRIES,
            forall|k: int| 0 <= k < i ==> #[trigger] channel@[k] == k * 257,
        decreases GAMMA_RAMP_ENTRIES - i,
    {
        channel[i] = identity_level(i as u8);
        i = i + 1;
    }
    D3DGAMMARAMP { red: channel, green: channel, blue: channel }
}

/// Whether one channel is a usable transfer function.
///
/// The shapes that are refused (flat or falling end to end, a dip, a jump by
/// half the range) are those of uninitialized or byte-swapped memory.
pub fn is_usable_channel(channel: &[u16; GAMMA_RAMP_ENTRIES]) -> (r: bool)
    ensures
        r == rises_smoothly(channel@),
{
    if channel[0] >= channel[GAMMA_RAMP_ENTRIES - 1] {
        return false;
    }
    let mut i: usize = 0;
    while i < GAMMA_RAMP_ENTRIES - 1
        invariant
            i <= GAMMA_RAMP_ENTRIES - 1,
            forall|k: int|
                #![trigger channel@[k]]
                0 <= k < i ==> channel@[k] <= channel@[k + 1] && channel@[k + 1] - channel@[k]
                    < 0x7FFF,
        decreases GAMMA_RAMP_ENTRIES - i,
    {
        let low: u16 = channel[i];
        let high: u16 = channel[i + 1];
        if high < low || high - low >= u16::MAX / 2 {
            assert(channel@[i as int] == low);
            return false;
        }
        i = i + 1;
    }
    true
}

/// Whether a ramp is usable: one usable channel is enough.
pub fn is_usable(ramp: &D3DGAMMARAMP) -> (r: bool)
    ensures
        r == (rises_smoothly(ramp.red@) || rises_smoothly(ramp.green@) || rises_smoothly(
            ramp.blue@,
        )),
{
    is_usable_channel(&ramp.red) || is_usable_channel(&ramp.green) || is_usable_channel(&ramp.blue)
}

/// Whether a ramp leaves every code where it is, so that it needs no table.
pub fn is_identity(ramp: &D3DGAMMARAMP) -> (r: bool)
    ensures
        r == (is_identity_channel(ramp.red@) && is_identity_channel(ramp.green@)
            && is_identity_channel(ramp.blue@)),
{
    let mut i: usize = 0;
    while i < GAMMA_RAMP_ENTRIES
        invariant
            i <= GAMMA_RAMP_ENTRIES,
            forall|k: int| 0 <= k < i ==> #[trigger] ramp.red@[k] == k * 257,
            forall|k: int| 0 <= k < i ==> #[trigger] ramp.green@[k] == k * 257,
            forall|k: int| 0 <= k < i ==> #[trigger] ramp.blue@[k] == k * 257,
        decreases GAMMA_RAMP_ENTRIES - i,
    {
        let level: u16 = identity_level(i as u8);
        if ramp.red[i] != level || ramp.green[i] != level || ramp.blue[i] != level {
            return false;
        }
        i = i + 1;
    }
    true
}

/// The ramp as one row of texels.
pub fn to_lut(ramp: &D3DGAMMARAMP) -> (lut: [u16; LUT_LANES])
    ensures
        forall|i: int| 0 <= i < LUT_TEXELS ==> #[trigger] is_texel(lut@, *ramp, i),
{
    let mut lut: [u16; LUT_LANES] = [0u16; LUT_LANES];
    let mut i: usize = 0;
    while i < LUT_TEXELS
        invariant
            i <= LUT_TEXELS,
            forall|k: int| 0 <= k < i ==> #[trigger] is_texel(lut@, *ramp, k),
        decreases LUT_TEXELS - i,
    {
        let ghost before = lut@;
        lut[4 * i] = ramp.red[i];
        lut[4 * i + 1] = ramp.green[i];
        lut[4 * i + 2] = ramp.blue[i];
        lut[4 * i + 3] = u16::MAX;
        assert forall|k: int| 0 <= k < i + 1 implies #[trigger] is_texel(lut@, *ramp, k) by {
            if k < i {
                assert(is_texel(before, *ramp, k));
            }
        }
        i = i + 1;
    }
    lut
}

/// What a queued ramp change asks of the present pass.
pub enum Change {
    /// Apply this table.
    Apply(Box<[u16; LUT_LANES]>),
    /// Remove the table that is applied.
    Remove,
}

/// The identity channel is usable: what a device reports at the start is never
/// refused.
pub proof fn identity_is_usable(c: Seq<u16>)
    requires
        is_identity_channel(c),
    ensures
        rises_smoothly(c),
{
    assert(c[0] == 0 && c[255] == 255 * 257);
    assert forall|i: int|
        #![trigger c[i]]
        0 <= i < GAMMA_RAMP_ENTRIES - 1 implies c[i] <= c[i + 1] && c[i + 1] - c[i] < 0x7FFF by {
        assert(c[i + 1] == (i + 1) * 257);
    }
}

/// Tables of different ramps differ.
pub proof fn lut_determines_the_ramp(lut: Seq<u16>, a: D3DGAMMARAMP, b: D3DGAMMARAMP)
    requires
        forall|i: int| 0 <= i < LUT_TEXELS ==> #[trigger] is_texel(lut, a, i),
        forall|i: int| 0 <= i < LUT_TEXELS ==> #[trigger] is_texel(lut, b, i),
    ensures
        a.red@ == b.red@,
        a.green@ == b.green@,
        a.blue@ == b.blue@,
{
    assert forall|i: int| 0 <= i < LUT_TEXELS implies a.red@[i] == b.red@[i] && a.green@[i]
        == b.green@[i] && a.blue@[i] == b.blue@[i] by {
        assert(is_texel(lut, a, i) && is_texel(lut, b, i));
    }
    assert(a.red@ =~= b.red@);
    assert(a.green@ =~= b.green@);
    assert(a.blue@ =~= b.blue@);
}

} // verus!
