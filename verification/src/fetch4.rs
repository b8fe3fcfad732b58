//! Fetch4: the command latch of each sampler, and the textures it applies to.

use crate::d3d::{
    D3DFMT_A8, D3DFMT_DF16, D3DFMT_DF24, D3DFMT_INTZ, D3DFMT_L16, D3DFMT_L8, D3DFMT_R16F,
    D3DFMT_R32F, D3DSAMP_MAGFILTER, D3DSAMP_MIPMAPLODBIAS, D3DTEXF_POINT, FETCH4_DISABLE,
    FETCH4_ENABLE,
};
use vstd::prelude::*;

verus! {

/// The number of sampler slots.
pub const SLOT_COUNT: usize = 16;

/// Whether the bit of a slot is set.
pub open spec fn slot_set(mask: u16, slot: u16) -> bool {
    (mask >> slot) & 1 == 1
}

/// The command that an LOD-bias value stands for, where it is one.
pub open spec fn command_of(value: u32) -> Option<bool> {
    if value == FETCH4_ENABLE {
        Some(true)
    } else if value == FETCH4_DISABLE {
        Some(false)
    } else {
        None
    }
}

/// Whether a texture of that format can be fetched by four.
pub open spec fn is_single_channel(format: Option<u32>) -> bool {
    match format {
        Some(f) => f == D3DFMT_A8 || f == D3DFMT_DF16 || f == D3DFMT_DF24 || f == D3DFMT_INTZ || f
            == D3DFMT_L8 || f == D3DFMT_L16 || f == D3DFMT_R16F || f == D3DFMT_R32F,
        None => false,
    }
}

/// Whether a texture of that format is sampled as raw depth in the red channel.
pub open spec fn is_raw_red(format: Option<u32>) -> bool {
    format == Some(D3DFMT_DF16) || format == Some(D3DFMT_DF24)
}

/// The state of each sampler slot, kept up to date by the setters.
pub struct Fetch4State {
    enabled: u16,
    point: u16,
    eligible: u16,
    alpha: u16,
    raw_red: u16,
}

impl Fetch4State {
    /// Whether Fetch4 is switched on.
    pub closed spec fn latched(&self, slot: u16) -> bool {
        slot_set(self.enabled, slot)
    }

    /// Whether the slot magnifies without filtering.
    pub closed spec fn points(&self, slot: u16) -> bool {
        slot_set(self.point, slot)
    }

    /// Whether the bound texture can be fetched by four.
    pub closed spec fn fetchable(&self, slot: u16) -> bool {
        slot_set(self.eligible, slot)
    }

    /// Whether the channel of the bound texture is alpha.
    pub closed spec fn reads_alpha(&self, slot: u16) -> bool {
        slot_set(self.alpha, slot)
    }

    /// Whether the bound texture is sampled as raw depth in the red channel.
    pub closed spec fn reads_raw_red(&self, slot: u16) -> bool {
        slot_set(self.raw_red, slot)
    }

    /// The state of a new device: nothing latched or bound, no filtering.
    pub fn new() -> (r: Self)
        ensures
            forall|slot: u16|
                slot < SLOT_COUNT ==> {
                    &&& !#[trigger] r.latched(slot)
                    &&& r.points(slot)
                    &&& !r.fetchable(slot)
                    &&& !r.reads_alpha(slot)
                    &&& !r.reads_raw_red(slot)
                },
    {
        let state = Fetch4State { enabled: 0, point: 0xFFFF, eligible: 0, alpha: 0, raw_red: 0 };
        assert forall|slot: u16| slot < SLOT_COUNT implies {
            &&& !#[trigger] state.latched(slot)
            &&& state.points(slot)
            &&& !state.fetchable(slot)
            &&& !state.reads_alpha(slot)
            &&& !state.reads_raw_red(slot)
        } by {
            assert(slot < 16 ==> (0u16 >> slot) & 1 == 0 && (0xFFFFu16 >> slot) & 1 == 1)
                by (bit_vector);
        }
        state
    }

    /// Follows a sampler state. A numeric LOD bias leaves the latch alone.
    pub fn set_sampler(&mut self, slot: usize, state: usize, value: u32)
        requires
            slot < SLOT_COUNT,
        ensures
            forall|s: u16|
                s < SLOT_COUNT ==> {
                    &&& #[trigger] final(self).latched(s) == (if s == slot && state
                        == D3DSAMP_MIPMAPLODBIAS && command_of(value) is Some {
                        command_of(value)->0
                    } else {
                        old(self).latched(s)
                    })
                    &&& final(self).points(s) == (if s == slot && state == D3DSAMP_MAGFILTER {
                        value == D3DTEXF_POINT
                    } else {
                        old(self).points(s)
                    })
                    &&& final(self).fetchable(s) == old(self).fetchable(s)
                    &&& final(self).reads_alpha(s) == old(self).reads_alpha(s)
                    &&& final(self).reads_raw_red(s) == old(self).reads_raw_red(s)
                },
    {
        if state == D3DSAMP_MIPMAPLODBIAS as usize {
            if let Some(on) = command(value) {
                self.enabled = with_slot(self.enabled, slot, on);
            }
        } else if state == D3DSAMP_MAGFILTER as usize {
            self.point = with_slot(self.point, slot, value == D3DTEXF_POINT);
        }
    }

    /// Follows a texture binding: `format` is that of the bound texture.
    pub fn set_texture(&mut self, slot: usize, format: Option<u32>, two_dimensional: bool)
        requires
            slot < SLOT_COUNT,
        ensures
            forall|s: u16|
                s < SLOT_COUNT ==> {
                    &&& #[trigger] final(self).latched(s) == old(self).latched(s)
                    &&& final(self).points(s) == old(self).points(s)
                    &&& final(self).fetchable(s) == (if s == slot {
                        two_dimensional && is_single_channel(format)
                    } else {
                        old(self).fetchable(s)
                    })
                    &&& final(self).reads_alpha(s) == (if s == slot {
                        two_dimensional && format == Some(D3DFMT_A8)
                    } else {
                        old(self).reads_alpha(s)
                    })
                    &&& final(self).reads_raw_red(s) == (if s == slot {
                        is_raw_red(format)
                    } else {
                        old(self).reads_raw_red(s)
                    })
                },
    {
        let single_channel: bool = match format {
            Some(f) => matches!(
                f,
                D3DFMT_A8 | D3DFMT_DF16 | D3DFMT_DF24 | D3DFMT_INTZ | D3DFMT_L8 | D3DFMT_L16
                    | D3DFMT_R16F | D3DFMT_R32F
            ),
            None => false,
        };
        let raw_red: bool = match format {
            Some(f) => f == D3DFMT_DF16 || f == D3DFMT_DF24,
            None => false,
        };
        let alpha: bool = match format {
            Some(f) => f == D3DFMT_A8,
            None => false,
        };
        let eligible: bool = two_dimensional && single_channel;
        self.raw_red = with_slot(self.raw_red, slot, raw_red);
        self.eligible = with_slot(self.eligible, slot, eligible);
        self.alpha = with_slot(self.alpha, slot, eligible && alpha);
    }

    /// The slots whose texture is sampled as raw depth in the red channel.
    pub fn raw_red_mask(&self) -> (r: u16)
        ensures
            forall|s: u16| s < SLOT_COUNT ==> #[trigger] slot_set(r, s) == self.reads_raw_red(s),
    {
        self.raw_red
    }

    /// The latch of every slot.
    pub fn enabled(&self) -> (r: u16)
        ensures
            forall|s: u16| s < SLOT_COUNT ==> #[trigger] slot_set(r, s) == self.latched(s),
    {
        self.enabled
    }

    /// Sets the latch of every slot, as [`Self::enabled`] gave it.
    pub fn restore_enabled(&mut self, enabled: u16)
        ensures
            forall|s: u16|
                s < SLOT_COUNT ==> {
                    &&& #[trigger] final(self).latched(s) == slot_set(enabled, s)
                    &&& final(self).points(s) == old(self).points(s)
                    &&& final(self).fetchable(s) == old(self).fetchable(s)
                    &&& final(self).reads_alpha(s) == old(self).reads_alpha(s)
                    &&& final(self).reads_raw_red(s) == old(self).reads_raw_red(s)
                },
    {
        self.enabled = enabled;
    }

    /// The slots that are fetched by four, and those of them that read alpha.
    pub fn masks(&self) -> (r: (u16, u16))
        ensures
            forall|s: u16|
                s < SLOT_COUNT ==> {
                    &&& #[trigger] slot_set(r.0, s) == (self.latched(s) && self.points(s)
                        && self.fetchable(s))
                    &&& slot_set(r.1, s) == (slot_set(r.0, s) && self.reads_alpha(s))
                },
    {
        let active: u16 = self.enabled & self.point & self.eligible;
        let alpha: u16 = active & self.alpha;
        proof {
            let (e, p, g, a) = (self.enabled, self.point, self.eligible, self.alpha);
            assert forall|s: u16| s < SLOT_COUNT implies {
                &&& #[trigger] slot_set(active, s) == (slot_set(e, s) && slot_set(p, s)
                    && slot_set(g, s))
                &&& slot_set(alpha, s) == (slot_set(active, s) && slot_set(a, s))
            } by {
                assert(s < 16 ==> ((((e & p & g) >> s) & 1 == 1) == ((e >> s) & 1 == 1 && (p >> s)
                    & 1 == 1 && (g >> s) & 1 == 1))) by (bit_vector);
                assert(s < 16 ==> ((((active & a) >> s) & 1 == 1) == ((active >> s) & 1 == 1 && (a
                    >> s) & 1 == 1))) by (bit_vector);
            }
        }
        (active, alpha)
    }
}

impl Default for Fetch4State {
    fn default() -> (r: Self)
        ensures
            forall|slot: u16|
                slot < SLOT_COUNT ==> {
                    &&& !#[trigger] r.latched(slot)
                    &&& r.points(slot)
                    &&& !r.fetchable(slot)
                    &&& !r.reads_alpha(slot)
                    &&& !r.reads_raw_red(slot)
                },
    {
        Fetch4State::new()
    }
}

/// The command that an LOD-bias value stands for; every other bit pattern is an
/// ordinary bias.
pub fn command(value: u32) -> (r: Option<bool>)
    ensures
        r == command_of(value),
{
    if value == FETCH4_ENABLE {
        Some(true)
    } else if value == FETCH4_DISABLE {
        Some(false)
    } else {
        None
    }
}

fn with_slot(mask: u16, slot: usize, on: bool) -> (r: u16)
    requires
        slot < SLOT_COUNT,
    ensures
        forall|s: u16|
            s < SLOT_COUNT ==> #[trigger] slot_set(r, s) == (if s == slot {
                on
            } else {
                slot_set(mask, s)
            }),
{
    let shift: u16 = slot as u16;
    let bit: u16 = 1u16 << shift;
    assert forall|s: u16| s < SLOT_COUNT implies #[trigger] slot_set(mask | bit, s) == (s == shift
        || slot_set(mask, s)) by {
        assert(s < 16 && shift < 16 ==> ((((mask | (1u16 << shift)) >> s) & 1 == 1) == (s == shift
            || (mask >> s) & 1 == 1))) by (bit_vector);
    }
    assert forall|s: u16| s < SLOT_COUNT implies #[trigger] slot_set(mask & !bit, s) == (s != shift
        && slot_set(mask, s)) by {
        assert(s < 16 && shift < 16 ==> ((((mask & !(1u16 << shift)) >> s) & 1 == 1) == (s != shift
            && (mask >> s) & 1 == 1))) by (bit_vector);
    }
    if on {
        mask | bit
    } else {
        mask & !bit
    }
}

/// The sixteen slots determine a mask, so a mask that was read and restored is
/// the same mask.
pub proof fn slots_determine_the_mask(a: u16, b: u16)
    requires
        forall|s: u16| s < SLOT_COUNT ==> #[trigger] slot_set(a, s) == slot_set(b, s),
    ensures
        a == b,
{
    assert forall|s: u16| s < 16 implies #[trigger] ((a >> s) & 1) == (b >> s) & 1 by {
        assert(slot_set(a, s) == slot_set(b, s));
        assert((a >> s) & 1 <= 1 && (b >> s) & 1 <= 1) by (bit_vector);
    }
    assert((a >> 0u16) & 1 == (b >> 0u16) & 1 && (a >> 1u16) & 1 == (b >> 1u16) & 1);
    assert((a >> 2u16) & 1 == (b >> 2u16) & 1 && (a >> 3u16) & 1 == (b >> 3u16) & 1);
    assert((a >> 4u16) & 1 == (b >> 4u16) & 1 && (a >> 5u16) & 1 == (b >> 5u16) & 1);
    assert((a >> 6u16) & 1 == (b >> 6u16) & 1 && (a >> 7u16) & 1 == (b >> 7u16) & 1);
    assert((a >> 8u16) & 1 == (b >> 8u16) & 1 && (a >> 9u16) & 1 == (b >> 9u16) & 1);
    assert((a >> 10u16) & 1 == (b >> 10u16) & 1 && (a >> 11u16) & 1 == (b >> 11u16) & 1);
    assert((a >> 12u16) & 1 == (b >> 12u16) & 1 && (a >> 13u16) & 1 == (b >> 13u16) & 1);
    assert((a >> 14u16) & 1 == (b >> 14u16) & 1 && (a >> 15u16) & 1 == (b >> 15u16) & 1);
    assert(a == b) by (bit_vector)
        requires
            (a >> 0u16) & 1 == (b >> 0u16) & 1 && (a >> 1u16) & 1 == (b >> 1u16) & 1,
            (a >> 2u16) & 1 == (b >> 2u16) & 1 && (a >> 3u16) & 1 == (b >> 3u16) & 1,
            (a >> 4u16) & 1 == (b >> 4u16) & 1 && (a >> 5u16) & 1 == (b >> 5u16) & 1,
            (a >> 6u16) & 1 == (b >> 6u16) & 1 && (a >> 7u16) & 1 == (b >> 7u16) & 1,
            (a >> 8u16) & 1 == (b >> 8u16) & 1 && (a >> 9u16) & 1 == (b >> 9u16) & 1,
            (a >> 10u16) & 1 == (b >> 10u16) & 1 && (a >> 11u16) & 1 == (b >> 11u16) & 1,
            (a >> 12u16) & 1 == (b >> 12u16) & 1 && (a >> 13u16) & 1 == (b >> 13u16) & 1,
            (a >> 14u16) & 1 == (b >> 14u16) & 1 && (a >> 15u16) & 1 == (b >> 15u16) & 1,
    ;
}

} // verus!
