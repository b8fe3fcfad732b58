//! Which copy of a texture level holds the pixels that define it.
//!
//! A blit writes the GPU's texture and never the CPU staging. From then on the
//! level lives on the GPU alone, until a write of the staging has landed.

use vstd::prelude::*;

verus! {

/// The faces of a cube texture. Other textures have the first one only.
pub const FACE_COUNT: u32 = 6;

/// The levels that a mask has room for; no texture has more than fifteen.
pub const LEVEL_COUNT: usize = 32;

/// What a CPU write of a level has to do about the GPU's copy.
#[derive(Debug, Clone, Copy, PartialEq, Eq, Structural)]
pub enum WritePlan {
    /// Write: the staging holds every byte of the level.
    WriteStaging,
    /// Read the level back first: the write leaves pixels that only the GPU
    /// holds.
    ReadBackFirst,
    /// Write without a read back: the write defines every byte.
    Overwrite,
}

/// Whether there is such a face and level.
pub open spec fn in_mask(face: u32, level: usize) -> bool {
    face < FACE_COUNT && level < LEVEL_COUNT
}

/// The bit of a level in the mask of its face.
pub open spec fn level_bit(mask: u32, level: u32) -> bool {
    (mask >> level) & 1 == 1
}

/// The plan of a write of a level that the GPU holds or not.
pub open spec fn plan(held: bool, whole_level: bool) -> WritePlan {
    if !held {
        WritePlan::WriteStaging
    } else if whole_level {
        WritePlan::Overwrite
    } else {
        WritePlan::ReadBackFirst
    }
}

/// What happens to a level.
pub enum LevelEvent {
    /// The GPU wrote the level of the face.
    GpuWrote(u32, usize),
    /// A write of the staging of the level of the face has landed.
    StagingWrote(u32, usize),
}

/// Whether `event` is about the level of the face.
pub open spec fn is_about(event: LevelEvent, face: u32, level: usize) -> bool {
    match event {
        LevelEvent::GpuWrote(f, l) => f == face && l == level,
        LevelEvent::StagingWrote(f, l) => f == face && l == level,
    }
}

/// Whether the GPU holds the level of the face after `event`, where `held` says
/// whether it did before.
pub open spec fn held_after(held: bool, event: LevelEvent, face: u32, level: usize) -> bool {
    match event {
        LevelEvent::GpuWrote(f, l) => held || in_mask(f, l) && is_about(event, face, level),
        LevelEvent::StagingWrote(_, _) => held && !is_about(event, face, level),
    }
}

/// Whether the GPU holds the level of the face after `events`, in their order,
/// on a new texture.
pub open spec fn held_after_all(events: Seq<LevelEvent>, face: u32, level: usize) -> bool
    decreases events.len(),
{
    if events.len() == 0 {
        false
    } else {
        held_after(held_after_all(events.drop_last(), face, level), events.last(), face, level)
    }
}

/// For each face and level of a texture, whether the GPU holds pixels that the
/// staging does not.
#[derive(Debug)]
pub struct LevelAuthorityMask {
    gpu: [u32; 6],
}

impl Default for LevelAuthorityMask {
    fn default() -> (r: Self)
        ensures
            forall|face: u32, level: usize| !#[trigger] r.holds(face, level),
    {
        LevelAuthorityMask::new()
    }
}

impl LevelAuthorityMask {
    /// Whether the GPU holds pixels of the level that its staging does not.
    pub closed spec fn holds(&self, face: u32, level: usize) -> bool {
        in_mask(face, level) && level_bit(self.gpu[face as int], level as u32)
    }

    /// A texture whose staging defines every level.
    pub fn new() -> (r: Self)
        ensures
            forall|face: u32, level: usize| !#[trigger] r.holds(face, level),
    {
        assert forall|level: u32| !#[trigger] level_bit(0, level) by {
            assert((0u32 >> level) & 1 == 0) by (bit_vector);
        }
        LevelAuthorityMask { gpu: [0, 0, 0, 0, 0, 0] }
    }

    /// Records that the GPU wrote a level and its staging did not get the write.
    pub fn gpu_wrote(&mut self, face: u32, level: usize)
        ensures
            forall|f: u32, l: usize| #[trigger]
                final(self).holds(f, l) == held_after(
                    old(self).holds(f, l),
                    LevelEvent::GpuWrote(face, level),
                    f,
                    l,
                ),
            final(self).holds(face, level) == in_mask(face, level),
    {
        if face < FACE_COUNT && level < LEVEL_COUNT {
            let mask: u32 = self.gpu[face as usize];
            let shift: u32 = level as u32;
            self.gpu[face as usize] = mask | (1u32 << shift);
            assert forall|l: u32| l < 32 implies #[trigger] level_bit(mask | (1u32 << shift), l)
                == (level_bit(mask, l) || l == shift) by {
                assert(l < 32 && shift < 32 ==> ((((mask | (1u32 << shift)) >> l) & 1 == 1) == ((
                mask >> l) & 1 == 1 || l == shift))) by (bit_vector);
            }
        }
    }

    /// Whether the GPU holds pixels of the level that its staging does not.
    pub fn gpu_holds(&self, face: u32, level: usize) -> (r: bool)
        ensures
            r == self.holds(face, level),
            r ==> in_mask(face, level),
    {
        face < FACE_COUNT && level < LEVEL_COUNT && (self.gpu[face as usize] >> (level as u32)) & 1
            == 1
    }

    /// Plans a CPU write of a level; `whole_level` says that it covers every
    /// byte.
    ///
    /// The claim of the GPU stands until [`Self::staging_wrote`] reports that
    /// the write has landed, so a read back that fails is planned again.
    pub fn plan_write(&self, face: u32, level: usize, whole_level: bool) -> (r: WritePlan)
        ensures
            r == plan(self.holds(face, level), whole_level),
            !in_mask(face, level) ==> r == WritePlan::WriteStaging,
    {
        if !self.gpu_holds(face, level) {
            WritePlan::WriteStaging
        } else if whole_level {
            WritePlan::Overwrite
        } else {
            WritePlan::ReadBackFirst
        }
    }

    /// Records that a write of the staging has landed, so that the staging
    /// defines the level.
    pub fn staging_wrote(&mut self, face: u32, level: usize)
        ensures
            forall|f: u32, l: usize| #[trigger]
                final(self).holds(f, l) == held_after(
                    old(self).holds(f, l),
                    LevelEvent::StagingWrote(face, level),
                    f,
                    l,
                ),
    {
        if face < FACE_COUNT && level < LEVEL_COUNT {
            let mask: u32 = self.gpu[face as usize];
            let shift: u32 = level as u32;
            self.gpu[face as usize] = mask & !(1u32 << shift);
            assert forall|l: u32| l < 32 implies #[trigger] level_bit(mask & !(1u32 << shift), l)
                == (level_bit(mask, l) && l != shift) by {
                assert(l < 32 && shift < 32 ==> ((((mask & !(1u32 << shift)) >> l) & 1 == 1) == ((
                mask >> l) & 1 == 1 && l != shift))) by (bit_vector);
            }
        }
    }
}

/// The last event about a level decides who holds it: the GPU after its own
/// write, the staging after a write of it has landed.
pub proof fn the_last_writer_holds_the_level(
    events: Seq<LevelEvent>,
    last: int,
    face: u32,
    level: usize,
)
    requires
        in_mask(face, level),
        0 <= last < events.len(),
        is_about(events[last], face, level),
        forall|i: int| last < i < events.len() ==> !#[trigger] is_about(events[i], face, level),
    ensures
        held_after_all(events, face, level) == (events[last] is GpuWrote),
    decreases events.len(),
{
    if last < events.len() - 1 {
        assert(!is_about(events[events.len() - 1], face, level));
        assert forall|i: int| last < i < events.len() - 1 implies !#[trigger] is_about(
            events.drop_last()[i],
            face,
            level,
        ) by {
            assert(!is_about(events[i], face, level));
        }
        the_last_writer_holds_the_level(events.drop_last(), last, face, level);
    }
}

/// A level that no event is about is held by the staging.
pub proof fn untouched_levels_stay_with_the_staging(
    events: Seq<LevelEvent>,
    face: u32,
    level: usize,
)
    requires
        forall|i: int| 0 <= i < events.len() ==> !#[trigger] is_about(events[i], face, level),
    ensures
        !held_after_all(events, face, level),
    decreases events.len(),
{
    if events.len() > 0 {
        assert(!is_about(events[events.len() - 1], face, level));
        assert forall|i: int| 0 <= i < events.len() - 1 implies !#[trigger] is_about(
            events.drop_last()[i],
            face,
            level,
        ) by {
            assert(!is_about(events[i], face, level));
        }
        untouched_levels_stay_with_the_staging(events.drop_last(), face, level);
    }
}

/// A level past the width of the mask, or of a face that does not exist, is
/// never held by the GPU, whatever was recorded.
pub proof fn levels_past_the_mask_stay_with_the_staging(
    events: Seq<LevelEvent>,
    face: u32,
    level: usize,
)
    requires
        !in_mask(face, level),
    ensures
        !held_after_all(events, face, level),
    decreases events.len(),
{
    if events.len() > 0 {
        levels_past_the_mask_stay_with_the_staging(events.drop_last(), face, level);
    }
}

/// A write that leaves pixels alone is planned with a read back exactly where
/// the GPU holds the level, so no pixel of it is lost.
pub proof fn partial_writes_keep_the_pixels(held: bool)
    ensures
        plan(held, false) == WritePlan::ReadBackFirst <==> held,
{
}

} // verus!
