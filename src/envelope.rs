//! The stage machine of an ADSR envelope.
//!
//! A stage is kept as a numeric identifier. Each sample the envelope first
//! asks `envelope_step` how its level moves, applies that move to the level,
//! and then asks `envelope_next_stage` for the stage that follows, telling it
//! whether the move reached its bound (full level while attacking, the sustain
//! level while decaying).
use vstd::prelude::*;

verus! {

/// Level rises toward full scale.
pub const ATTACK_STAGE: u8 = 0;

/// Level falls toward the sustain level.
pub const DECAY_STAGE: u8 = 1;

/// Level is held at the sustain level.
pub const SUSTAIN_STAGE: u8 = 2;

/// Level falls toward silence.
pub const RELEASE_STAGE: u8 = 3;

/// How the envelope level moves during one sample.
#[derive(Clone, Copy, Debug, PartialEq, Eq, Structural)]
pub enum LevelStep {
    /// Add the attack rate, clamping at full scale.
    Rise,
    /// Subtract the decay rate scaled by one minus sustain, clamping at sustain.
    FallToSustain,
    /// Set the level to the sustain level.
    HoldSustain,
    /// Subtract the release rate, clamping at zero.
    FallToZero,
    /// Leave the level unchanged.
    Keep,
}

/// The level move for a sample in `stage`: when `gate` is false the level
/// always releases, whatever the stage; when `gate` is held again after a
/// release, the level rises as in attack. An unknown stage leaves it unchanged.
pub fn envelope_step(stage: u8, gate: bool) -> (r: LevelStep)
    ensures
        !gate ==> r == LevelStep::FallToZero,
        gate && stage == ATTACK_STAGE ==> r == LevelStep::Rise,
        gate && stage == DECAY_STAGE ==> r == LevelStep::FallToSustain,
        gate && stage == SUSTAIN_STAGE ==> r == LevelStep::HoldSustain,
        gate && stage == RELEASE_STAGE ==> r == LevelStep::Rise,
        gate && stage > RELEASE_STAGE ==> r == LevelStep::Keep,
{
    if !gate {
        LevelStep::FallToZero
    } else if stage == ATTACK_STAGE || stage == RELEASE_STAGE {
        LevelStep::Rise
    } else if stage == DECAY_STAGE {
        LevelStep::FallToSustain
    } else if stage == SUSTAIN_STAGE {
        LevelStep::HoldSustain
    } else {
        LevelStep::Keep
    }
}

/// The stage after a sample in `stage`, where `reached` tells whether that
/// sample's move reached its bound. When `gate` is false every stage moves to
/// release. While `gate` is held, attack moves to decay and decay to sustain
/// once their bound is reached; release retriggers the envelope, entering
/// attack (or decay at once, if that first rise already reached full level);
/// sustain and unknown stages stay.
pub fn envelope_next_stage(stage: u8, gate: bool, reached: bool) -> (r: u8)
    ensures
        !gate ==> r == RELEASE_STAGE,
        gate && stage == ATTACK_STAGE ==> r == if reached {
            DECAY_STAGE
        } else {
            ATTACK_STAGE
        },
        gate && stage == DECAY_STAGE ==> r == if reached {
            SUSTAIN_STAGE
        } else {
            DECAY_STAGE
        },
        gate && stage == RELEASE_STAGE ==> r == if reached {
            DECAY_STAGE
        } else {
            ATTACK_STAGE
        },
        gate && stage != ATTACK_STAGE && stage != DECAY_STAGE && stage != RELEASE_STAGE ==> r
            == stage,
{
    if !gate {
        RELEASE_STAGE
    } else if stage == RELEASE_STAGE {
        if reached {
            DECAY_STAGE
        } else {
            ATTACK_STAGE
        }
    } else if stage == ATTACK_STAGE && reached {
        DECAY_STAGE
    } else if stage == DECAY_STAGE && reached {
        SUSTAIN_STAGE
    } else {
        stage
    }
}

} // verus!
