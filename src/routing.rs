//! Routing of `(effect id, parameter id)` pairs to the stage parameter they set.
use vstd::prelude::*;

verus! {

/// Low-shelf equalizer stage.
pub const EQ_LOW: u8 = 0;

/// Peaking equalizer stage.
pub const EQ_MID: u8 = 1;

/// High-shelf equalizer stage.
pub const EQ_HIGH: u8 = 2;

/// Compressor stage; it has no routed parameters yet.
pub const COMPRESSOR: u8 = 3;

/// Delay stage.
pub const DELAY: u8 = 4;

/// Reserved identifier of a reverb stage, which the chain does not have.
pub const REVERB: u8 = 5;

/// Parameter of the delay stage that sets its time, in seconds.
pub const DELAY_TIME: u8 = 0;

/// Parameter of the delay stage that sets its feedback.
pub const DELAY_FEEDBACK: u8 = 1;

/// Parameter of the delay stage that sets its wet/dry mix.
pub const DELAY_MIX: u8 = 2;

/// Corner frequency of the low-shelf stage, in hertz.
pub const LOW_SHELF_HZ: u32 = 200;

/// Center frequency of the peaking stage, in hertz.
pub const PEAKING_HZ: u32 = 1000;

/// Corner frequency of the high-shelf stage, in hertz.
pub const HIGH_SHELF_HZ: u32 = 4000;

/// A parameter of the effects chain that an update can set.
#[derive(Clone, Copy, Debug, PartialEq, Eq, Structural)]
pub enum EffectParam {
    /// Gain in dB of the low-shelf stage.
    LowShelfGain,
    /// Gain in dB of the peaking stage.
    PeakingGain,
    /// Gain in dB of the high-shelf stage.
    HighShelfGain,
    /// Delay time in seconds.
    DelayTime,
    /// Delay feedback amount.
    DelayFeedback,
    /// Delay wet/dry mix.
    DelayMix,
}

/// The parameter that `(effect_id, param_id)` sets, or `None` for a pair that
/// the chain ignores. Equalizer stages take their gain whatever the parameter
/// id; the delay takes time, feedback and mix; every other pair is a no-op.
pub fn route_param(effect_id: u8, param_id: u8) -> (r: Option<EffectParam>)
    ensures
        effect_id == EQ_LOW ==> r == Some(EffectParam::LowShelfGain),
        effect_id == EQ_MID ==> r == Some(EffectParam::PeakingGain),
        effect_id == EQ_HIGH ==> r == Some(EffectParam::HighShelfGain),
        effect_id == DELAY ==> r == if param_id == DELAY_TIME {
            Some(EffectParam::DelayTime)
        } else if param_id == DELAY_FEEDBACK {
            Some(EffectParam::DelayFeedback)
        } else if param_id == DELAY_MIX {
            Some(EffectParam::DelayMix)
        } else {
            None
        },
        effect_id != EQ_LOW && effect_id != EQ_MID && effect_id != EQ_HIGH && effect_id
            != DELAY ==> r is None,
{
    if effect_id == EQ_LOW {
        Some(EffectParam::LowShelfGain)
    } else if effect_id == EQ_MID {
        Some(EffectParam::PeakingGain)
    } else if effect_id == EQ_HIGH {
        Some(EffectParam::HighShelfGain)
    } else if effect_id == DELAY {
        if param_id == DELAY_TIME {
            Some(EffectParam::DelayTime)
        } else if param_id == DELAY_FEEDBACK {
            Some(EffectParam::DelayFeedback)
        } else if param_id == DELAY_MIX {
            Some(EffectParam::DelayMix)
        } else {
            None
        }
    } else {
        None
    }
}

} // verus!
