//! Waveform selection by numeric identifier.
use vstd::prelude::*;

verus! {

/// Identifier of the sine waveform.
pub const SINE: u8 = 0;

/// Identifier of the rising sawtooth waveform.
pub const SAW: u8 = 1;

/// Identifier of the square waveform.
pub const SQUARE: u8 = 2;

/// Identifier of the triangle waveform.
pub const TRIANGLE: u8 = 3;

/// Identifier of uniform white noise.
pub const NOISE: u8 = 4;

/// The waveforms an oscillator can produce.
#[derive(Clone, Copy, Debug, PartialEq, Eq, Structural)]
pub enum Waveform {
    Sine,
    Saw,
    Square,
    Triangle,
    Noise,
}

impl Waveform {
    /// The identifier of a waveform.
    pub open spec fn spec_id(self) -> u8 {
        match self {
            Waveform::Sine => SINE,
            Waveform::Saw => SAW,
            Waveform::Square => SQUARE,
            Waveform::Triangle => TRIANGLE,
            Waveform::Noise => NOISE,
        }
    }

    pub fn id(&self) -> (r: u8)
        ensures
            r == self.spec_id(),
    {
        match self {
            Waveform::Sine => SINE,
            Waveform::Saw => SAW,
            Waveform::Square => SQUARE,
            Waveform::Triangle => TRIANGLE,
            Waveform::Noise => NOISE,
        }
    }

    /// The waveform with identifier `id`; `None` for an unknown identifier,
    /// which generates silence.
    pub fn from_id(id: u8) -> (r: Option<Waveform>)
        ensures
            r matches Some(w) ==> w.spec_id() == id,
            r is None <==> id > NOISE,
    {
        if id == SINE {
            Some(Waveform::Sine)
        } else if id == SAW {
            Some(Waveform::Saw)
        } else if id == SQUARE {
            Some(Waveform::Square)
        } else if id == TRIANGLE {
            Some(Waveform::Triangle)
        } else if id == NOISE {
            Some(Waveform::Noise)
        } else {
            None
        }
    }
}

} // verus!
