//! Discrete core of a real-time audio engine: delay-line storage, FFT frame
//! layout, effect parameter routing, waveform selection, the ADSR stage
//! machine and the length rules of the buffer utilities.

pub mod buffers;
pub mod delay;
pub mod envelope;
pub mod oscillator;
pub mod routing;
pub mod spectrum;
