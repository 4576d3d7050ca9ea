//! A MIDI-driven monophonic/unison synthesizer core.
//!
//! The crate holds the control half of a small synthesizer: decoding raw
//! MIDI bytes, last-note-priority tracking of held notes, the per-engine
//! control state machine, the program registry with hot swap, the event
//! bridge between the MIDI thread and the audio thread, and the integer
//! pitch arithmetic behind unison detuning and portamento. The digital
//! signal processing itself (oscillators, filters, envelopes) is left to
//! an outside primitives library driven by an unverified shell.

pub mod bridge;
pub mod engines;
pub mod midi;
pub mod portamento;
pub mod pressed_notes;
pub mod synth_engine;
pub mod ugens;
pub mod unison;
