//! The first engine preset: unison saws over a sub square, with a width
//! control on the sub oscillator.

use vstd::prelude::*;
use crate::midi::MidiMessage;
use crate::pressed_notes::{PressedNotes, lemma_without_note_len};
use crate::synth_engine::{SynthEngine, ParamTarget, ParamUpdate, engine_consistent};

verus! {

/// Control state of the first engine preset.
///
/// Its controller map: 1 drives the sub-oscillator width, 74 the filter
/// cutoff, 71 the filter resonance, 72 the filter saturation.
pub struct TestEngine {
    pressed_notes: PressedNotes,
    note: u8,
    gate: bool,
    sample_rate: u32,
}

impl TestEngine {
    /// A fresh engine: no note held, gate closed, pitch target resting on
    /// MIDI note 64.
    pub fn new(sample_rate: u32) -> (r: Self)
        ensures
            r.notes() == Seq::<u8>::empty(),
            r.target_note() == 64,
            !r.gate(),
            r.sample_rate() == sample_rate,
            engine_consistent(&r),
    {
        TestEngine { pressed_notes: PressedNotes::new(), note: 64, gate: false, sample_rate }
    }

    pub fn gate_on(&self) -> (g: bool)
        ensures
            g == self.gate(),
    {
        self.gate
    }

    pub fn note_target(&self) -> (n: u8)
        ensures
            n == self.target_note(),
    {
        self.note
    }

    /// The note that should sound right now, if any.
    pub fn current_note(&self) -> (r: Option<u8>)
        ensures
            r == (if self.notes().len() == 0 {
                Option::<u8>::None
            } else {
                Option::Some(self.notes().last())
            }),
    {
        self.pressed_notes.get_current_note()
    }
}

impl SynthEngine for TestEngine {
    closed spec fn notes(&self) -> Seq<u8> {
        self.pressed_notes@
    }

    closed spec fn target_note(&self) -> u8 {
        self.note
    }

    closed spec fn gate(&self) -> bool {
        self.gate
    }

    /// The sample rate the engine was built for, handed on to the signal
    /// chain the shell assembles.
    closed spec fn sample_rate(&self) -> u32 {
        self.sample_rate
    }

    open spec fn param_map(&self, controller: u8) -> Option<ParamTarget> {
        if controller == 1 {
            Some(ParamTarget::SubOscWidth)
        } else if controller == 74 {
            Some(ParamTarget::FilterCutoff)
        } else if controller == 71 {
            Some(ParamTarget::FilterResonance)
        } else if controller == 72 {
            Some(ParamTarget::FilterSaturation)
        } else {
            None
        }
    }

    fn on_midi_message(&mut self, m: MidiMessage) -> (r: Option<ParamUpdate>) {
        match m {
            MidiMessage::NoteOn(_, n, _) => {
                self.pressed_notes.note_on(n);
                self.note = n;
                self.gate = true;
                None
            },
            MidiMessage::NoteOff(_, n, _) => {
                let ghost pre = self.pressed_notes@;
                self.pressed_notes.note_off(n);
                proof {
                    lemma_without_note_len(pre, n);
                }
                match self.pressed_notes.get_current_note() {
                    Some(remaining) => {
                        self.note = remaining;
                    },
                    None => {
                        self.gate = false;
                    },
                }
                None
            },
            MidiMessage::ControlChange(_, c, v) => {
                match c {
                    1 => Some(ParamUpdate { target: ParamTarget::SubOscWidth, value: v }),
                    74 => Some(ParamUpdate { target: ParamTarget::FilterCutoff, value: v }),
                    71 => Some(ParamUpdate { target: ParamTarget::FilterResonance, value: v }),
                    72 => Some(ParamUpdate { target: ParamTarget::FilterSaturation, value: v }),
                    _ => None,
                }
            },
            _ => None,
        }
    }
}

} // verus!
