//! The capability interface every concrete engine offers the audio path.

use vstd::prelude::*;
use crate::midi::MidiMessage;
use crate::pressed_notes::without_note;

verus! {

/// A continuous parameter a control change can reach. Which controller
/// number drives which target is fixed per engine; the scaling of the raw
/// 0..=127 value onto the parameter's range belongs to the
/// signal-processing shell.
#[derive(Clone, Copy, Debug, PartialEq, Eq, Structural)]
pub enum ParamTarget {
    SubOscWidth,
    FilterCutoff,
    FilterResonance,
    FilterSaturation,
}

/// A parameter change an engine asks the signal-processing shell to
/// apply: the target and the raw controller value.
#[derive(Clone, Copy, Debug, PartialEq, Eq, Structural)]
pub struct ParamUpdate {
    pub target: ParamTarget,
    pub value: u8,
}

/// The engine's note state hangs together: its gate is open exactly while
/// a note is held, and while one is, the pitch target is the most
/// recently pressed note still held.
pub open spec fn engine_consistent<E: SynthEngine>(e: &E) -> bool {
    &&& e.gate() <==> e.notes().len() > 0
    &&& e.notes().len() > 0 ==> e.target_note() == e.notes().last()
}

/// What any concrete engine exposes to the audio path.
///
/// An engine consumes MIDI messages and keeps three pieces of control
/// state: the stack of held notes, the pitch target, and its gate. Every
/// engine routes notes the same way — the contract below fixes it once —
/// and differs only in its controller-to-parameter map and in the signal
/// chain the shell builds around it.
pub trait SynthEngine: Sized {
    /// The held notes, in press order.
    spec fn notes(&self) -> Seq<u8>;

    /// The note the oscillators should glide toward.
    spec fn target_note(&self) -> u8;

    /// Whether the envelope gate is open.
    spec fn gate(&self) -> bool;

    /// The engine's fixed controller-number-to-parameter map.
    spec fn param_map(&self, controller: u8) -> Option<ParamTarget>;

    /// The sample rate the engine was built for, fixed at construction.
    spec fn sample_rate(&self) -> u32;

    /// Feed one decoded message to the engine.
    ///
    /// A note-on appends the note and takes over the pitch target and the
    /// gate; a note-off releases every occurrence of the note and falls
    /// back to the next most recent held note, closing its gate only when
    /// none is left (the pitch target then holds its last value). A
    /// control change touches no note state and yields the parameter
    /// update its controller maps to, unknown controllers being ignored.
    /// Anything else is ignored.
    fn on_midi_message(&mut self, m: MidiMessage) -> (r: Option<ParamUpdate>)
        requires
            old(self).gate() <==> old(self).notes().len() > 0,
            old(self).notes().len() > 0 ==> old(self).target_note() == old(self).notes().last(),
        ensures
            final(self).gate() <==> final(self).notes().len() > 0,
            final(self).notes().len() > 0 ==> final(self).target_note() == final(self).notes().last(),
            forall|c: u8| final(self).param_map(c) == old(self).param_map(c),
            final(self).sample_rate() == old(self).sample_rate(),
            match m {
                MidiMessage::NoteOn(_, n, _) => {
                    &&& final(self).notes() == old(self).notes().push(n)
                    &&& final(self).target_note() == n
                    &&& final(self).gate()
                    &&& r is None
                },
                MidiMessage::NoteOff(_, n, _) => {
                    &&& final(self).notes() == without_note(old(self).notes(), n)
                    &&& (final(self).notes().len() > 0 ==> final(self).target_note() == final(self).notes().last() && final(self).gate() == old(self).gate())
                    &&& (final(self).notes().len() == 0 ==> final(self).target_note() == old(self).target_note() && !final(self).gate())
                    &&& r is None
                },
                MidiMessage::ControlChange(_, c, v) => {
                    &&& final(self).notes() == old(self).notes()
                    &&& final(self).target_note() == old(self).target_note()
                    &&& final(self).gate() == old(self).gate()
                    &&& r == (match old(self).param_map(c) {
                        Some(t) => Some(ParamUpdate { target: t, value: v }),
                        None => None::<ParamUpdate>,
                    })
                },
                _ => {
                    &&& final(self).notes() == old(self).notes()
                    &&& final(self).target_note() == old(self).target_note()
                    &&& final(self).gate() == old(self).gate()
                    &&& r is None
                },
            },
    ;
}

} // verus!
