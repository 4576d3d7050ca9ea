//! The engine registry and the hot-swap controller around the active
//! engine.

use vstd::prelude::*;
use crate::bridge::EventBridge;
use crate::midi::{MidiMessage, SynthError};
use crate::synth_engine::{SynthEngine, ParamTarget, ParamUpdate, engine_consistent};
use crate::pressed_notes::without_note;

pub mod test;
pub mod young;

use test::TestEngine;
use young::Young;

verus! {

/// Which engine preset is active.
#[derive(Clone, Copy, Debug, PartialEq, Eq, Structural)]
pub enum EngineKind {
    Test,
    Young,
}

/// Whether a program number has a registered engine constructor.
/// Program 0 is reserved and deliberately unregistered.
pub open spec fn spec_program_registered(program: u8) -> bool {
    program == 1 || program == 2
}

/// The engine preset a registered program selects.
pub open spec fn spec_program_kind(program: u8) -> EngineKind {
    if program == 1 {
        EngineKind::Test
    } else {
        EngineKind::Young
    }
}

/// The active engine: a closed set of presets behind one interface.
pub enum EngineInstance {
    Test(TestEngine),
    Young(Young),
}

impl EngineInstance {
    pub open spec fn kind(&self) -> EngineKind {
        match self {
            EngineInstance::Test(_) => EngineKind::Test,
            EngineInstance::Young(_) => EngineKind::Young,
        }
    }

    pub open spec fn sample_rate(&self) -> u32 {
        match self {
            EngineInstance::Test(e) => e.sample_rate(),
            EngineInstance::Young(e) => e.sample_rate(),
        }
    }

    pub fn gate_on(&self) -> (g: bool)
        ensures
            g == self.gate(),
    {
        match self {
            EngineInstance::Test(e) => e.gate_on(),
            EngineInstance::Young(e) => e.gate_on(),
        }
    }

    pub fn note_target(&self) -> (n: u8)
        ensures
            n == self.target_note(),
    {
        match self {
            EngineInstance::Test(e) => e.note_target(),
            EngineInstance::Young(e) => e.note_target(),
        }
    }

    /// The note that should sound right now, if any.
    pub fn current_note(&self) -> (r: Option<u8>)
        ensures
            r == (if self.notes().len() == 0 {
                Option::<u8>::None
            } else {
                Option::Some(self.notes().last())
            }),
    {
        match self {
            EngineInstance::Test(e) => e.current_note(),
            EngineInstance::Young(e) => e.current_note(),
        }
    }

    pub open spec fn notes(&self) -> Seq<u8> {
        match self {
            EngineInstance::Test(e) => e.notes(),
            EngineInstance::Young(e) => e.notes(),
        }
    }

    pub open spec fn target_note(&self) -> u8 {
        match self {
            EngineInstance::Test(e) => e.target_note(),
            EngineInstance::Young(e) => e.target_note(),
        }
    }

    pub open spec fn gate(&self) -> bool {
        match self {
            EngineInstance::Test(e) => e.gate(),
            EngineInstance::Young(e) => e.gate(),
        }
    }

    pub open spec fn param_map(&self, controller: u8) -> Option<ParamTarget> {
        match self {
            EngineInstance::Test(e) => e.param_map(controller),
            EngineInstance::Young(e) => e.param_map(controller),
        }
    }

    /// The engine's note state hangs together (see `engine_consistent`).
    pub open spec fn consistent(&self) -> bool {
        match self {
            EngineInstance::Test(e) => engine_consistent(e),
            EngineInstance::Young(e) => engine_consistent(e),
        }
    }

    /// Feed one decoded message to whichever engine is active, under the
    /// shared contract of `SynthEngine::on_midi_message`; the engine kind
    /// and sample rate are untouched.
    pub fn on_midi_message(&mut self, m: MidiMessage) -> (r: Option<ParamUpdate>)
        requires
            old(self).consistent(),
        ensures
            final(self).consistent(),
            final(self).kind() == old(self).kind(),
            final(self).sample_rate() == old(self).sample_rate(),
            forall|c: u8| final(self).param_map(c) == old(self).param_map(c),
            match m {
                MidiMessage::NoteOn(_, n, _) => {
                    &&& final(self).notes() == old(self).notes().push(n)
                    &&& final(self).target_note() == n
                    &&& final(self).gate()
                    &&& r is None
                },
                MidiMessage::NoteOff(_, n, _) => {
                    &&& final(self).notes() == without_note(old(self).notes(), n)
                    &&& (final(self).notes().len() > 0 ==> final(self).target_note() == final(self).notes().last() && final(self).gate() == old(self).gate())
                    &&& (final(self).notes().len() == 0 ==> final(self).target_note() == old(self).target_note() && !final(self).gate())
                    &&& r is None
                },
                MidiMessage::ControlChange(_, c, v) => {
                    &&& final(self).notes() == old(self).notes()
                    &&& final(self).target_note() == old(self).target_note()
                    &&& final(self).gate() == old(self).gate()
                    &&& r == (match old(self).param_map(c) {
                        Some(t) => Some(ParamUpdate { target: t, value: v }),
                        None => None::<ParamUpdate>,
                    })
                },
                _ => {
                    &&& final(self).notes() == old(self).notes()
                    &&& final(self).target_note() == old(self).target_note()
                    &&& final(self).gate() == old(self).gate()
                    &&& r is None
                },
            },
    {
        match self {
            EngineInstance::Test(e) => e.on_midi_message(m),
            EngineInstance::Young(e) => e.on_midi_message(m),
        }
    }
}

/// An engine that was just built: no note held, gate closed, pitch target
/// resting on MIDI note 64, ready for the given sample rate.
pub open spec fn spec_fresh_engine(e: &EngineInstance, sample_rate: u32) -> bool {
    &&& e.notes() == Seq::<u8>::empty()
    &&& e.target_note() == 64
    &&& !e.gate()
    &&& e.sample_rate() == sample_rate
}

/// Build the engine a program number selects, for the given sample rate.
///
/// Succeeds exactly on the registered program numbers; anything else is
/// answered with `UnsupportedProgram`, never with a silent default.
pub fn create_enginge(program: u8, sample_rate: u32) -> (r: Result<EngineInstance, SynthError>)
    ensures
        match r {
            Ok(e) => {
                &&& spec_program_registered(program)
                &&& e.kind() == spec_program_kind(program)
                &&& spec_fresh_engine(&e, sample_rate)
                &&& e.consistent()
            },
            Err(err) => {
                &&& !spec_program_registered(program)
                &&& err == SynthError::UnsupportedProgram
            },
        },
{
    match program {
        1 => Ok(EngineInstance::Test(TestEngine::new(sample_rate))),
        2 => Ok(EngineInstance::Young(Young::new(sample_rate))),
        _ => Err(SynthError::UnsupportedProgram),
    }
}

/// What the audio path is told to do after one drained message.
#[derive(Clone, Copy, Debug, PartialEq, Eq, Structural)]
pub enum MessageOutcome {
    /// Nothing to do beyond the note state the controller already updated.
    Ignored,
    /// Apply this parameter change to the active signal chain.
    Param(ParamUpdate),
    /// The active engine was replaced: rebuild the signal chain for the
    /// new kind.
    Swapped(EngineKind),
    /// A program change named an unregistered program; the active engine
    /// stands untouched.
    Rejected(SynthError),
}

/// The hot-swap controller: owns the active engine, replaces it wholesale
/// on a program change, and routes every other message to it.
///
/// The controller lives on the audio-render thread; the engine is never
/// shared, only replaced, so rendering needs no lock.
pub struct Controller {
    active: EngineInstance,
    sample_rate: u32,
}

impl Controller {
    pub closed spec fn wf(&self) -> bool {
        &&& self.active.consistent()
        &&& self.active.sample_rate() == self.sample_rate
    }

    pub closed spec fn sample_rate(&self) -> u32 {
        self.sample_rate
    }

    pub closed spec fn kind(&self) -> EngineKind {
        self.active.kind()
    }

    pub closed spec fn notes(&self) -> Seq<u8> {
        self.active.notes()
    }

    pub closed spec fn target_note(&self) -> u8 {
        self.active.target_note()
    }

    pub closed spec fn gate(&self) -> bool {
        self.active.gate()
    }

    pub closed spec fn param_map(&self, controller: u8) -> Option<ParamTarget> {
        self.active.param_map(controller)
    }

    /// Start with the engine of a registered program.
    pub fn new(program: u8, sample_rate: u32) -> (r: Result<Controller, SynthError>)
        ensures
            match r {
                Ok(c) => {
                    &&& spec_program_registered(program)
                    &&& c.wf()
                    &&& c.kind() == spec_program_kind(program)
                    &&& c.sample_rate() == sample_rate
                    &&& c.notes() == Seq::<u8>::empty()
                    &&& c.target_note() == 64
                    &&& !c.gate()
                },
                Err(err) => {
                    &&& !spec_program_registered(program)
                    &&& err == SynthError::UnsupportedProgram
                },
            },
    {
        match create_enginge(program, sample_rate) {
            Ok(e) => Ok(Controller { active: e, sample_rate }),
            Err(err) => Err(err),
        }
    }

    /// Replace the active engine with a fresh one for `program`.
    ///
    /// On a registered program the old engine is discarded whole: the new
    /// state is that of the program's constructor, with no residue of
    /// what played before. On an unregistered program nothing changes and
    /// the caller gets `UnsupportedProgram`; the active engine keeps
    /// working as before.
    pub fn select(&mut self, program: u8) -> (r: Result<(), SynthError>)
        requires
            old(self).wf(),
        ensures
            final(self).wf(),
            final(self).sample_rate() == old(self).sample_rate(),
            match r {
                Ok(()) => {
                    &&& spec_program_registered(program)
                    &&& final(self).kind() == spec_program_kind(program)
                    &&& final(self).notes() == Seq::<u8>::empty()
                    &&& final(self).target_note() == 64
                    &&& !final(self).gate()
                },
                Err(err) => {
                    &&& !spec_program_registered(program)
                    &&& err == SynthError::UnsupportedProgram
                    &&& final(self).kind() == old(self).kind()
                    &&& final(self).notes() == old(self).notes()
                    &&& final(self).target_note() == old(self).target_note()
                    &&& final(self).gate() == old(self).gate()
                    &&& forall|c: u8| final(self).param_map(c) == old(self).param_map(c)
                },
            },
    {
        match create_enginge(program, self.sample_rate) {
            Ok(e) => {
                self.active = e;
                Ok(())
            },
            Err(err) => Err(err),
        }
    }

    pub fn engine_kind(&self) -> (k: EngineKind)
        ensures
            k == self.kind(),
    {
        match &self.active {
            EngineInstance::Test(_) => EngineKind::Test,
            EngineInstance::Young(_) => EngineKind::Young,
        }
    }

    pub fn gate_on(&self) -> (g: bool)
        ensures
            g == self.gate(),
    {
        self.active.gate_on()
    }

    pub fn note_target(&self) -> (n: u8)
        ensures
            n == self.target_note(),
    {
        self.active.note_target()
    }

    /// The note that should sound right now, if any.
    pub fn current_note(&self) -> (r: Option<u8>)
        ensures
            r == (if self.notes().len() == 0 {
                Option::<u8>::None
            } else {
                Option::Some(self.notes().last())
            }),
    {
        self.active.current_note()
    }

    /// One step of the audio thread's drain loop.
    ///
    /// A program change swaps the engine (or is rejected, leaving it
    /// untouched); every other message goes to whichever engine is active
    /// at drain time, and the engine's answer is passed on.
    pub fn on_midi_message(&mut self, m: MidiMessage) -> (r: MessageOutcome)
        requires
            old(self).wf(),
        ensures
            final(self).wf(),
            final(self).sample_rate() == old(self).sample_rate(),
            match m {
                MidiMessage::ProgramChange(_, program) => {
                    if spec_program_registered(program) {
                        &&& final(self).kind() == spec_program_kind(program)
                        &&& final(self).notes() == Seq::<u8>::empty()
                        &&& final(self).target_note() == 64
                        &&& !final(self).gate()
                        &&& r == MessageOutcome::Swapped(spec_program_kind(program))
                    } else {
                        &&& final(self).kind() == old(self).kind()
                        &&& final(self).notes() == old(self).notes()
                        &&& final(self).target_note() == old(self).target_note()
                        &&& final(self).gate() == old(self).gate()
                        &&& r == MessageOutcome::Rejected(SynthError::UnsupportedProgram)
                    }
                },
                MidiMessage::NoteOn(_, n, _) => {
                    &&& final(self).kind() == old(self).kind()
                    &&& final(self).notes() == old(self).notes().push(n)
                    &&& final(self).target_note() == n
                    &&& final(self).gate()
                    &&& r == MessageOutcome::Ignored
                },
                MidiMessage::NoteOff(_, n, _) => {
                    &&& final(self).kind() == old(self).kind()
                    &&& final(self).notes() == without_note(old(self).notes(), n)
                    &&& (final(self).notes().len() > 0 ==> final(self).target_note() == final(self).notes().last() && final(self).gate() == old(self).gate())
                    &&& (final(self).notes().len() == 0 ==> final(self).target_note() == old(self).target_note() && !final(self).gate())
                    &&& r == MessageOutcome::Ignored
                },
                MidiMessage::ControlChange(_, c, v) => {
                    &&& final(self).kind() == old(self).kind()
                    &&& final(self).notes() == old(self).notes()
                    &&& final(self).target_note() == old(self).target_note()
                    &&& final(self).gate() == old(self).gate()
                    &&& r == (match old(self).param_map(c) {
                        Some(t) => MessageOutcome::Param(ParamUpdate { target: t, value: v }),
                        None => MessageOutcome::Ignored,
                    })
                },
                MidiMessage::Other => {
                    &&& final(self).kind() == old(self).kind()
                    &&& final(self).notes() == old(self).notes()
                    &&& final(self).target_note() == old(self).target_note()
                    &&& final(self).gate() == old(self).gate()
                    &&& r == MessageOutcome::Ignored
                },
            },
    {
        match m {
            MidiMessage::ProgramChange(_, program) => {
                match self.select(program) {
                    Ok(()) => MessageOutcome::Swapped(self.engine_kind()),
                    Err(err) => MessageOutcome::Rejected(err),
                }
            },
            _ => {
                match self.active.on_midi_message(m) {
                    Some(update) => MessageOutcome::Param(update),
                    None => MessageOutcome::Ignored,
                }
            },
        }
    }
}

/// The controller map each engine kind answers control changes with.
pub open spec fn spec_param_map(kind: EngineKind, controller: u8) -> Option<ParamTarget> {
    match kind {
        EngineKind::Test => if controller == 1 {
            Some(ParamTarget::SubOscWidth)
        } else if controller == 74 {
            Some(ParamTarget::FilterCutoff)
        } else if controller == 71 {
            Some(ParamTarget::FilterResonance)
        } else if controller == 72 {
            Some(ParamTarget::FilterSaturation)
        } else {
            None
        },
        EngineKind::Young => if controller == 74 {
            Some(ParamTarget::FilterCutoff)
        } else if controller == 71 {
            Some(ParamTarget::FilterResonance)
        } else if controller == 72 {
            Some(ParamTarget::FilterSaturation)
        } else {
            None
        },
    }
}

/// A controller's map is the one its engine kind prescribes.
pub proof fn lemma_param_map_follows_kind(c: &Controller)
    ensures
        forall|ctl: u8| #[trigger] c.param_map(ctl) == spec_param_map(c.kind(), ctl),
{
}

/// Everything the audio path observes of the control state, as one value.
#[verifier::ext_equal]
pub struct ControlView {
    pub kind: EngineKind,
    pub notes: Seq<u8>,
    pub target_note: u8,
    pub gate: bool,
}

impl Controller {
    /// The observable control state, gathered up.
    pub open spec fn control_state(&self) -> ControlView {
        ControlView {
            kind: self.kind(),
            notes: self.notes(),
            target_note: self.target_note(),
            gate: self.gate(),
        }
    }
}

/// The control state after one message: the pure step the controller's
/// `on_midi_message` realizes.
pub open spec fn step_control(v: ControlView, m: MidiMessage) -> ControlView {
    match m {
        MidiMessage::NoteOn(_, n, _) => ControlView {
            kind: v.kind,
            notes: v.notes.push(n),
            target_note: n,
            gate: true,
        },
        MidiMessage::NoteOff(_, n, _) => {
            let remaining = without_note(v.notes, n);
            ControlView {
                kind: v.kind,
                notes: remaining,
                target_note: if remaining.len() > 0 {
                    remaining.last()
                } else {
                    v.target_note
                },
                gate: if remaining.len() > 0 {
                    v.gate
                } else {
                    false
                },
            }
        },
        MidiMessage::ControlChange(_, _, _) => v,
        MidiMessage::ProgramChange(_, p) => if spec_program_registered(p) {
            ControlView {
                kind: spec_program_kind(p),
                notes: Seq::empty(),
                target_note: 64,
                gate: false,
            }
        } else {
            v
        },
        MidiMessage::Other => v,
    }
}

/// What the audio path is told after one message, given the control state
/// the message meets.
pub open spec fn step_outcome(v: ControlView, m: MidiMessage) -> MessageOutcome {
    match m {
        MidiMessage::ControlChange(_, c, value) => match spec_param_map(v.kind, c) {
            Some(t) => MessageOutcome::Param(ParamUpdate { target: t, value }),
            None => MessageOutcome::Ignored,
        },
        MidiMessage::ProgramChange(_, p) => if spec_program_registered(p) {
            MessageOutcome::Swapped(spec_program_kind(p))
        } else {
            MessageOutcome::Rejected(SynthError::UnsupportedProgram)
        },
        _ => MessageOutcome::Ignored,
    }
}

/// The control state after a whole sequence of messages, first to last.
pub open spec fn run_control(v: ControlView, msgs: Seq<MidiMessage>) -> ControlView
    decreases msgs.len(),
{
    if msgs.len() == 0 {
        v
    } else {
        step_control(run_control(v, msgs.drop_last()), msgs.last())
    }
}

/// Hot swap forgets history: whatever messages came before, a program
/// change to a registered program leaves exactly the fresh control state
/// of that program's constructor — no residue of what played earlier.
pub proof fn lemma_hot_swap_forgets_history(
    v: ControlView,
    msgs: Seq<MidiMessage>,
    channel: u8,
    program: u8,
)
    requires
        spec_program_registered(program),
    ensures
        run_control(v, msgs.push(MidiMessage::ProgramChange(channel, program))) == (ControlView {
            kind: spec_program_kind(program),
            notes: Seq::empty(),
            target_note: 64,
            gate: false,
        }),
{
    assert(msgs.push(MidiMessage::ProgramChange(channel, program)).drop_last() =~= msgs);
}

/// A rejected program change is invisible to the control state: after any
/// message history, asking for an unregistered program leaves the state
/// exactly as it stood, so the active engine keeps working.
pub proof fn lemma_rejected_swap_changes_nothing(
    v: ControlView,
    msgs: Seq<MidiMessage>,
    channel: u8,
    program: u8,
)
    requires
        !spec_program_registered(program),
    ensures
        run_control(v, msgs.push(MidiMessage::ProgramChange(channel, program))) == run_control(
            v,
            msgs,
        ),
{
    assert(msgs.push(MidiMessage::ProgramChange(channel, program)).drop_last() =~= msgs);
}

/// One audio block's control step: take every message the bridge holds
/// and feed each, in arrival order, to the controller.
///
/// The controller ends in the state the queued messages produce when
/// applied first to last, and the `i`th answer is the one the `i`th
/// message earns at the state its predecessors reached — a MIDI event
/// thus takes effect no later than the start of the block after its
/// arrival.
pub fn drain_and_dispatch(controller: &mut Controller, bridge: &mut EventBridge) -> (outcomes:
    Vec<MessageOutcome>)
    requires
        old(controller).wf(),
    ensures
        final(controller).wf(),
        final(controller).sample_rate() == old(controller).sample_rate(),
        final(bridge)@ == Seq::<MidiMessage>::empty(),
        final(controller).control_state() == run_control(
            old(controller).control_state(),
            old(bridge)@,
        ),
        outcomes@.len() == old(bridge)@.len(),
        forall|i: int|
            0 <= i < outcomes@.len() ==> outcomes@[i] == step_outcome(
                run_control(old(controller).control_state(), old(bridge)@.take(i)),
                old(bridge)@[i],
            ),
{
    let msgs = bridge.drain();
    let ghost v0 = controller.control_state();
    let ghost sr0 = controller.sample_rate();
    let mut outcomes: Vec<MessageOutcome> = Vec::new();
    let mut i: usize = 0;
    while i < msgs.len()
        invariant
            i <= msgs@.len(),
            controller.wf(),
            controller.sample_rate() == sr0,
            controller.control_state() == run_control(v0, msgs@.take(i as int)),
            outcomes@.len() == i,
            forall|j: int|
                0 <= j < i ==> outcomes@[j] == step_outcome(
                    run_control(v0, msgs@.take(j)),
                    msgs@[j],
                ),
        decreases msgs@.len() - i,
    {
        let ghost v_pre = controller.control_state();
        let m = msgs[i];
        proof {
            lemma_param_map_follows_kind(controller);
        }
        let outcome = controller.on_midi_message(m);
        proof {
            assert(msgs@.take(i as int + 1).drop_last() =~= msgs@.take(i as int));
            assert(controller.control_state() =~= step_control(v_pre, m));
            assert(outcome == step_outcome(v_pre, m));
        }
        outcomes.push(outcome);
        i = i + 1;
    }
    proof {
        assert(msgs@.take(msgs@.len() as int) =~= msgs@);
    }
    outcomes
}

} // verus!
