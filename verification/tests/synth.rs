use paradise_synth::bridge::EventBridge;
use paradise_synth::engines::{
    create_enginge, drain_and_dispatch, Controller, EngineKind, MessageOutcome,
};
use paradise_synth::engines::test::TestEngine;
use paradise_synth::engines::young::Young;
use paradise_synth::midi::{decode_midi_message, MidiMessage, SynthError};
use paradise_synth::portamento::Portamento;
use paradise_synth::pressed_notes::PressedNotes;
use paradise_synth::synth_engine::{ParamTarget, ParamUpdate, SynthEngine};
use paradise_synth::ugens::UGenFactory;
use paradise_synth::unison::UnisonOscillator;

#[test]
fn decode_note_on() {
    assert_eq!(
        decode_midi_message(&[0x90, 60, 100]),
        Ok(MidiMessage::NoteOn(0, 60, 100))
    );
    assert_eq!(
        decode_midi_message(&[0x93, 127, 1]),
        Ok(MidiMessage::NoteOn(3, 127, 1))
    );
}

#[test]
fn decode_note_off() {
    assert_eq!(
        decode_midi_message(&[0x80, 60, 0]),
        Ok(MidiMessage::NoteOff(0, 60, 0))
    );
    assert_eq!(
        decode_midi_message(&[0x8F, 1, 64]),
        Ok(MidiMessage::NoteOff(15, 1, 64))
    );
}

#[test]
fn decode_control_change() {
    assert_eq!(
        decode_midi_message(&[0xB2, 74, 90]),
        Ok(MidiMessage::ControlChange(2, 74, 90))
    );
}

#[test]
fn decode_program_change() {
    assert_eq!(
        decode_midi_message(&[0xC1, 2, 0]),
        Ok(MidiMessage::ProgramChange(1, 2))
    );
    // The program byte is kept raw, whatever it holds.
    assert_eq!(
        decode_midi_message(&[0xC0, 200, 7]),
        Ok(MidiMessage::ProgramChange(0, 200))
    );
}

#[test]
fn decode_other_channel_messages() {
    assert_eq!(decode_midi_message(&[0xA0, 60, 10]), Ok(MidiMessage::Other));
    assert_eq!(decode_midi_message(&[0xD5, 3, 0]), Ok(MidiMessage::Other));
    assert_eq!(decode_midi_message(&[0xE7, 0, 64]), Ok(MidiMessage::Other));
}

#[test]
fn decode_rejects_wrong_length() {
    assert_eq!(
        decode_midi_message(&[]),
        Err(SynthError::MalformedMidiMessage)
    );
    assert_eq!(
        decode_midi_message(&[0xC0, 2]),
        Err(SynthError::MalformedMidiMessage)
    );
    assert_eq!(
        decode_midi_message(&[0xF0, 1, 2, 3]),
        Err(SynthError::MalformedMidiMessage)
    );
}

#[test]
fn decode_rejects_bad_status() {
    // A data byte where the status byte should stand.
    assert_eq!(
        decode_midi_message(&[0x30, 60, 100]),
        Err(SynthError::MalformedMidiMessage)
    );
    // System messages (system exclusive among them) are not decodable.
    assert_eq!(
        decode_midi_message(&[0xF0, 1, 2]),
        Err(SynthError::MalformedMidiMessage)
    );
}

#[test]
fn decode_rejects_bad_data_bytes() {
    assert_eq!(
        decode_midi_message(&[0x90, 128, 100]),
        Err(SynthError::MalformedMidiMessage)
    );
    assert_eq!(
        decode_midi_message(&[0xB0, 74, 255]),
        Err(SynthError::MalformedMidiMessage)
    );
}

#[test]
fn pressed_notes_last_note_priority() {
    let mut notes = PressedNotes::new();
    assert_eq!(notes.len(), 0);
    assert_eq!(notes.get_current_note(), None);
    notes.note_on(60);
    assert_eq!(stack_of(&notes), vec![60]);
    assert_eq!(notes.get_current_note(), Some(60));
    notes.note_on(64);
    assert_eq!(stack_of(&notes), vec![60, 64]);
    assert_eq!(notes.get_current_note(), Some(64));
    // Releasing an older note keeps the newer one sounding.
    notes.note_off(60);
    assert_eq!(stack_of(&notes), vec![64]);
    assert_eq!(notes.get_current_note(), Some(64));
    notes.note_off(64);
    assert_eq!(stack_of(&notes), Vec::new());
    assert_eq!(notes.get_current_note(), None);
}

fn stack_of(notes: &PressedNotes) -> Vec<u8> {
    (0..notes.len()).map(|i| notes.note_at(i)).collect()
}

#[test]
fn pressed_notes_falls_back_to_previous() {
    let mut notes = PressedNotes::new();
    notes.note_on(60);
    notes.note_on(64);
    notes.note_on(67);
    notes.note_off(67);
    assert_eq!(notes.get_current_note(), Some(64));
    notes.note_off(64);
    assert_eq!(notes.get_current_note(), Some(60));
}

#[test]
fn pressed_notes_removes_duplicates_at_once() {
    let mut notes = PressedNotes::new();
    notes.note_on(60);
    notes.note_on(64);
    notes.note_on(60);
    assert_eq!(stack_of(&notes), vec![60, 64, 60]);
    assert_eq!(notes.get_current_note(), Some(60));
    // One release removes both entries of 60, keeping the rest in order.
    notes.note_off(60);
    assert_eq!(stack_of(&notes), vec![64]);
    assert_eq!(notes.get_current_note(), Some(64));
    notes.note_off(64);
    assert_eq!(notes.get_current_note(), None);
}

#[test]
fn engine_note_scenario() {
    // note_on 60, note_on 64, note_off 60, note_off 64: the classic
    // last-note-priority walk, with its gate following the stack.
    let mut engine = TestEngine::new(44_100);
    assert!(!engine.gate_on());

    engine.on_midi_message(MidiMessage::NoteOn(0, 60, 100));
    assert_eq!(engine.current_note(), Some(60));
    assert_eq!(engine.note_target(), 60);
    assert!(engine.gate_on());

    engine.on_midi_message(MidiMessage::NoteOn(0, 64, 100));
    assert_eq!(engine.current_note(), Some(64));
    assert_eq!(engine.note_target(), 64);
    assert!(engine.gate_on());

    engine.on_midi_message(MidiMessage::NoteOff(0, 60, 0));
    assert_eq!(engine.current_note(), Some(64));
    assert_eq!(engine.note_target(), 64);
    assert!(engine.gate_on());

    engine.on_midi_message(MidiMessage::NoteOff(0, 64, 0));
    assert_eq!(engine.current_note(), None);
    assert!(!engine.gate_on());
    // The pitch target holds its last value once nothing is held.
    assert_eq!(engine.note_target(), 64);
}

#[test]
fn engine_control_change_mapping() {
    let mut engine = TestEngine::new(44_100);
    assert_eq!(
        engine.on_midi_message(MidiMessage::ControlChange(0, 74, 90)),
        Some(ParamUpdate { target: ParamTarget::FilterCutoff, value: 90 })
    );
    assert_eq!(
        engine.on_midi_message(MidiMessage::ControlChange(0, 71, 10)),
        Some(ParamUpdate { target: ParamTarget::FilterResonance, value: 10 })
    );
    assert_eq!(
        engine.on_midi_message(MidiMessage::ControlChange(0, 72, 127)),
        Some(ParamUpdate { target: ParamTarget::FilterSaturation, value: 127 })
    );
    assert_eq!(
        engine.on_midi_message(MidiMessage::ControlChange(0, 1, 64)),
        Some(ParamUpdate { target: ParamTarget::SubOscWidth, value: 64 })
    );
    // Unrecognized controllers are ignored, not an error.
    assert_eq!(engine.on_midi_message(MidiMessage::ControlChange(0, 7, 64)), None);
    // Control changes never touch the note state.
    assert!(!engine.gate_on());
}

#[test]
fn young_has_no_sub_width_control() {
    let mut engine = Young::new(48_000);
    assert_eq!(engine.on_midi_message(MidiMessage::ControlChange(0, 1, 64)), None);
    assert_eq!(
        engine.on_midi_message(MidiMessage::ControlChange(0, 74, 3)),
        Some(ParamUpdate { target: ParamTarget::FilterCutoff, value: 3 })
    );
}

#[test]
fn bridge_preserves_order() {
    let mut bridge = EventBridge::new();
    let sent = [
        MidiMessage::NoteOn(0, 60, 100),
        MidiMessage::ControlChange(0, 74, 5),
        MidiMessage::NoteOn(0, 64, 90),
        MidiMessage::NoteOff(0, 60, 0),
        MidiMessage::ProgramChange(0, 2),
    ];
    for m in sent {
        bridge.push(m);
    }
    assert_eq!(bridge.len(), 5);
    let drained = bridge.drain();
    assert_eq!(drained, sent.to_vec());
    assert_eq!(bridge.len(), 0);
    assert_eq!(bridge.drain(), Vec::new());
}

#[test]
fn portamento_adopts_first_target() {
    let mut port = Portamento::new(882);
    // No glide from silence: the first target is adopted outright.
    assert_eq!(port.tick(60_000), 60_000);
    // Afterwards a new target is approached, not jumped to.
    let v = port.tick(72_000);
    assert!(v > 60_000 && v < 72_000);
}

#[test]
fn portamento_zero_rate_tracks_instantly() {
    let mut port = Portamento::new(0);
    assert_eq!(port.tick(60_000), 60_000);
    assert_eq!(port.tick(72_000), 72_000);
    assert_eq!(port.tick(1_000), 1_000);
}

#[test]
fn portamento_glide_steps_are_exact() {
    let mut port = Portamento::new(10);
    port.tick(0);
    // Each frame closes a tenth of the remaining distance.
    assert_eq!(port.tick(1_000), 100);
    assert_eq!(port.tick(1_000), 190);
    assert_eq!(port.tick(1_000), 271);
}

#[test]
fn portamento_settles_and_never_overshoots() {
    let mut port = Portamento::new(882);
    port.tick(60_000);
    let mut last: u32 = 60_000;
    let mut settled_at: Option<u32> = None;
    for frame in 0..12_000u32 {
        let v = port.tick(72_000);
        assert!(v >= last, "the glide moved away from the target");
        assert!(v <= 72_000, "the glide overshot the target");
        last = v;
        if v == 72_000 && settled_at.is_none() {
            settled_at = Some(frame);
        }
    }
    assert_eq!(last, 72_000);
    assert!(settled_at.is_some());
}

#[test]
fn portamento_glides_down_too() {
    let mut port = Portamento::new(4);
    port.tick(1_000);
    assert_eq!(port.tick(600), 900);
    assert_eq!(port.tick(600), 825);
}

#[test]
fn unison_detune_is_symmetric_around_center() {
    let mut set = UnisonOscillator::new(5, 100);
    set.set_note(60_000);
    // Center voice undetuned, spread growing outwards, symmetric.
    assert_eq!(set.voice_pitch(2), 60_000);
    assert_eq!(set.voice_pitch(1), 60_040);
    assert_eq!(set.voice_pitch(3), 60_040);
    assert_eq!(set.voice_pitch(0), 60_080);
    assert_eq!(set.voice_pitch(4), 60_080);
}

#[test]
fn unison_even_voice_count_spreads_from_center() {
    let mut set = UnisonOscillator::new(4, 100);
    set.set_note(30_000);
    assert_eq!(set.voice_pitch(2), 30_000);
    assert_eq!(set.voice_pitch(1), 30_050);
    assert_eq!(set.voice_pitch(3), 30_050);
    assert_eq!(set.voice_pitch(0), 30_100);
}

#[test]
fn portamento_retargets_from_where_it_stands() {
    let mut port = Portamento::new(10);
    port.tick(0);
    assert_eq!(port.tick(1_000), 100);
    // A new target is approached from the value already reached, not from
    // the old target and not from scratch.
    assert_eq!(port.tick(0), 90);
    assert_eq!(port.tick(2_100), 291);
}

#[test]
fn unison_single_voice_is_not_detuned() {
    // Whatever the spread, one voice plays the plain pitch.
    for detune in [0u32, 1, 100, 12_345, u32::MAX] {
        let mut set = UnisonOscillator::new(1, detune);
        set.set_note(61_500);
        assert_eq!(set.voice_pitch(0), 61_500);
    }
}

#[test]
fn create_enginge_registered_programs() {
    let test_engine = create_enginge(1, 44_100).unwrap();
    assert_eq!(test_engine.note_target(), 64);
    assert!(!test_engine.gate_on());
    assert_eq!(test_engine.current_note(), None);
    assert!(create_enginge(2, 44_100).is_ok());
}

#[test]
fn create_enginge_rejects_unregistered_program() {
    // Program 0 is reserved, everything past 2 is unregistered.
    assert_eq!(create_enginge(0, 44_100).err(), Some(SynthError::UnsupportedProgram));
    assert_eq!(create_enginge(3, 44_100).err(), Some(SynthError::UnsupportedProgram));
    assert_eq!(create_enginge(255, 44_100).err(), Some(SynthError::UnsupportedProgram));
}

#[test]
fn hot_swap_leaves_no_residual_state() {
    // Select program 1, then 2, then 1: after each selection the active
    // engine behaves like the registered constructor's fresh engine.
    let mut controller = Controller::new(1, 44_100).unwrap();
    controller.on_midi_message(MidiMessage::NoteOn(0, 60, 100));
    assert!(controller.gate_on());

    assert_eq!(controller.select(2), Ok(()));
    assert_eq!(controller.engine_kind(), EngineKind::Young);
    assert!(!controller.gate_on());
    assert_eq!(controller.note_target(), 64);
    assert_eq!(controller.current_note(), None);

    controller.on_midi_message(MidiMessage::NoteOn(0, 72, 100));
    assert_eq!(controller.select(1), Ok(()));
    assert_eq!(controller.engine_kind(), EngineKind::Test);
    assert!(!controller.gate_on());
    assert_eq!(controller.note_target(), 64);
    assert_eq!(controller.current_note(), None);
}

#[test]
fn unsupported_program_leaves_engine_working() {
    let mut controller = Controller::new(1, 44_100).unwrap();
    controller.on_midi_message(MidiMessage::NoteOn(0, 67, 100));

    assert_eq!(controller.select(9), Err(SynthError::UnsupportedProgram));
    // The previously active engine is fully functional and untouched.
    assert_eq!(controller.engine_kind(), EngineKind::Test);
    assert!(controller.gate_on());
    assert_eq!(controller.current_note(), Some(67));
    controller.on_midi_message(MidiMessage::NoteOff(0, 67, 0));
    assert!(!controller.gate_on());
}

#[test]
fn controller_swaps_on_program_change_message() {
    let mut controller = Controller::new(1, 44_100).unwrap();
    let outcome = controller.on_midi_message(MidiMessage::ProgramChange(0, 2));
    assert_eq!(outcome, MessageOutcome::Swapped(EngineKind::Young));
    assert_eq!(controller.engine_kind(), EngineKind::Young);

    let rejected = controller.on_midi_message(MidiMessage::ProgramChange(0, 0));
    assert_eq!(rejected, MessageOutcome::Rejected(SynthError::UnsupportedProgram));
    assert_eq!(controller.engine_kind(), EngineKind::Young);
}

#[test]
fn controller_routes_messages_to_active_engine() {
    let mut controller = Controller::new(1, 44_100).unwrap();
    assert_eq!(
        controller.on_midi_message(MidiMessage::ControlChange(0, 74, 33)),
        MessageOutcome::Param(ParamUpdate { target: ParamTarget::FilterCutoff, value: 33 })
    );
    assert_eq!(
        controller.on_midi_message(MidiMessage::ControlChange(0, 15, 33)),
        MessageOutcome::Ignored
    );
    assert_eq!(
        controller.on_midi_message(MidiMessage::NoteOn(0, 60, 100)),
        MessageOutcome::Ignored
    );
    assert_eq!(controller.current_note(), Some(60));
    assert_eq!(
        controller.on_midi_message(MidiMessage::Other),
        MessageOutcome::Ignored
    );
    assert_eq!(controller.current_note(), Some(60));
}

#[test]
fn engine_instance_dispatches_like_its_engine() {
    let mut instance = create_enginge(2, 48_000).unwrap();
    assert_eq!(
        instance.on_midi_message(MidiMessage::ControlChange(0, 71, 12)),
        Some(ParamUpdate { target: ParamTarget::FilterResonance, value: 12 })
    );
    instance.on_midi_message(MidiMessage::NoteOn(0, 50, 80));
    assert_eq!(instance.note_target(), 50);
    assert!(instance.gate_on());
}

#[test]
fn drain_feeds_messages_in_arrival_order() {
    let mut controller = Controller::new(1, 44_100).unwrap();
    let mut bridge = EventBridge::new();
    // The same controller number means different things before and after
    // the swap, so the outcomes show the messages were applied in order,
    // each to whichever engine was current when it was drained.
    bridge.push(MidiMessage::NoteOn(0, 60, 100));
    bridge.push(MidiMessage::ControlChange(0, 1, 5));
    bridge.push(MidiMessage::ProgramChange(0, 2));
    bridge.push(MidiMessage::ControlChange(0, 1, 5));
    bridge.push(MidiMessage::ProgramChange(0, 200));

    let outcomes = drain_and_dispatch(&mut controller, &mut bridge);
    assert_eq!(
        outcomes,
        vec![
            MessageOutcome::Ignored,
            MessageOutcome::Param(ParamUpdate { target: ParamTarget::SubOscWidth, value: 5 }),
            MessageOutcome::Swapped(EngineKind::Young),
            MessageOutcome::Ignored,
            MessageOutcome::Rejected(SynthError::UnsupportedProgram),
        ]
    );
    assert_eq!(bridge.len(), 0);
    // The swap left a fresh engine; the rejected program changed nothing.
    assert_eq!(controller.engine_kind(), EngineKind::Young);
    assert_eq!(controller.current_note(), None);
    assert!(!controller.gate_on());
}

#[test]
fn ugen_factory_keeps_sample_rate() {
    let factory = UGenFactory::new(44_100);
    assert_eq!(factory.sample_rate(), 44_100);
    let factory2 = UGenFactory::new(4);
    assert_eq!(factory2.sample_rate(), 4);
}

#[test]
fn direct_trait_calls_on_young() {
    let mut engine = Young::new(44_100);
    engine.on_midi_message(MidiMessage::NoteOn(0, 60, 100));
    engine.on_midi_message(MidiMessage::NoteOn(0, 60, 100));
    engine.on_midi_message(MidiMessage::NoteOff(0, 60, 0));
    // Both presses of 60 are gone at once.
    assert_eq!(engine.current_note(), None);
    assert!(!engine.gate_on());
    // A program change is not the engine's business: ignored.
    assert_eq!(engine.on_midi_message(MidiMessage::ProgramChange(0, 2)), None);
}
