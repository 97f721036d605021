use monosynth::dispatcher::{Dispatcher, OscillatorRange, SynthControl};
use monosynth::midi_controller::MidiControllerType;
use monosynth::usb_midi::{ControlChange, MidiMessage, NoteOff, NoteOn};

fn expect_cc(message: &MidiMessage, channel: u8, control_number: u8, control_value: u8) {
    match message {
        MidiMessage::ControlChange(cc) => {
            assert_eq!(channel, cc.channel());
            assert_eq!(control_number, cc.control_number());
            assert_eq!(control_value, cc.control_value());
        }
        _ => panic!("wrong variant"),
    }
}

fn expect_note_on(message: &MidiMessage, channel: u8, note_number: u8, key_velocity: u8) {
    match message {
        MidiMessage::NoteOn(n) => {
            assert_eq!(channel, n.channel());
            assert_eq!(note_number, n.note_number());
            assert_eq!(key_velocity, n.key_velocity());
        }
        _ => panic!("wrong variant"),
    }
}

#[test]
fn dispatcher_master_tune() {
    let mut dispatcher = Dispatcher::new();

    for value in [0u8, 32, 64, 96, 127] {
        let (midi, synth) =
            dispatcher.dispatch(&ControlChange::create(0, 0x31, value), MidiControllerType::ControlPanel);
        if value == 64 && midi.is_empty() {
            // 64 equals the startup shadow only when it is the first value
            // sent; in this sequence 32 preceded it, so it must be echoed
            panic!("expected an echo for {}", value);
        }
        assert_eq!(1, midi.len());
        expect_cc(&midi[0], 0, 0x31, value);
        assert_eq!(vec![SynthControl::MasterTune(value)], synth);
    }
}

#[test]
fn master_tune_update_only_when_different() {
    let mut dispatcher = Dispatcher::new();

    let (midi, synth) =
        dispatcher.dispatch(&ControlChange::create(0, 0x31, 32), MidiControllerType::ControlPanel);
    assert_eq!(1, midi.len());
    expect_cc(&midi[0], 0, 0x31, 32);
    assert_eq!(vec![SynthControl::MasterTune(32)], synth);

    let (midi, synth) =
        dispatcher.dispatch(&ControlChange::create(0, 0x31, 32), MidiControllerType::ControlPanel);
    assert!(midi.is_empty());
    assert!(synth.is_empty());
}

#[test]
fn oscillator1_range_valid_positions() {
    let mut dispatcher = Dispatcher::new();

    let cases: [(u8, u8, OscillatorRange); 5] = [
        (20, 21, OscillatorRange::Low),
        (54, 54, OscillatorRange::Range16ft),
        (72, 72, OscillatorRange::Range8ft),
        (90, 90, OscillatorRange::Range4ft),
        (110, 105, OscillatorRange::Range2ft),
    ];
    for (sent, echoed, range) in cases {
        let (midi, synth) =
            dispatcher.dispatch(&ControlChange::create(0, 0x30, sent), MidiControllerType::ControlPanel);
        assert_eq!(1, midi.len());
        expect_cc(&midi[0], 0, 0x30, echoed);
        assert_eq!(vec![SynthControl::Oscillator1Range(range)], synth);
    }
}

#[test]
fn oscillator1_range_invalid_positions() {
    let mut dispatcher = Dispatcher::new();

    for value in [30u8, 40, 60, 80, 100] {
        let (midi, synth) =
            dispatcher.dispatch(&ControlChange::create(0, 0x30, value), MidiControllerType::ControlPanel);
        assert!(midi.is_empty());
        assert!(synth.is_empty());
    }
}

#[test]
fn oscillator1_range_update_only_if_different() {
    let mut dispatcher = Dispatcher::new();

    let (midi, synth) =
        dispatcher.dispatch(&ControlChange::create(0, 0x30, 54), MidiControllerType::ControlPanel);
    assert_eq!(1, midi.len());
    expect_cc(&midi[0], 0, 0x30, 54);
    assert_eq!(
        vec![SynthControl::Oscillator1Range(OscillatorRange::Range16ft)],
        synth
    );

    let (midi, synth) =
        dispatcher.dispatch(&ControlChange::create(0, 0x30, 55), MidiControllerType::ControlPanel);
    assert!(midi.is_empty());
    assert!(synth.is_empty());
}

#[test]
fn oscillator1_enable_disable() {
    let mut dispatcher = Dispatcher::new();

    let (midi, synth) =
        dispatcher.dispatch(&NoteOn::create(0, 0x33, 0x7F), MidiControllerType::ControlPanel);
    assert_eq!(1, midi.len());
    expect_note_on(&midi[0], 0, 0x33, 0x00);
    assert_eq!(vec![SynthControl::Oscillator1Enable(false)], synth);

    let (midi, synth) =
        dispatcher.dispatch(&NoteOn::create(0, 0x33, 0x7F), MidiControllerType::ControlPanel);
    assert_eq!(1, midi.len());
    expect_note_on(&midi[0], 0, 0x33, 0x7F);
    assert_eq!(vec![SynthControl::Oscillator1Enable(true)], synth);
}

#[test]
fn oscillator1_enable_only_reacts_to_track_select_1() {
    let mut dispatcher = Dispatcher::new();

    let (midi, synth) =
        dispatcher.dispatch(&NoteOn::create(1, 0x33, 0x7F), MidiControllerType::ControlPanel);
    assert!(midi.is_empty());
    assert!(synth.is_empty());
}

#[test]
fn dispatcher_oscillator1_volume() {
    let mut dispatcher = Dispatcher::new();

    let (midi, synth) =
        dispatcher.dispatch(&ControlChange::create(0, 0x07, 0x7F), MidiControllerType::ControlPanel);
    assert!(midi.is_empty());
    assert_eq!(vec![SynthControl::Oscillator1Volume(0x7F)], synth);

    let (midi, synth) =
        dispatcher.dispatch(&ControlChange::create(0, 0x07, 0x3F), MidiControllerType::ControlPanel);
    assert!(midi.is_empty());
    assert_eq!(vec![SynthControl::Oscillator1Volume(0x3F)], synth);

    let (midi, synth) =
        dispatcher.dispatch(&ControlChange::create(0, 0x07, 0x00), MidiControllerType::ControlPanel);
    assert!(midi.is_empty());
    assert_eq!(vec![SynthControl::Oscillator1Volume(0x00)], synth);
}

#[test]
fn oscillator1_volume_only_reacts_to_track_fader_1() {
    let mut dispatcher = Dispatcher::new();

    let (midi, synth) =
        dispatcher.dispatch(&ControlChange::create(1, 0x07, 0x7F), MidiControllerType::ControlPanel);
    assert!(midi.is_empty());
    assert!(synth.is_empty());
}

#[test]
fn keyboard_play_notes() {
    let mut dispatcher = Dispatcher::new();

    for note in [60u8, 72, 48, 84, 36] {
        let (midi, synth) =
            dispatcher.dispatch(&NoteOn::create(0, note, 127), MidiControllerType::Keyboard);
        assert!(midi.is_empty());
        assert_eq!(vec![SynthControl::NoteOn(note)], synth);
    }
}

#[test]
fn keyboard_release_notes() {
    let mut dispatcher = Dispatcher::new();

    for note in [60u8, 72, 48, 84, 36] {
        let (midi, synth) =
            dispatcher.dispatch(&NoteOff::create(0, note, 127), MidiControllerType::Keyboard);
        assert!(midi.is_empty());
        assert_eq!(vec![SynthControl::NoteOff(note)], synth);
    }
}

#[test]
fn keyboard_ignores_other_messages() {
    let mut dispatcher = Dispatcher::new();

    let (midi, synth) =
        dispatcher.dispatch(&ControlChange::create(0, 0x31, 10), MidiControllerType::Keyboard);
    assert!(midi.is_empty());
    assert!(synth.is_empty());
}

#[test]
fn initialize_emits_startup_handshake() {
    let mut dispatcher = Dispatcher::new();
    let (midi, synth) = dispatcher.initialize();

    assert_eq!(11, midi.len());
    expect_cc(&midi[0], 0, 0x39, 1);
    expect_cc(&midi[1], 0, 0x31, 64);
    expect_cc(&midi[2], 0, 0x38, 1);
    expect_cc(&midi[3], 0, 0x30, 72);
    expect_note_on(&midi[4], 0, 0, 38);
    expect_note_on(&midi[5], 0, 8, 38);
    expect_note_on(&midi[6], 0, 16, 38);
    expect_note_on(&midi[7], 0, 24, 38);
    expect_note_on(&midi[8], 0, 32, 124);
    expect_note_on(&midi[9], 0, 33, 38);
    expect_note_on(&midi[10], 0, 0x33, 127);

    assert_eq!(
        vec![
            SynthControl::MasterTune(64),
            SynthControl::Oscillator1Range(OscillatorRange::Range8ft),
            SynthControl::Oscillator1Enable(true),
            SynthControl::Oscillator1Volume(0),
        ],
        synth
    );
}

#[test]
fn master_tune_accepts_any_channel() {
    let mut dispatcher = Dispatcher::new();

    let (midi, synth) =
        dispatcher.dispatch(&ControlChange::create(5, 0x31, 10), MidiControllerType::ControlPanel);
    assert_eq!(1, midi.len());
    expect_cc(&midi[0], 0, 0x31, 10);
    assert_eq!(vec![SynthControl::MasterTune(10)], synth);
}

#[test]
fn range_clamps_both_edges() {
    let mut dispatcher = Dispatcher::new();

    let (midi, synth) =
        dispatcher.dispatch(&ControlChange::create(0, 0x30, 0), MidiControllerType::ControlPanel);
    assert_eq!(1, midi.len());
    expect_cc(&midi[0], 0, 0x30, 21);
    assert_eq!(vec![SynthControl::Oscillator1Range(OscillatorRange::Low)], synth);

    let (midi, synth) =
        dispatcher.dispatch(&ControlChange::create(0, 0x30, 127), MidiControllerType::ControlPanel);
    assert_eq!(1, midi.len());
    expect_cc(&midi[0], 0, 0x30, 105);
    assert_eq!(
        vec![SynthControl::Oscillator1Range(OscillatorRange::Range2ft)],
        synth
    );
}
