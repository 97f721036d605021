use monosynth::parser::{MidiParseStatus, UsbMidiParser};
use monosynth::usb_midi::{
    AllNotesOff, AllSoundOff, ChannelPressure, ControlChange, LocalControl, MidiMessage,
    MonoModeOn, NoteOff, NoteOn, OmniModeOff, OmniModeOn, PitchBend, PolyModeOn,
    PolyphonicKeyPressure, ProgramChange, ResetAllControllers, SystemExclusive, SystemExlusiveId,
};

fn assert_serializes_to(message: MidiMessage, cable: u8, expected: &[u8]) {
    let mut i = 0;
    for (a, &b) in message
        .serialize_on_cable(cable)
        .into_bytes()
        .into_iter()
        .zip(expected.iter())
    {
        assert_eq!(a, b);
        i += 1;
    }
    assert_eq!(i, expected.len());
}

#[test]
fn parse_returns_incomplete_when_given_less_than_4_bytes() {
    let buf: [u8; 2] = [0; 2];
    let mut usb_midi_parser = UsbMidiParser::new();
    assert_eq!((MidiParseStatus::Incomplete, 0), usb_midi_parser.parse(&buf));
}

#[test]
fn parse_returns_unknown_if_bytes_unknown_midi_message() {
    let buf: [u8; 4] = [0; 4];
    let mut usb_midi_parser = UsbMidiParser::new();
    assert_eq!((MidiParseStatus::Unknown, 1), usb_midi_parser.parse(&buf));
}

#[test]
fn parse_returns_note_on_message() {
    let buf: [u8; 4] = [0x29, 0x94, 0x60, 0x65];
    let mut usb_midi_parser = UsbMidiParser::new();
    let midi_message = usb_midi_parser.parse(&buf);

    let midi_message = match midi_message {
        (MidiParseStatus::Complete(packet), n) => {
            assert_eq!(2, packet.cable_number());
            assert_eq!(4, n);
            packet.midi_message()
        }
        _ => panic!("wrong variant"),
    };

    let note_on = match midi_message {
        MidiMessage::NoteOn(note_on) => note_on,
        _ => panic!("wrong variant"),
    };

    assert_eq!(4, note_on.channel());
    assert_eq!(0x60, note_on.note_number());
    assert_eq!(0x65, note_on.key_velocity());

    let midi_message = NoteOn::create(
        note_on.channel(),
        note_on.note_number(),
        note_on.key_velocity(),
    );

    assert_serializes_to(midi_message, 2, &buf);
}

#[test]
fn parse_returns_note_off_message() {
    let buf: [u8; 4] = [0x28, 0x84, 0x60, 0x50];
    let mut usb_midi_parser = UsbMidiParser::new();
    let midi_message = usb_midi_parser.parse(&buf);

    let midi_message = match midi_message {
        (MidiParseStatus::Complete(packet), n) => {
            assert_eq!(2, packet.cable_number());
            assert_eq!(4, n);
            packet.midi_message()
        }
        _ => panic!("wrong variant"),
    };

    let note_off = match midi_message {
        MidiMessage::NoteOff(note_off) => note_off,
        _ => panic!("wrong variant"),
    };

    assert_eq!(4, note_off.channel());
    assert_eq!(0x60, note_off.note_number());
    assert_eq!(0x50, note_off.off_velocity());

    let midi_message = NoteOff::create(
        note_off.channel(),
        note_off.note_number(),
        note_off.off_velocity(),
    );

    assert_serializes_to(midi_message, 2, &buf);
}

#[test]
fn parse_returns_note_off_message_when_note_on_with_velocity_0() {
    let buf: [u8; 4] = [0x29, 0x94, 0x60, 0x00];
    let mut usb_midi_parser = UsbMidiParser::new();
    let midi_message = usb_midi_parser.parse(&buf);

    let midi_message = match midi_message {
        (MidiParseStatus::Complete(packet), n) => {
            assert_eq!(2, packet.cable_number());
            assert_eq!(4, n);
            packet.midi_message()
        }
        _ => panic!("wrong variant"),
    };

    let note_off = match midi_message {
        MidiMessage::NoteOff(note_off) => note_off,
        _ => panic!("wrong variant"),
    };

    assert_eq!(4, note_off.channel());
    assert_eq!(0x60, note_off.note_number());
    assert_eq!(64, note_off.off_velocity());
}

#[test]
fn parse_returns_pitch_bend_message() {
    let buf: [u8; 4] = [0x2e, 0xe5, 0x51, 0x41];
    let mut usb_midi_parser = UsbMidiParser::new();
    let midi_message = usb_midi_parser.parse(&buf);

    let midi_message = match midi_message {
        (MidiParseStatus::Complete(packet), n) => {
            assert_eq!(2, packet.cable_number());
            assert_eq!(4, n);
            packet.midi_message()
        }
        _ => panic!("wrong variant"),
    };

    let pitch_bend = match midi_message {
        MidiMessage::PitchBend(pitch_bend) => pitch_bend,
        _ => panic!("wrong variant"),
    };

    assert_eq!(5, pitch_bend.channel());
    assert_eq!((0x41 << 7) | 0x51, pitch_bend.pitch_bend_change());

    let midi_message = PitchBend::create(pitch_bend.channel(), pitch_bend.pitch_bend_change());

    assert_serializes_to(midi_message, 2, &buf);
}

#[test]
fn parse_returns_control_change_message() {
    let buf: [u8; 4] = [0x2b, 0xb3, 0x01, 0x50];
    let mut usb_midi_parser = UsbMidiParser::new();
    let midi_message = usb_midi_parser.parse(&buf);

    let midi_message = match midi_message {
        (MidiParseStatus::Complete(packet), n) => {
            assert_eq!(2, packet.cable_number());
            assert_eq!(4, n);
            packet.midi_message()
        }
        _ => panic!("wrong variant"),
    };

    let control_change = match midi_message {
        MidiMessage::ControlChange(control_change) => control_change,
        _ => panic!("wrong variant"),
    };

    assert_eq!(3, control_change.channel());
    assert_eq!(1, control_change.control_number());
    assert_eq!(0x50, control_change.control_value());

    let midi_message = ControlChange::create(
        control_change.channel(),
        control_change.control_number(),
        control_change.control_value(),
    );

    assert_serializes_to(midi_message, 2, &buf);
}

#[test]
fn parse_returns_all_sound_off_channel_mode_message() {
    let buf: [u8; 4] = [0x2b, 0xb1, 120, 0x00];
    let mut usb_midi_parser = UsbMidiParser::new();
    let midi_message = usb_midi_parser.parse(&buf);

    let midi_message = match midi_message {
        (MidiParseStatus::Complete(packet), n) => {
            assert_eq!(2, packet.cable_number());
            assert_eq!(4, n);
            packet.midi_message()
        }
        _ => panic!("wrong variant"),
    };

    let all_sound_off = match midi_message {
        MidiMessage::AllSoundOff(all_sound_off) => all_sound_off,
        _ => panic!("wrong variant"),
    };

    assert_eq!(1, all_sound_off.channel());

    let midi_message = AllSoundOff::create(all_sound_off.channel());

    assert_serializes_to(midi_message, 2, &buf);
}

#[test]
fn parse_returns_reset_all_controllers_channel_mode_message() {
    let buf: [u8; 4] = [0x2b, 0xb1, 121, 0x00];
    let mut usb_midi_parser = UsbMidiParser::new();
    let midi_message = usb_midi_parser.parse(&buf);

    let midi_message = match midi_message {
        (MidiParseStatus::Complete(packet), n) => {
            assert_eq!(2, packet.cable_number());
            assert_eq!(4, n);
            packet.midi_message()
        }
        _ => panic!("wrong variant"),
    };

    let reset_all_controllers = match midi_message {
        MidiMessage::ResetAllControllers(reset_all_controllers) => reset_all_controllers,
        _ => panic!("wrong variant"),
    };

    assert_eq!(1, reset_all_controllers.channel());

    let midi_message = ResetAllControllers::create(reset_all_controllers.channel());

    assert_serializes_to(midi_message, 2, &buf);
}

#[test]
fn parse_returns_local_control_channel_mode_message() {
    let buf: [u8; 4] = [0x2b, 0xb1, 122, 0x7F];
    let mut usb_midi_parser = UsbMidiParser::new();
    let midi_message = usb_midi_parser.parse(&buf);

    let midi_message = match midi_message {
        (MidiParseStatus::Complete(packet), n) => {
            assert_eq!(2, packet.cable_number());
            assert_eq!(4, n);
            packet.midi_message()
        }
        _ => panic!("wrong variant"),
    };

    let local_control = match midi_message {
        MidiMessage::LocalControl(local_control) => local_control,
        _ => panic!("wrong variant"),
    };

    assert_eq!(1, local_control.channel());
    assert_eq!(true, local_control.on());

    let midi_message = LocalControl::create(local_control.channel(), local_control.on());

    assert_serializes_to(midi_message, 2, &buf);
}

#[test]
fn parse_returns_all_notes_off_channel_mode_message() {
    let buf: [u8; 4] = [0x2b, 0xb1, 123, 0x00];
    let mut usb_midi_parser = UsbMidiParser::new();
    let midi_message = usb_midi_parser.parse(&buf);

    let midi_message = match midi_message {
        (MidiParseStatus::Complete(packet), n) => {
            assert_eq!(2, packet.cable_number());
            assert_eq!(4, n);
            packet.midi_message()
        }
        _ => panic!("wrong variant"),
    };

    let all_notes_off = match midi_message {
        MidiMessage::AllNotesOff(all_notes_off) => all_notes_off,
        _ => panic!("wrong variant"),
    };

    assert_eq!(1, all_notes_off.channel());

    let midi_message = AllNotesOff::create(all_notes_off.channel());

    assert_serializes_to(midi_message, 2, &buf);
}

#[test]
fn parse_returns_omni_mode_off_channel_mode_message() {
    let buf: [u8; 4] = [0x2b, 0xb1, 124, 0x00];
    let mut usb_midi_parser = UsbMidiParser::new();
    let midi_message = usb_midi_parser.parse(&buf);

    let midi_message = match midi_message {
        (MidiParseStatus::Complete(packet), n) => {
            assert_eq!(2, packet.cable_number());
            assert_eq!(4, n);
            packet.midi_message()
        }
        _ => panic!("wrong variant"),
    };

    let omni_mode_off = match midi_message {
        MidiMessage::OmniModeOff(omni_mode_off) => omni_mode_off,
        _ => panic!("wrong variant"),
    };

    assert_eq!(1, omni_mode_off.channel());

    let midi_message = OmniModeOff::create(omni_mode_off.channel());

    assert_serializes_to(midi_message, 2, &buf);
}

#[test]
fn parse_returns_omni_mode_on_channel_mode_message() {
    let buf: [u8; 4] = [0x2b, 0xb1, 125, 0x00];
    let mut usb_midi_parser = UsbMidiParser::new();
    let midi_message = usb_midi_parser.parse(&buf);

    let midi_message = match midi_message {
        (MidiParseStatus::Complete(packet), n) => {
            assert_eq!(2, packet.cable_number());
            assert_eq!(4, n);
            packet.midi_message()
        }
        _ => panic!("wrong variant"),
    };

    let omni_mode_on = match midi_message {
        MidiMessage::OmniModeOn(omni_mode_on) => omni_mode_on,
        _ => panic!("wrong variant"),
    };

    assert_eq!(1, omni_mode_on.channel());

    let midi_message = OmniModeOn::create(omni_mode_on.channel());

    assert_serializes_to(midi_message, 2, &buf);
}

#[test]
fn parse_returns_mono_mode_on_channel_mode_message() {
    let buf: [u8; 4] = [0x2b, 0xb1, 126, 0x08];
    let mut usb_midi_parser = UsbMidiParser::new();
    let midi_message = usb_midi_parser.parse(&buf);

    let midi_message = match midi_message {
        (MidiParseStatus::Complete(packet), n) => {
            assert_eq!(2, packet.cable_number());
            assert_eq!(4, n);
            packet.midi_message()
        }
        _ => panic!("wrong variant"),
    };

    let mono_mode_on = match midi_message {
        MidiMessage::MonoModeOn(mono_mode_on) => mono_mode_on,
        _ => panic!("wrong variant"),
    };

    assert_eq!(1, mono_mode_on.channel());
    assert_eq!(8, mono_mode_on.number_of_channels());

    let midi_message =
        MonoModeOn::create(mono_mode_on.channel(), mono_mode_on.number_of_channels());

    assert_serializes_to(midi_message, 2, &buf);
}

#[test]
fn parse_returns_poly_mode_on_channel_mode_message() {
    let buf: [u8; 4] = [0x2b, 0xb1, 127, 0x00];
    let mut usb_midi_parser = UsbMidiParser::new();
    let midi_message = usb_midi_parser.parse(&buf);

    let midi_message = match midi_message {
        (MidiParseStatus::Complete(packet), n) => {
            assert_eq!(2, packet.cable_number());
            assert_eq!(4, n);
            packet.midi_message()
        }
        _ => panic!("wrong variant"),
    };

    let poly_mode_on = match midi_message {
        MidiMessage::PolyModeOn(poly_mode_on) => poly_mode_on,
        _ => panic!("wrong variant"),
    };

    assert_eq!(1, poly_mode_on.channel());

    let midi_message = PolyModeOn::create(poly_mode_on.channel());

    assert_serializes_to(midi_message, 2, &buf);
}

#[test]
fn parse_returns_program_change_message() {
    let buf: [u8; 4] = [0x6c, 0xc5, 0x4, 0x0];
    let mut usb_midi_parser = UsbMidiParser::new();
    let midi_message = usb_midi_parser.parse(&buf);

    let midi_message = match midi_message {
        (MidiParseStatus::Complete(packet), n) => {
            assert_eq!(6, packet.cable_number());
            assert_eq!(4, n);
            packet.midi_message()
        }
        _ => panic!("wrong variant"),
    };

    let program_change = match midi_message {
        MidiMessage::ProgramChange(program_change) => program_change,
        _ => panic!("wrong variant"),
    };

    assert_eq!(5, program_change.channel());
    assert_eq!(4, program_change.program_number());

    let midi_message =
        ProgramChange::create(program_change.channel(), program_change.program_number());

    assert_serializes_to(midi_message, 6, &buf);
}

#[test]
fn parse_returns_channel_pressure_message() {
    let buf: [u8; 4] = [0x3d, 0xd2, 0x20, 0x0];
    let mut usb_midi_parser = UsbMidiParser::new();
    let midi_message = usb_midi_parser.parse(&buf);

    let midi_message = match midi_message {
        (MidiParseStatus::Complete(packet), n) => {
            assert_eq!(3, packet.cable_number());
            assert_eq!(4, n);
            packet.midi_message()
        }
        _ => panic!("wrong variant"),
    };

    let channel_pressure = match midi_message {
        MidiMessage::ChannelPressure(channel_pressure) => channel_pressure,
        _ => panic!("wrong variant"),
    };

    assert_eq!(2, channel_pressure.channel());
    assert_eq!(0x20, channel_pressure.pressure());

    let midi_message =
        ChannelPressure::create(channel_pressure.channel(), channel_pressure.pressure());

    assert_serializes_to(midi_message, 3, &buf);
}

#[test]
fn parse_returns_polyphonic_key_pressure_message() {
    let buf: [u8; 4] = [0x2a, 0xa5, 0x12, 0x13];
    let mut usb_midi_parser = UsbMidiParser::new();
    let midi_message = usb_midi_parser.parse(&buf);

    let midi_message = match midi_message {
        (MidiParseStatus::Complete(packet), n) => {
            assert_eq!(2, packet.cable_number());
            assert_eq!(4, n);
            packet.midi_message()
        }
        _ => panic!("wrong variant"),
    };

    let poly_key_press = match midi_message {
        MidiMessage::PolyphonicKeyPressure(poly_key_press) => poly_key_press,
        _ => panic!("wrong variant"),
    };

    assert_eq!(5, poly_key_press.channel());
    assert_eq!(0x12, poly_key_press.note_number());
    assert_eq!(0x13, poly_key_press.pressure());

    let midi_message = PolyphonicKeyPressure::create(
        poly_key_press.channel(),
        poly_key_press.note_number(),
        poly_key_press.pressure(),
    );

    assert_serializes_to(midi_message, 2, &buf);
}

#[test]
fn parse_starts_system_exclusive_message() {
    let buf: [u8; 4] = [0x24, 0xf0, 0x7e, 0x1];
    let mut usb_midi_parser = UsbMidiParser::new();
    let midi_message = usb_midi_parser.parse(&buf);

    match midi_message {
        (MidiParseStatus::Incomplete, n) => {
            assert_eq!(4, n);
        }
        _ => panic!("wrong variant"),
    }
}

#[test]
fn parse_ends_system_exclusive_message_with_single_byte() {
    let buf: [u8; 8] = [0x24, 0xf0, 0x7e, 0x1, 0x25, 0xf7, 0x0, 0x0];
    let mut usb_midi_parser = UsbMidiParser::new();
    let midi_message = usb_midi_parser.parse(&buf);

    let midi_message = match midi_message {
        (MidiParseStatus::Complete(packet), n) => {
            assert_eq!(2, packet.cable_number());
            assert_eq!(8, n);
            packet.midi_message()
        }
        _ => panic!("wrong variant"),
    };

    let system_exclusive = match midi_message {
        MidiMessage::SystemExclusive(system_exclusive) => system_exclusive,
        _ => panic!("wrong variant"),
    };

    let expected: Vec<u8> = vec![0x1];
    assert_eq!(expected, *system_exclusive.payload());
    assert_eq!(SystemExlusiveId::OneByte(0x7e), system_exclusive.id());

    let midi_message =
        SystemExclusive::create(system_exclusive.id(), system_exclusive.payload().clone());

    assert_serializes_to(midi_message, 2, &buf);
}

#[test]
fn parse_ends_system_exclusive_message_with_two_bytes() {
    let buf: [u8; 8] = [0x24, 0xf0, 0x7e, 0x1, 0x26, 0x2, 0xf7, 0x0];
    let mut usb_midi_parser = UsbMidiParser::new();
    let midi_message = usb_midi_parser.parse(&buf);

    let midi_message = match midi_message {
        (MidiParseStatus::Complete(packet), n) => {
            assert_eq!(2, packet.cable_number());
            assert_eq!(8, n);
            packet.midi_message()
        }
        _ => panic!("wrong variant"),
    };

    let system_exclusive = match midi_message {
        MidiMessage::SystemExclusive(system_exclusive) => system_exclusive,
        _ => panic!("wrong variant"),
    };

    let expected: Vec<u8> = vec![0x1, 0x2];
    assert_eq!(expected, *system_exclusive.payload());
    assert_eq!(SystemExlusiveId::OneByte(0x7e), system_exclusive.id());

    let midi_message =
        SystemExclusive::create(system_exclusive.id(), system_exclusive.payload().clone());

    assert_serializes_to(midi_message, 2, &buf);
}

#[test]
fn parse_ends_system_exclusive_message_with_three_bytes() {
    let buf: [u8; 8] = [0x24, 0xf0, 0x7e, 0x1, 0x27, 0x2, 0x3, 0xf7];
    let mut usb_midi_parser = UsbMidiParser::new();
    let midi_message = usb_midi_parser.parse(&buf);

    let midi_message = match midi_message {
        (MidiParseStatus::Complete(packet), n) => {
            assert_eq!(2, packet.cable_number());
            assert_eq!(8, n);
            packet.midi_message()
        }
        _ => panic!("wrong variant"),
    };

    let system_exclusive = match midi_message {
        MidiMessage::SystemExclusive(system_exclusive) => system_exclusive,
        _ => panic!("wrong variant"),
    };

    let expected: Vec<u8> = vec![0x1, 0x2, 0x3];
    assert_eq!(expected, *system_exclusive.payload());
    assert_eq!(SystemExlusiveId::OneByte(0x7e), system_exclusive.id());

    let midi_message =
        SystemExclusive::create(system_exclusive.id(), system_exclusive.payload().clone());

    assert_serializes_to(midi_message, 2, &buf);
}

#[test]
fn parse_ends_system_exclusive_message_with_three_packets() {
    let buf: [u8; 12] = [
        0x24, 0xf0, 0x7e, 0x1, 0x24, 0x2, 0x3, 0x4, 0x25, 0xf7, 0x00, 0x00,
    ];
    let mut usb_midi_parser = UsbMidiParser::new();
    let midi_message = usb_midi_parser.parse(&buf);

    let midi_message = match midi_message {
        (MidiParseStatus::Complete(packet), n) => {
            assert_eq!(2, packet.cable_number());
            assert_eq!(12, n);
            packet.midi_message()
        }
        _ => panic!("wrong variant"),
    };

    let system_exclusive = match midi_message {
        MidiMessage::SystemExclusive(system_exclusive) => system_exclusive,
        _ => panic!("wrong variant"),
    };

    let expected: Vec<u8> = vec![0x1, 0x2, 0x3, 0x4];
    assert_eq!(expected, *system_exclusive.payload());
    assert_eq!(SystemExlusiveId::OneByte(0x7e), system_exclusive.id());

    let midi_message =
        SystemExclusive::create(system_exclusive.id(), system_exclusive.payload().clone());

    assert_serializes_to(midi_message, 2, &buf);
}

#[test]
fn parse_separates_interleaved_system_exclusive_message() {
    let buf: [u8; 16] = [
        0x14, // Cable #1
        0xf0, 0x7e, 0x1, 0x24, // Cable #2
        0xf0, 0x7e, 0x5, 0x15, // Cable #1
        0xf7, 0x00, 0x00, 0x26, // Cable #2
        0x6, 0xf7, 0x0,
    ];
    let mut usb_midi_parser = UsbMidiParser::new();
    let midi_message = usb_midi_parser.parse(&buf);

    let midi_message = match midi_message {
        (MidiParseStatus::Complete(packet), n) => {
            assert_eq!(1, packet.cable_number());
            assert_eq!(12, n);
            packet.midi_message()
        }
        _ => panic!("wrong variant"),
    };

    let system_exclusive = match midi_message {
        MidiMessage::SystemExclusive(system_exclusive) => system_exclusive,
        _ => panic!("wrong variant"),
    };

    let expected: Vec<u8> = vec![0x1];
    assert_eq!(expected, *system_exclusive.payload());
    assert_eq!(SystemExlusiveId::OneByte(0x7e), system_exclusive.id());

    let midi_message = usb_midi_parser.parse(&buf[12..]);

    let midi_message = match midi_message {
        (MidiParseStatus::Complete(packet), n) => {
            assert_eq!(2, packet.cable_number());
            assert_eq!(4, n);
            packet.midi_message()
        }
        _ => panic!("wrong variant"),
    };

    let system_exclusive = match midi_message {
        MidiMessage::SystemExclusive(system_exclusive) => system_exclusive,
        _ => panic!("wrong variant"),
    };

    let expected: Vec<u8> = vec![0x5, 0x6];
    assert_eq!(expected, *system_exclusive.payload());
    assert_eq!(SystemExlusiveId::OneByte(0x7e), system_exclusive.id());
}

#[test]
fn parse_id_of_system_exclusive_message() {
    let buf: [u8; 8] = [0x24, 0xf0, 0x00, 0x10, 0x27, 0x11, 0x3, 0xf7];
    let mut usb_midi_parser = UsbMidiParser::new();
    let midi_message = usb_midi_parser.parse(&buf);

    let midi_message = match midi_message {
        (MidiParseStatus::Complete(packet), n) => {
            assert_eq!(2, packet.cable_number());
            assert_eq!(8, n);
            packet.midi_message()
        }
        _ => panic!("wrong variant"),
    };

    let system_exclusive = match midi_message {
        MidiMessage::SystemExclusive(system_exclusive) => system_exclusive,
        _ => panic!("wrong variant"),
    };

    let expected: Vec<u8> = vec![0x3];
    assert_eq!(expected, *system_exclusive.payload());
    assert_eq!(SystemExlusiveId::TwoByte(0x10, 0x11), system_exclusive.id());

    let midi_message =
        SystemExclusive::create(system_exclusive.id(), system_exclusive.payload().clone());

    assert_serializes_to(midi_message, 2, &buf);
}

#[test]
fn parse_ids_of_interleaved_system_exclusive_messages() {
    let buf: [u8; 16] = [
        0x24, 0xf0, 0x00, 0x10, 0x44, 0xf0, 0x00, 0x12, 0x27, 0x11, 0x3, 0xf7, 0x47, 0x34, 0x5,
        0xf7,
    ];
    let mut usb_midi_parser = UsbMidiParser::new();
    let midi_message = usb_midi_parser.parse(&buf);

    let midi_message = match midi_message {
        (MidiParseStatus::Complete(packet), n) => {
            assert_eq!(2, packet.cable_number());
            assert_eq!(12, n);
            packet.midi_message()
        }
        _ => panic!("wrong variant"),
    };

    let system_exclusive = match midi_message {
        MidiMessage::SystemExclusive(system_exclusive) => system_exclusive,
        _ => panic!("wrong variant"),
    };

    let expected: Vec<u8> = vec![0x3];
    assert_eq!(expected, *system_exclusive.payload());
    assert_eq!(SystemExlusiveId::TwoByte(0x10, 0x11), system_exclusive.id());

    let midi_message = usb_midi_parser.parse(&buf[12..]);

    let midi_message = match midi_message {
        (MidiParseStatus::Complete(packet), n) => {
            assert_eq!(4, packet.cable_number());
            assert_eq!(4, n);
            packet.midi_message()
        }
        _ => panic!("wrong variant"),
    };

    let system_exclusive = match midi_message {
        MidiMessage::SystemExclusive(system_exclusive) => system_exclusive,
        _ => panic!("wrong variant"),
    };

    let expected: Vec<u8> = vec![0x5];
    assert_eq!(expected, *system_exclusive.payload());
    assert_eq!(SystemExlusiveId::TwoByte(0x12, 0x34), system_exclusive.id());
}

#[test]
fn parse_ids_of_successive_system_exclusive_messages() {
    let buf: [u8; 16] = [
        0x24, 0xf0, 0x00, 0x10, 0x27, 0x11, 0x3, 0xf7, 0x24, 0xf0, 0x7e, 0x42, 0x25, 0xf7, 0x0,
        0x0,
    ];
    let mut usb_midi_parser = UsbMidiParser::new();
    let midi_message = usb_midi_parser.parse(&buf);

    let midi_message = match midi_message {
        (MidiParseStatus::Complete(packet), n) => {
            assert_eq!(2, packet.cable_number());
            assert_eq!(8, n);
            packet.midi_message()
        }
        _ => panic!("wrong variant"),
    };

    let system_exclusive = match midi_message {
        MidiMessage::SystemExclusive(system_exclusive) => system_exclusive,
        _ => panic!("wrong variant"),
    };

    let expected: Vec<u8> = vec![0x3];
    assert_eq!(expected, *system_exclusive.payload());
    assert_eq!(SystemExlusiveId::TwoByte(0x10, 0x11), system_exclusive.id());

    let midi_message =
        SystemExclusive::create(system_exclusive.id(), system_exclusive.payload().clone());

    assert_serializes_to(midi_message, 2, &buf[..8]);

    let midi_message = usb_midi_parser.parse(&buf[8..]);

    let midi_message = match midi_message {
        (MidiParseStatus::Complete(packet), n) => {
            assert_eq!(2, packet.cable_number());
            assert_eq!(8, n);
            packet.midi_message()
        }
        _ => panic!("wrong variant"),
    };

    let system_exclusive = match midi_message {
        MidiMessage::SystemExclusive(system_exclusive) => system_exclusive,
        _ => panic!("wrong variant"),
    };

    let expected: Vec<u8> = vec![0x42];
    assert_eq!(expected, *system_exclusive.payload());
    assert_eq!(SystemExlusiveId::OneByte(0x7e), system_exclusive.id());

    let midi_message =
        SystemExclusive::create(system_exclusive.id(), system_exclusive.payload().clone());

    assert_serializes_to(midi_message, 2, &buf[8..]);
}

#[test]
fn parse_is_deterministic() {
    let stream: [u8; 20] = [
        0x29, 0x94, 0x60, 0x65, 0x24, 0xf0, 0x7e, 0x1, 0x24, 0x2, 0x3, 0x4, 0x25, 0xf7, 0x00,
        0x00, 0x2e, 0xe5, 0x51, 0x41,
    ];
    let mut first = UsbMidiParser::new();
    let mut second = UsbMidiParser::new();

    let mut offset = 0;
    while offset < stream.len() {
        let a = first.parse(&stream[offset..]);
        let b = second.parse(&stream[offset..]);
        let consumed = a.1;
        assert_eq!(a, b);
        assert!(consumed > 0);
        offset += consumed;
    }
}

#[test]
fn parse_reports_unknown_for_mismatched_status_byte() {
    // the code index announces a channel message but the status byte does
    // not carry one; a single byte is consumed so the caller resynchronizes
    let buf: [u8; 4] = [0x08, 0x00, 0x00, 0x00];
    let mut usb_midi_parser = UsbMidiParser::new();
    assert_eq!((MidiParseStatus::Unknown, 1), usb_midi_parser.parse(&buf));
}

#[test]
fn empty_sysex_with_short_id_fits_one_packet_and_is_rejected() {
    // an empty payload behind a one-byte id serializes to a lone
    // terminator packet, which the parser rejects: its cable never started
    let message = SystemExclusive::create(SystemExlusiveId::OneByte(0x47), vec![]);
    let bytes = message.serialize_on_cable(2).into_bytes();
    assert_eq!(vec![0x27, 0xf0, 0x47, 0xf7], bytes);

    let mut usb_midi_parser = UsbMidiParser::new();
    assert_eq!((MidiParseStatus::MalformedPacket, 4), usb_midi_parser.parse(&bytes));
}

#[test]
fn parse_returns_malformed_if_system_exclusive_message_was_not_started() {
    let buf: [u8; 4] = [0x26, 0x12, 0xf7, 0x0];
    let mut usb_midi_parser = UsbMidiParser::new();
    let midi_message = usb_midi_parser.parse(&buf);

    match midi_message {
        (MidiParseStatus::MalformedPacket, n) => {
            assert_eq!(4, n);
        }
        _ => panic!("wrong variant"),
    }
}
