//! The USB-MIDI serializer: turns a message into the exact byte stream that
//! the wire carries, as stated by `wire_bytes`.

use vstd::prelude::*;

verus! {

use crate::usb_midi::{
    EventPacket, MidiMessage, MidiMessageView, SystemExlusiveId, channel_cin,
    channel_message_bytes, sysex_frame, sysex_packet_bytes, wire_bytes,
};

/// The serialized form of a message: the event-packet bytes to be written
/// to the wire, in order.
pub struct Serializer {
    pub bytes: Vec<u8>,
}

impl Serializer {
    /// The serialized bytes, in wire order.
    pub fn bytes(&self) -> (r: &Vec<u8>)
        ensures
            r@ == self.bytes@,
    {
        &self.bytes
    }

    /// Consumes the serializer and hands out the wire bytes.
    pub fn into_bytes(self) -> (r: Vec<u8>)
        ensures
            r@ == self.bytes@,
    {
        self.bytes
    }
}

/// The code index number and the three MIDI bytes of a channel message.
fn channel_packet_parts(m: &MidiMessage) -> (r: (u8, u8, u8, u8))
    requires
        !(m@ is SystemExclusive),
    ensures
        r.0 == channel_cin(m@),
        seq![r.1, r.2, r.3] == channel_message_bytes(m@),
{
    let parts: (u8, u8, u8, u8) = match m {
        MidiMessage::NoteOn(x) => (0x9, 0x90 | (x.channel & 0x0F), x.note_number & 0x7F, x.key_velocity & 0x7F),
        MidiMessage::NoteOff(x) => (0x8, 0x80 | (x.channel & 0x0F), x.note_number & 0x7F, x.off_velocity & 0x7F),
        MidiMessage::PitchBend(x) => (
            0xE,
            0xE0 | (x.channel & 0x0F),
            (x.pitch_bend_change & 0x7F) as u8,
            ((x.pitch_bend_change >> 7) & 0x7F) as u8,
        ),
        MidiMessage::ControlChange(x) => (0xB, 0xB0 | (x.channel & 0x0F), x.control_number & 0x7F, x.control_value & 0x7F),
        MidiMessage::AllSoundOff(x) => (0xB, 0xB0 | (x.channel & 0x0F), 120, 0),
        MidiMessage::ResetAllControllers(x) => (0xB, 0xB0 | (x.channel & 0x0F), 121, 0),
        MidiMessage::LocalControl(x) => (0xB, 0xB0 | (x.channel & 0x0F), 122, if x.on { 127 } else { 0 }),
        MidiMessage::AllNotesOff(x) => (0xB, 0xB0 | (x.channel & 0x0F), 123, 0),
        MidiMessage::OmniModeOff(x) => (0xB, 0xB0 | (x.channel & 0x0F), 124, 0),
        MidiMessage::OmniModeOn(x) => (0xB, 0xB0 | (x.channel & 0x0F), 125, 0),
        MidiMessage::MonoModeOn(x) => (0xB, 0xB0 | (x.channel & 0x0F), 126, x.number_of_channels & 0x7F),
        MidiMessage::PolyModeOn(x) => (0xB, 0xB0 | (x.channel & 0x0F), 127, 0),
        MidiMessage::ProgramChange(x) => (0xC, 0xC0 | (x.channel & 0x0F), x.program_number & 0x7F, 0),
        MidiMessage::ChannelPressure(x) => (0xD, 0xD0 | (x.channel & 0x0F), x.pressure & 0x7F, 0),
        MidiMessage::PolyphonicKeyPressure(x) => (0xA, 0xA0 | (x.channel & 0x0F), x.note_number & 0x7F, x.pressure & 0x7F),
        MidiMessage::SystemExclusive(_) => unreached(),
    };
    proof {
        assert(seq![parts.1, parts.2, parts.3] =~= channel_message_bytes(m@));
    }
    parts
}

/// Builds the System Exclusive wire frame `F0 <id bytes> <payload> F7`.
fn build_sysex_frame(id: &SystemExlusiveId, payload: &Vec<u8>) -> (r: Vec<u8>)
    ensures
        r@ == sysex_frame(*id, payload@),
{
    let mut frame: Vec<u8> = Vec::new();
    frame.push(0xF0);
    match id {
        SystemExlusiveId::OneByte(a) => {
            frame.push(*a);
        },
        SystemExlusiveId::TwoByte(a, b) => {
            frame.push(0);
            frame.push(*a);
            frame.push(*b);
        },
    }
    let ghost prefix = frame@;
    let mut i: usize = 0;
    while i < payload.len()
        invariant
            i <= payload@.len(),
            frame@ == prefix + payload@.take(i as int),
        decreases payload@.len() - i,
    {
        frame.push(payload[i]);
        assert(frame@ =~= prefix + payload@.take(i as int + 1));
        i = i + 1;
    }
    frame.push(0xF7);
    proof {
        assert(frame@ =~= sysex_frame(*id, payload@));
    }
    frame
}

/// Appends the event packets that carry `frame[start..]` on the cable.
fn append_sysex_packets(cable_number: u8, frame: &Vec<u8>, start: usize, out: &mut Vec<u8>)
    requires
        start <= frame@.len(),
    ensures
        final(out)@ == old(out)@ + sysex_packet_bytes(cable_number, frame@.skip(start as int)),
    decreases frame@.len() - start,
{
    let head = (cable_number & 0x0F) << 4;
    let remaining = frame.len() - start;
    if remaining == 0 {
        proof {
            assert(out@ =~= out@ + sysex_packet_bytes(cable_number, frame@.skip(start as int)));
        }
    } else if remaining == 1 {
        out.push(head | 0x5);
        out.push(frame[start]);
        out.push(0);
        out.push(0);
        proof {
            assert(out@ =~= old(out)@ + sysex_packet_bytes(cable_number, frame@.skip(start as int)));
        }
    } else if remaining == 2 {
        out.push(head | 0x6);
        out.push(frame[start]);
        out.push(frame[start + 1]);
        out.push(0);
        proof {
            assert(out@ =~= old(out)@ + sysex_packet_bytes(cable_number, frame@.skip(start as int)));
        }
    } else if remaining == 3 {
        out.push(head | 0x7);
        out.push(frame[start]);
        out.push(frame[start + 1]);
        out.push(frame[start + 2]);
        proof {
            assert(out@ =~= old(out)@ + sysex_packet_bytes(cable_number, frame@.skip(start as int)));
        }
    } else {
        out.push(head | 0x4);
        out.push(frame[start]);
        out.push(frame[start + 1]);
        out.push(frame[start + 2]);
        append_sysex_packets(cable_number, frame, start + 3, out);
        proof {
            assert(frame@.skip(start as int).skip(3) =~= frame@.skip(start as int + 3));
            assert(out@ =~= old(out)@ + sysex_packet_bytes(cable_number, frame@.skip(start as int)));
        }
    }
}

impl MidiMessage {
    /// Serializes the message on cable 0.
    pub fn serialize(self) -> (r: Serializer)
        ensures
            r.bytes@ == wire_bytes(self@, 0),
    {
        self.serialize_on_cable(0)
    }

    /// Serializes the message as USB-MIDI event packets on the given cable.
    /// Only the low four bits of the cable number reach the wire.
    pub fn serialize_on_cable(self, cable_number: u8) -> (r: Serializer)
        ensures
            r.bytes@ == wire_bytes(self@, cable_number),
    {
        match &self {
            MidiMessage::SystemExclusive(x) => {
                let frame = build_sysex_frame(&x.id, &x.payload);
                let mut out: Vec<u8> = Vec::new();
                append_sysex_packets(cable_number, &frame, 0, &mut out);
                proof {
                    assert(frame@.skip(0) =~= frame@);
                }
                Serializer { bytes: out }
            },
            _ => {
                let parts = channel_packet_parts(&self);
                let head = (cable_number & 0x0F) << 4;
                let mut out: Vec<u8> = Vec::new();
                out.push(head | parts.0);
                out.push(parts.1);
                out.push(parts.2);
                out.push(parts.3);
                proof {
                    assert(out@ =~= wire_bytes(self@, cable_number));
                }
                Serializer { bytes: out }
            },
        }
    }
}

impl EventPacket {
    /// Serializes the carried message on the packet's own cable.
    pub fn serialize(self) -> (r: Serializer)
        ensures
            r.bytes@ == wire_bytes(self.midi_message@, self.cable_number),
    {
        let EventPacket { cable_number, midi_message } = self;
        midi_message.serialize_on_cable(cable_number)
    }
}

} // verus!
