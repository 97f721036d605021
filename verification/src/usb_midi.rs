//! MIDI channel messages and System Exclusive messages, together with the
//! mathematical model of their USB-MIDI wire encoding.
//!
//! Every message type masks its fields to the wire width at construction, so
//! a value built through `create` is always well formed.

use vstd::prelude::*;

verus! {

// ===========================================================================
// Channel messages
// ===========================================================================

#[derive(Clone, Copy, PartialEq, Eq, Structural, Debug)]
pub struct NoteOn {
    pub channel: u8,
    pub note_number: u8,
    pub key_velocity: u8,
}

impl NoteOn {
    /// Builds a Note On message; fields are masked to their wire widths.
    pub fn create(channel: u8, note_number: u8, key_velocity: u8) -> (r: MidiMessage)
        ensures
            r == MidiMessage::NoteOn(NoteOn {
                channel: channel & 0x0F,
                note_number: note_number & 0x7F,
                key_velocity: key_velocity & 0x7F,
            }),
    {
        MidiMessage::NoteOn(NoteOn {
            channel: channel & 0x0F,
            note_number: note_number & 0x7F,
            key_velocity: key_velocity & 0x7F,
        })
    }

    pub fn channel(&self) -> (r: u8)
        ensures
            r == self.channel,
    {
        self.channel
    }

    pub fn note_number(&self) -> (r: u8)
        ensures
            r == self.note_number,
    {
        self.note_number
    }

    pub fn key_velocity(&self) -> (r: u8)
        ensures
            r == self.key_velocity,
    {
        self.key_velocity
    }
}

#[derive(Clone, Copy, PartialEq, Eq, Structural, Debug)]
pub struct NoteOff {
    pub channel: u8,
    pub note_number: u8,
    pub off_velocity: u8,
}

impl NoteOff {
    /// Builds a Note Off message; fields are masked to their wire widths.
    pub fn create(channel: u8, note_number: u8, off_velocity: u8) -> (r: MidiMessage)
        ensures
            r == MidiMessage::NoteOff(NoteOff {
                channel: channel & 0x0F,
                note_number: note_number & 0x7F,
                off_velocity: off_velocity & 0x7F,
            }),
    {
        MidiMessage::NoteOff(NoteOff {
            channel: channel & 0x0F,
            note_number: note_number & 0x7F,
            off_velocity: off_velocity & 0x7F,
        })
    }

    pub fn channel(&self) -> (r: u8)
        ensures
            r == self.channel,
    {
        self.channel
    }

    pub fn note_number(&self) -> (r: u8)
        ensures
            r == self.note_number,
    {
        self.note_number
    }

    pub fn off_velocity(&self) -> (r: u8)
        ensures
            r == self.off_velocity,
    {
        self.off_velocity
    }
}

#[derive(Clone, Copy, PartialEq, Eq, Structural, Debug)]
pub struct PitchBend {
    pub channel: u8,
    pub pitch_bend_change: u16,
}

impl PitchBend {
    /// Builds a Pitch Bend message with a 14-bit bend value.
    pub fn create(channel: u8, pitch_bend_change: u16) -> (r: MidiMessage)
        ensures
            r == MidiMessage::PitchBend(PitchBend {
                channel: channel & 0x0F,
                pitch_bend_change: pitch_bend_change & 0x3FFF,
            }),
    {
        MidiMessage::PitchBend(PitchBend {
            channel: channel & 0x0F,
            pitch_bend_change: pitch_bend_change & 0x3FFF,
        })
    }

    pub fn channel(&self) -> (r: u8)
        ensures
            r == self.channel,
    {
        self.channel
    }

    pub fn pitch_bend_change(&self) -> (r: u16)
        ensures
            r == self.pitch_bend_change,
    {
        self.pitch_bend_change
    }
}

#[derive(Clone, Copy, PartialEq, Eq, Structural, Debug)]
pub struct ControlChange {
    pub channel: u8,
    pub control_number: u8,
    pub control_value: u8,
}

impl ControlChange {
    /// Builds a Control Change message; fields are masked to their wire widths.
    pub fn create(channel: u8, control_number: u8, control_value: u8) -> (r: MidiMessage)
        ensures
            r == MidiMessage::ControlChange(ControlChange {
                channel: channel & 0x0F,
                control_number: control_number & 0x7F,
                control_value: control_value & 0x7F,
            }),
    {
        MidiMessage::ControlChange(ControlChange {
            channel: channel & 0x0F,
            control_number: control_number & 0x7F,
            control_value: control_value & 0x7F,
        })
    }

    pub fn channel(&self) -> (r: u8)
        ensures
            r == self.channel,
    {
        self.channel
    }

    pub fn control_number(&self) -> (r: u8)
        ensures
            r == self.control_number,
    {
        self.control_number
    }

    pub fn control_value(&self) -> (r: u8)
        ensures
            r == self.control_value,
    {
        self.control_value
    }
}

#[derive(Clone, Copy, PartialEq, Eq, Structural, Debug)]
pub struct AllSoundOff {
    pub channel: u8,
}

impl AllSoundOff {
    /// Builds an All Sound Off channel-mode message.
    pub fn create(channel: u8) -> (r: MidiMessage)
        ensures
            r == MidiMessage::AllSoundOff(AllSoundOff { channel: channel & 0x0F }),
    {
        MidiMessage::AllSoundOff(AllSoundOff { channel: channel & 0x0F })
    }

    pub fn channel(&self) -> (r: u8)
        ensures
            r == self.channel,
    {
        self.channel
    }
}

#[derive(Clone, Copy, PartialEq, Eq, Structural, Debug)]
pub struct ResetAllControllers {
    pub channel: u8,
}

impl ResetAllControllers {
    /// Builds a Reset All Controllers channel-mode message.
    pub fn create(channel: u8) -> (r: MidiMessage)
        ensures
            r == MidiMessage::ResetAllControllers(ResetAllControllers { channel: channel & 0x0F }),
    {
        MidiMessage::ResetAllControllers(ResetAllControllers { channel: channel & 0x0F })
    }

    pub fn channel(&self) -> (r: u8)
        ensures
            r == self.channel,
    {
        self.channel
    }
}

#[derive(Clone, Copy, PartialEq, Eq, Structural, Debug)]
pub struct LocalControl {
    pub channel: u8,
    pub on: bool,
}

impl LocalControl {
    /// Builds a Local Control channel-mode message.
    pub fn create(channel: u8, on: bool) -> (r: MidiMessage)
        ensures
            r == MidiMessage::LocalControl(LocalControl { channel: channel & 0x0F, on: on }),
    {
        MidiMessage::LocalControl(LocalControl { channel: channel & 0x0F, on: on })
    }

    pub fn channel(&self) -> (r: u8)
        ensures
            r == self.channel,
    {
        self.channel
    }

    pub fn on(&self) -> (r: bool)
        ensures
            r == self.on,
    {
        self.on
    }
}

#[derive(Clone, Copy, PartialEq, Eq, Structural, Debug)]
pub struct AllNotesOff {
    pub channel: u8,
}

impl AllNotesOff {
    /// Builds an All Notes Off channel-mode message.
    pub fn create(channel: u8) -> (r: MidiMessage)
        ensures
            r == MidiMessage::AllNotesOff(AllNotesOff { channel: channel & 0x0F }),
    {
        MidiMessage::AllNotesOff(AllNotesOff { channel: channel & 0x0F })
    }

    pub fn channel(&self) -> (r: u8)
        ensures
            r == self.channel,
    {
        self.channel
    }
}

#[derive(Clone, Copy, PartialEq, Eq, Structural, Debug)]
pub struct OmniModeOff {
    pub channel: u8,
}

impl OmniModeOff {
    /// Builds an Omni Mode Off channel-mode message.
    pub fn create(channel: u8) -> (r: MidiMessage)
        ensures
            r == MidiMessage::OmniModeOff(OmniModeOff { channel: channel & 0x0F }),
    {
        MidiMessage::OmniModeOff(OmniModeOff { channel: channel & 0x0F })
    }

    pub fn channel(&self) -> (r: u8)
        ensures
            r == self.channel,
    {
        self.channel
    }
}

#[derive(Clone, Copy, PartialEq, Eq, Structural, Debug)]
pub struct OmniModeOn {
    pub channel: u8,
}

impl OmniModeOn {
    /// Builds an Omni Mode On channel-mode message.
    pub fn create(channel: u8) -> (r: MidiMessage)
        ensures
            r == MidiMessage::OmniModeOn(OmniModeOn { channel: channel & 0x0F }),
    {
        MidiMessage::OmniModeOn(OmniModeOn { channel: channel & 0x0F })
    }

    pub fn channel(&self) -> (r: u8)
        ensures
            r == self.channel,
    {
        self.channel
    }
}

#[derive(Clone, Copy, PartialEq, Eq, Structural, Debug)]
pub struct MonoModeOn {
    pub channel: u8,
    pub number_of_channels: u8,
}

impl MonoModeOn {
    /// Builds a Mono Mode On channel-mode message with a 4-bit channel count.
    pub fn create(channel: u8, number_of_channels: u8) -> (r: MidiMessage)
        ensures
            r == MidiMessage::MonoModeOn(MonoModeOn {
                channel: channel & 0x0F,
                number_of_channels: number_of_channels & 0x0F,
            }),
    {
        MidiMessage::MonoModeOn(MonoModeOn {
            channel: channel & 0x0F,
            number_of_channels: number_of_channels & 0x0F,
        })
    }

    pub fn channel(&self) -> (r: u8)
        ensures
            r == self.channel,
    {
        self.channel
    }

    pub fn number_of_channels(&self) -> (r: u8)
        ensures
            r == self.number_of_channels,
    {
        self.number_of_channels
    }
}

#[derive(Clone, Copy, PartialEq, Eq, Structural, Debug)]
pub struct PolyModeOn {
    pub channel: u8,
}

impl PolyModeOn {
    /// Builds a Poly Mode On channel-mode message.
    pub fn create(channel: u8) -> (r: MidiMessage)
        ensures
            r == MidiMessage::PolyModeOn(PolyModeOn { channel: channel & 0x0F }),
    {
        MidiMessage::PolyModeOn(PolyModeOn { channel: channel & 0x0F })
    }

    pub fn channel(&self) -> (r: u8)
        ensures
            r == self.channel,
    {
        self.channel
    }
}

#[derive(Clone, Copy, PartialEq, Eq, Structural, Debug)]
pub struct ProgramChange {
    pub channel: u8,
    pub program_number: u8,
}

impl ProgramChange {
    /// Builds a Program Change message.
    pub fn create(channel: u8, program_number: u8) -> (r: MidiMessage)
        ensures
            r == MidiMessage::ProgramChange(ProgramChange {
                channel: channel & 0x0F,
                program_number: program_number & 0x7F,
            }),
    {
        MidiMessage::ProgramChange(ProgramChange {
            channel: channel & 0x0F,
            program_number: program_number & 0x7F,
        })
    }

    pub fn channel(&self) -> (r: u8)
        ensures
            r == self.channel,
    {
        self.channel
    }

    pub fn program_number(&self) -> (r: u8)
        ensures
            r == self.program_number,
    {
        self.program_number
    }
}

#[derive(Clone, Copy, PartialEq, Eq, Structural, Debug)]
pub struct ChannelPressure {
    pub channel: u8,
    pub pressure: u8,
}

impl ChannelPressure {
    /// Builds a Channel Pressure message.
    pub fn create(channel: u8, pressure: u8) -> (r: MidiMessage)
        ensures
            r == MidiMessage::ChannelPressure(ChannelPressure {
                channel: channel & 0x0F,
                pressure: pressure & 0x7F,
            }),
    {
        MidiMessage::ChannelPressure(ChannelPressure {
            channel: channel & 0x0F,
            pressure: pressure & 0x7F,
        })
    }

    pub fn channel(&self) -> (r: u8)
        ensures
            r == self.channel,
    {
        self.channel
    }

    pub fn pressure(&self) -> (r: u8)
        ensures
            r == self.pressure,
    {
        self.pressure
    }
}

#[derive(Clone, Copy, PartialEq, Eq, Structural, Debug)]
pub struct PolyphonicKeyPressure {
    pub channel: u8,
    pub note_number: u8,
    pub pressure: u8,
}

impl PolyphonicKeyPressure {
    /// Builds a Polyphonic Key Pressure message.
    pub fn create(channel: u8, note_number: u8, pressure: u8) -> (r: MidiMessage)
        ensures
            r == MidiMessage::PolyphonicKeyPressure(PolyphonicKeyPressure {
                channel: channel & 0x0F,
                note_number: note_number & 0x7F,
                pressure: pressure & 0x7F,
            }),
    {
        MidiMessage::PolyphonicKeyPressure(PolyphonicKeyPressure {
            channel: channel & 0x0F,
            note_number: note_number & 0x7F,
            pressure: pressure & 0x7F,
        })
    }

    pub fn channel(&self) -> (r: u8)
        ensures
            r == self.channel,
    {
        self.channel
    }

    pub fn note_number(&self) -> (r: u8)
        ensures
            r == self.note_number,
    {
        self.note_number
    }

    pub fn pressure(&self) -> (r: u8)
        ensures
            r == self.pressure,
    {
        self.pressure
    }
}

// ===========================================================================
// System Exclusive messages
// ===========================================================================

/// A System Exclusive manufacturer id: either a single byte, or a two-byte
/// extended id preceded by a zero byte on the wire.
#[derive(Clone, Copy, PartialEq, Eq, Structural, Debug)]
pub enum SystemExlusiveId {
    OneByte(u8),
    TwoByte(u8, u8),
}

#[derive(Clone, PartialEq, Debug)]
pub struct SystemExclusive {
    pub id: SystemExlusiveId,
    pub payload: Vec<u8>,
}

impl SystemExclusive {
    /// Builds a System Exclusive message from an id and a payload.
    pub fn create(id: SystemExlusiveId, payload: Vec<u8>) -> (r: MidiMessage)
        ensures
            r@ == MidiMessageView::SystemExclusive(SystemExclusiveView { id: id, payload: payload@ }),
    {
        MidiMessage::SystemExclusive(SystemExclusive { id: id, payload: payload })
    }

    pub fn id(&self) -> (r: SystemExlusiveId)
        ensures
            r == self.id,
    {
        self.id
    }

    pub fn payload(&self) -> (r: &Vec<u8>)
        ensures
            r@ == self.payload@,
    {
        &self.payload
    }
}

// ===========================================================================
// The message sum type and its mathematical view
// ===========================================================================

#[derive(Clone, PartialEq, Debug)]
pub enum MidiMessage {
    NoteOn(NoteOn),
    NoteOff(NoteOff),
    PitchBend(PitchBend),
    ControlChange(ControlChange),
    AllSoundOff(AllSoundOff),
    ResetAllControllers(ResetAllControllers),
    LocalControl(LocalControl),
    AllNotesOff(AllNotesOff),
    OmniModeOff(OmniModeOff),
    OmniModeOn(OmniModeOn),
    MonoModeOn(MonoModeOn),
    PolyModeOn(PolyModeOn),
    ProgramChange(ProgramChange),
    ChannelPressure(ChannelPressure),
    PolyphonicKeyPressure(PolyphonicKeyPressure),
    SystemExclusive(SystemExclusive),
}

/// The mathematical value of a System Exclusive message: its id and the
/// payload as a sequence of bytes.
pub struct SystemExclusiveView {
    pub id: SystemExlusiveId,
    pub payload: Seq<u8>,
}

/// The mathematical value of a MIDI message.  Channel messages are plain
/// data and stand for themselves; a System Exclusive message is abstracted
/// to its id and payload sequence.
pub enum MidiMessageView {
    NoteOn(NoteOn),
    NoteOff(NoteOff),
    PitchBend(PitchBend),
    ControlChange(ControlChange),
    AllSoundOff(AllSoundOff),
    ResetAllControllers(ResetAllControllers),
    LocalControl(LocalControl),
    AllNotesOff(AllNotesOff),
    OmniModeOff(OmniModeOff),
    OmniModeOn(OmniModeOn),
    MonoModeOn(MonoModeOn),
    PolyModeOn(PolyModeOn),
    ProgramChange(ProgramChange),
    ChannelPressure(ChannelPressure),
    PolyphonicKeyPressure(PolyphonicKeyPressure),
    SystemExclusive(SystemExclusiveView),
}

impl View for MidiMessage {
    type V = MidiMessageView;

    open spec fn view(&self) -> MidiMessageView {
        match self {
            MidiMessage::NoteOn(m) => MidiMessageView::NoteOn(*m),
            MidiMessage::NoteOff(m) => MidiMessageView::NoteOff(*m),
            MidiMessage::PitchBend(m) => MidiMessageView::PitchBend(*m),
            MidiMessage::ControlChange(m) => MidiMessageView::ControlChange(*m),
            MidiMessage::AllSoundOff(m) => MidiMessageView::AllSoundOff(*m),
            MidiMessage::ResetAllControllers(m) => MidiMessageView::ResetAllControllers(*m),
            MidiMessage::LocalControl(m) => MidiMessageView::LocalControl(*m),
            MidiMessage::AllNotesOff(m) => MidiMessageView::AllNotesOff(*m),
            MidiMessage::OmniModeOff(m) => MidiMessageView::OmniModeOff(*m),
            MidiMessage::OmniModeOn(m) => MidiMessageView::OmniModeOn(*m),
            MidiMessage::MonoModeOn(m) => MidiMessageView::MonoModeOn(*m),
            MidiMessage::PolyModeOn(m) => MidiMessageView::PolyModeOn(*m),
            MidiMessage::ProgramChange(m) => MidiMessageView::ProgramChange(*m),
            MidiMessage::ChannelPressure(m) => MidiMessageView::ChannelPressure(*m),
            MidiMessage::PolyphonicKeyPressure(m) => MidiMessageView::PolyphonicKeyPressure(*m),
            MidiMessage::SystemExclusive(m) => MidiMessageView::SystemExclusive(
                SystemExclusiveView { id: m.id, payload: m.payload@ },
            ),
        }
    }
}

/// Well-formedness of a System Exclusive id: a one-byte id is a non-zero
/// 7-bit manufacturer byte; a two-byte id holds two 7-bit bytes.
pub open spec fn sysex_id_wf(id: SystemExlusiveId) -> bool {
    match id {
        SystemExlusiveId::OneByte(a) => 1 <= a && a <= 0x7F,
        SystemExlusiveId::TwoByte(a, b) => a <= 0x7F && b <= 0x7F,
    }
}

/// Well-formedness of a message value: every field lies within its wire
/// width.  Values built through `create` satisfy this.
pub open spec fn message_wf(m: MidiMessageView) -> bool {
    match m {
        MidiMessageView::NoteOn(x) => x.channel < 16 && x.note_number < 128 && x.key_velocity < 128,
        MidiMessageView::NoteOff(x) => x.channel < 16 && x.note_number < 128 && x.off_velocity < 128,
        MidiMessageView::PitchBend(x) => x.channel < 16 && x.pitch_bend_change < 0x4000,
        MidiMessageView::ControlChange(x) => x.channel < 16 && x.control_number < 128 && x.control_value < 128,
        MidiMessageView::AllSoundOff(x) => x.channel < 16,
        MidiMessageView::ResetAllControllers(x) => x.channel < 16,
        MidiMessageView::LocalControl(x) => x.channel < 16,
        MidiMessageView::AllNotesOff(x) => x.channel < 16,
        MidiMessageView::OmniModeOff(x) => x.channel < 16,
        MidiMessageView::OmniModeOn(x) => x.channel < 16,
        MidiMessageView::MonoModeOn(x) => x.channel < 16 && x.number_of_channels < 16,
        MidiMessageView::PolyModeOn(x) => x.channel < 16,
        MidiMessageView::ProgramChange(x) => x.channel < 16 && x.program_number < 128,
        MidiMessageView::ChannelPressure(x) => x.channel < 16 && x.pressure < 128,
        MidiMessageView::PolyphonicKeyPressure(x) => x.channel < 16 && x.note_number < 128 && x.pressure < 128,
        MidiMessageView::SystemExclusive(s) => sysex_id_wf(s.id)
            && (forall|i: int| 0 <= i < s.payload.len() ==> s.payload[i] <= 0x7F),
    }
}

// ===========================================================================
// Decoding a channel message from its three wire bytes
// ===========================================================================

/// The channel message denoted by the three MIDI bytes of an event packet.
/// `b1` is the status byte; its high nibble must name a channel message.
/// A Note On with velocity zero denotes a Note Off with velocity 64.
pub open spec fn decode_channel_message(b1: u8, b2: u8, b3: u8) -> MidiMessageView
    recommends
        8 <= b1 >> 4 && b1 >> 4 <= 0x0E,
{
    let t = b1 >> 4;
    let ch = b1 & 0x0F;
    if t == 0x8 {
        MidiMessageView::NoteOff(NoteOff { channel: ch, note_number: b2 & 0x7F, off_velocity: b3 & 0x7F })
    } else if t == 0x9 {
        if b3 == 0 {
            MidiMessageView::NoteOff(NoteOff { channel: ch, note_number: b2 & 0x7F, off_velocity: 64 })
        } else {
            MidiMessageView::NoteOn(NoteOn { channel: ch, note_number: b2 & 0x7F, key_velocity: b3 & 0x7F })
        }
    } else if t == 0xA {
        MidiMessageView::PolyphonicKeyPressure(PolyphonicKeyPressure { channel: ch, note_number: b2 & 0x7F, pressure: b3 & 0x7F })
    } else if t == 0xB {
        let cn = b2 & 0x7F;
        if cn == 120 {
            MidiMessageView::AllSoundOff(AllSoundOff { channel: ch })
        } else if cn == 121 {
            MidiMessageView::ResetAllControllers(ResetAllControllers { channel: ch })
        } else if cn == 122 {
            MidiMessageView::LocalControl(LocalControl { channel: ch, on: (b3 & 0x7F) >= 64 })
        } else if cn == 123 {
            MidiMessageView::AllNotesOff(AllNotesOff { channel: ch })
        } else if cn == 124 {
            MidiMessageView::OmniModeOff(OmniModeOff { channel: ch })
        } else if cn == 125 {
            MidiMessageView::OmniModeOn(OmniModeOn { channel: ch })
        } else if cn == 126 {
            MidiMessageView::MonoModeOn(MonoModeOn { channel: ch, number_of_channels: b3 & 0x0F })
        } else if cn == 127 {
            MidiMessageView::PolyModeOn(PolyModeOn { channel: ch })
        } else {
            MidiMessageView::ControlChange(ControlChange { channel: ch, control_number: cn, control_value: b3 & 0x7F })
        }
    } else if t == 0xC {
        MidiMessageView::ProgramChange(ProgramChange { channel: ch, program_number: b2 & 0x7F })
    } else if t == 0xD {
        MidiMessageView::ChannelPressure(ChannelPressure { channel: ch, pressure: b2 & 0x7F })
    } else {
        MidiMessageView::PitchBend(PitchBend {
            channel: ch,
            pitch_bend_change: ((((b3 & 0x7F) as u16) << 7) | ((b2 & 0x7F) as u16)) & 0x3FFF,
        })
    }
}

impl MidiMessage {
    /// Decodes a channel message from the three MIDI bytes of an event
    /// packet.  The status byte's high nibble must name a channel message.
    pub(crate) fn from_bytes(b1: u8, b2: u8, b3: u8) -> (r: MidiMessage)
        requires
            8 <= b1 >> 4 && b1 >> 4 <= 0x0E,
        ensures
            r@ == decode_channel_message(b1, b2, b3),
    {
        proof {
            assert(64u8 & 0x7F == 64) by (bit_vector);
            assert(((b2 & 0x7F) & 0x7F) == (b2 & 0x7F)) by (bit_vector);
        }
        let t = b1 >> 4;
        if t == 0x8 {
            NoteOff::create(b1, b2, b3)
        } else if t == 0x9 {
            if b3 == 0 {
                NoteOff::create(b1, b2, 64)
            } else {
                NoteOn::create(b1, b2, b3)
            }
        } else if t == 0xA {
            PolyphonicKeyPressure::create(b1, b2, b3)
        } else if t == 0xB {
            let cn = b2 & 0x7F;
            if cn == 120 {
                AllSoundOff::create(b1)
            } else if cn == 121 {
                ResetAllControllers::create(b1)
            } else if cn == 122 {
                LocalControl::create(b1, (b3 & 0x7F) >= 64)
            } else if cn == 123 {
                AllNotesOff::create(b1)
            } else if cn == 124 {
                OmniModeOff::create(b1)
            } else if cn == 125 {
                OmniModeOn::create(b1)
            } else if cn == 126 {
                MonoModeOn::create(b1, b3)
            } else if cn == 127 {
                PolyModeOn::create(b1)
            } else {
                ControlChange::create(b1, cn, b3)
            }
        } else if t == 0xC {
            ProgramChange::create(b1, b2)
        } else if t == 0xD {
            ChannelPressure::create(b1, b2)
        } else {
            PitchBend::create(b1, (((b3 & 0x7F) as u16) << 7) | ((b2 & 0x7F) as u16))
        }
    }
}

// ===========================================================================
// The wire encoding of a message
// ===========================================================================

/// The code index number announcing a channel message in an event packet.
pub open spec fn channel_cin(m: MidiMessageView) -> u8
    recommends
        !(m is SystemExclusive),
{
    match m {
        MidiMessageView::NoteOn(_) => 0x9,
        MidiMessageView::NoteOff(_) => 0x8,
        MidiMessageView::PitchBend(_) => 0xE,
        MidiMessageView::ProgramChange(_) => 0xC,
        MidiMessageView::ChannelPressure(_) => 0xD,
        MidiMessageView::PolyphonicKeyPressure(_) => 0xA,
        MidiMessageView::SystemExclusive(_) => 0x0,
        _ => 0xB,
    }
}

/// The three MIDI bytes of a channel message as they stand in an event
/// packet.  Fields are masked again, so the encoding is total.
pub open spec fn channel_message_bytes(m: MidiMessageView) -> Seq<u8>
    recommends
        !(m is SystemExclusive),
{
    match m {
        MidiMessageView::NoteOn(x) => seq![0x90u8 | (x.channel & 0x0F), x.note_number & 0x7F, x.key_velocity & 0x7F],
        MidiMessageView::NoteOff(x) => seq![0x80u8 | (x.channel & 0x0F), x.note_number & 0x7F, x.off_velocity & 0x7F],
        MidiMessageView::PitchBend(x) => seq![
            0xE0u8 | (x.channel & 0x0F),
            (x.pitch_bend_change & 0x7F) as u8,
            ((x.pitch_bend_change >> 7) & 0x7F) as u8,
        ],
        MidiMessageView::ControlChange(x) => seq![0xB0u8 | (x.channel & 0x0F), x.control_number & 0x7F, x.control_value & 0x7F],
        MidiMessageView::AllSoundOff(x) => seq![0xB0u8 | (x.channel & 0x0F), 120u8, 0u8],
        MidiMessageView::ResetAllControllers(x) => seq![0xB0u8 | (x.channel & 0x0F), 121u8, 0u8],
        MidiMessageView::LocalControl(x) => seq![0xB0u8 | (x.channel & 0x0F), 122u8, if x.on { 127u8 } else { 0u8 }],
        MidiMessageView::AllNotesOff(x) => seq![0xB0u8 | (x.channel & 0x0F), 123u8, 0u8],
        MidiMessageView::OmniModeOff(x) => seq![0xB0u8 | (x.channel & 0x0F), 124u8, 0u8],
        MidiMessageView::OmniModeOn(x) => seq![0xB0u8 | (x.channel & 0x0F), 125u8, 0u8],
        MidiMessageView::MonoModeOn(x) => seq![0xB0u8 | (x.channel & 0x0F), 126u8, x.number_of_channels & 0x7F],
        MidiMessageView::PolyModeOn(x) => seq![0xB0u8 | (x.channel & 0x0F), 127u8, 0u8],
        MidiMessageView::ProgramChange(x) => seq![0xC0u8 | (x.channel & 0x0F), x.program_number & 0x7F, 0u8],
        MidiMessageView::ChannelPressure(x) => seq![0xD0u8 | (x.channel & 0x0F), x.pressure & 0x7F, 0u8],
        MidiMessageView::PolyphonicKeyPressure(x) => seq![0xA0u8 | (x.channel & 0x0F), x.note_number & 0x7F, x.pressure & 0x7F],
        MidiMessageView::SystemExclusive(_) => seq![],
    }
}

/// The full System Exclusive wire frame: a start byte, the id bytes (a
/// two-byte id is preceded by a zero byte), the payload, and an end byte.
pub open spec fn sysex_frame(id: SystemExlusiveId, payload: Seq<u8>) -> Seq<u8> {
    let id_bytes = match id {
        SystemExlusiveId::OneByte(a) => seq![a],
        SystemExlusiveId::TwoByte(a, b) => seq![0u8, a, b],
    };
    seq![0xF0u8] + id_bytes + payload + seq![0xF7u8]
}

/// The event packets carrying a System Exclusive frame on the given cable:
/// one packet with code index 0x4 for each full three-byte chunk that is
/// followed by more bytes, and a terminator packet with code index 0x5, 0x6
/// or 0x7 for the remaining one, two or three bytes, padded with zeros.
pub open spec fn sysex_packet_bytes(cable: u8, frame: Seq<u8>) -> Seq<u8>
    decreases frame.len(),
{
    let head = (cable & 0x0F) << 4;
    if frame.len() == 0 {
        seq![]
    } else if frame.len() == 1 {
        seq![head | 0x5, frame[0], 0u8, 0u8]
    } else if frame.len() == 2 {
        seq![head | 0x6, frame[0], frame[1], 0u8]
    } else if frame.len() == 3 {
        seq![head | 0x7, frame[0], frame[1], frame[2]]
    } else {
        seq![head | 0x4, frame[0], frame[1], frame[2]] + sysex_packet_bytes(cable, frame.skip(3))
    }
}

/// The complete wire encoding of a message on a cable: a single four-byte
/// event packet for a channel message, a packet stream for System Exclusive.
pub open spec fn wire_bytes(m: MidiMessageView, cable: u8) -> Seq<u8> {
    match m {
        MidiMessageView::SystemExclusive(s) => sysex_packet_bytes(cable, sysex_frame(s.id, s.payload)),
        _ => seq![((cable & 0x0F) << 4) | channel_cin(m)] + channel_message_bytes(m),
    }
}

// ===========================================================================
// Event packets
// ===========================================================================

/// The unit decoded and encoded by the USB codec: a virtual cable number
/// paired with a MIDI message.
#[derive(PartialEq, Debug)]
pub struct EventPacket {
    pub cable_number: u8,
    pub midi_message: MidiMessage,
}

/// The mathematical value of an event packet.
pub struct EventPacketView {
    pub cable_number: u8,
    pub midi_message: MidiMessageView,
}

impl View for EventPacket {
    type V = EventPacketView;

    open spec fn view(&self) -> EventPacketView {
        EventPacketView { cable_number: self.cable_number, midi_message: self.midi_message@ }
    }
}

impl EventPacket {
    pub fn cable_number(&self) -> (r: u8)
        ensures
            r == self.cable_number,
    {
        self.cable_number
    }

    /// Returns a copy of the carried MIDI message.
    pub fn midi_message(&self) -> (r: MidiMessage)
        ensures
            r@ == self.midi_message@,
    {
        clone_message(&self.midi_message)
    }
}

/// Copies a MIDI message; the copy has the same mathematical value.
pub fn clone_message(m: &MidiMessage) -> (r: MidiMessage)
    ensures
        r@ == m@,
{
    match m {
        MidiMessage::NoteOn(x) => MidiMessage::NoteOn(*x),
        MidiMessage::NoteOff(x) => MidiMessage::NoteOff(*x),
        MidiMessage::PitchBend(x) => MidiMessage::PitchBend(*x),
        MidiMessage::ControlChange(x) => MidiMessage::ControlChange(*x),
        MidiMessage::AllSoundOff(x) => MidiMessage::AllSoundOff(*x),
        MidiMessage::ResetAllControllers(x) => MidiMessage::ResetAllControllers(*x),
        MidiMessage::LocalControl(x) => MidiMessage::LocalControl(*x),
        MidiMessage::AllNotesOff(x) => MidiMessage::AllNotesOff(*x),
        MidiMessage::OmniModeOff(x) => MidiMessage::OmniModeOff(*x),
        MidiMessage::OmniModeOn(x) => MidiMessage::OmniModeOn(*x),
        MidiMessage::MonoModeOn(x) => MidiMessage::MonoModeOn(*x),
        MidiMessage::PolyModeOn(x) => MidiMessage::PolyModeOn(*x),
        MidiMessage::ProgramChange(x) => MidiMessage::ProgramChange(*x),
        MidiMessage::ChannelPressure(x) => MidiMessage::ChannelPressure(*x),
        MidiMessage::PolyphonicKeyPressure(x) => MidiMessage::PolyphonicKeyPressure(*x),
        MidiMessage::SystemExclusive(x) => {
            let payload = copy_bytes(&x.payload);
            MidiMessage::SystemExclusive(SystemExclusive { id: x.id, payload: payload })
        },
    }
}

/// Copies a byte vector element by element.
fn copy_bytes(v: &Vec<u8>) -> (r: Vec<u8>)
    ensures
        r@ == v@,
{
    let mut r: Vec<u8> = Vec::new();
    let mut i: usize = 0;
    while i < v.len()
        invariant
            i <= v@.len(),
            r@ == v@.take(i as int),
        decreases v@.len() - i,
    {
        r.push(v[i]);
        assert(r@ =~= v@.take(i as int + 1));
        i = i + 1;
    }
    assert(r@ =~= v@);
    r
}

} // verus!
