//! The control dispatcher: translates MIDI events from the keyboard and
//! the control surface into acknowledgement messages back to the surface
//! and typed synthesizer commands, suppressing emissions whose value equals
//! the running shadow state.
//!
//! Commands carry the discrete control values themselves (a 7-bit knob
//! position, a range stop, a note number); the audio edge outside the
//! library maps them to tuning multipliers, phase increments and gains.

use vstd::prelude::*;

verus! {

use crate::midi_controller::MidiControllerType;
use crate::usb_midi::{ControlChange, MidiMessage, MidiMessageView, NoteOn};

/// The oscillator range stops, in organ-pipe nomenclature; `Range8ft`
/// sounds the written pitch and each step halves or doubles it.
#[derive(Clone, Copy, PartialEq, Eq, Structural, Debug)]
pub enum OscillatorRange {
    Low,
    Range32ft,
    Range16ft,
    Range8ft,
    Range4ft,
    Range2ft,
}

/// A typed synthesizer command.  Each carries the discrete value the
/// control produced: the master-tune and volume knob positions (0..=127),
/// the selected range stop, the enable flag, or a MIDI note number.
#[derive(Clone, Copy, PartialEq, Eq, Structural, Debug)]
pub enum SynthControl {
    MasterTune(u8),
    Oscillator1Range(OscillatorRange),
    Oscillator1Enable(bool),
    Oscillator1Volume(u8),
    NoteOn(u8),
    NoteOff(u8),
}

/// The dispatcher's shadow state: the last value acknowledged for each
/// control, used to suppress redundant emissions.
#[derive(Clone, Copy, PartialEq, Eq, Structural, Debug)]
pub struct Dispatcher {
    pub master_tune: u8,
    pub osc1_range: OscillatorRange,
    pub osc1_enable: bool,
    pub osc1_volume: u8,
}

/// The shadow state the dispatcher starts from and returns to after the
/// startup handshake.
pub open spec fn initial_dispatcher() -> Dispatcher {
    Dispatcher {
        master_tune: 64,
        osc1_range: OscillatorRange::Range8ft,
        osc1_enable: true,
        osc1_volume: 0,
    }
}

/// The knob positions that select a range stop.  Positions below the
/// lowest detent clamp to 21, positions above the highest clamp to 105;
/// positions in a gap between detents select nothing.
pub open spec fn range_bucket(value: u8) -> Option<(u8, OscillatorRange)> {
    if value <= 21 {
        Some((21u8, OscillatorRange::Low))
    } else if 35 <= value && value <= 38 {
        Some((value, OscillatorRange::Range32ft))
    } else if 53 <= value && value <= 56 {
        Some((value, OscillatorRange::Range16ft))
    } else if 70 <= value && value <= 73 {
        Some((value, OscillatorRange::Range8ft))
    } else if 88 <= value && value <= 91 {
        Some((value, OscillatorRange::Range4ft))
    } else if 105 <= value && value <= 127 {
        Some((105u8, OscillatorRange::Range2ft))
    } else {
        None
    }
}

/// A Control Change acknowledgement to the control surface on channel 0.
pub open spec fn cc_echo(control_number: u8, value: u8) -> MidiMessage {
    MidiMessage::ControlChange(ControlChange {
        channel: 0,
        control_number: control_number,
        control_value: value & 0x7F,
    })
}

/// Effect of a master-tune knob value: when it differs from the shadow,
/// the knob is echoed back and the tune command is emitted.
pub open spec fn master_tune_spec(d: Dispatcher, value: u8) -> (Dispatcher, Seq<MidiMessage>, Seq<SynthControl>) {
    if value != d.master_tune {
        (
            Dispatcher { master_tune: value, ..d },
            seq![cc_echo(0x31, value)],
            seq![SynthControl::MasterTune(value)],
        )
    } else {
        (d, Seq::<MidiMessage>::empty(), Seq::<SynthControl>::empty())
    }
}

/// Effect of a range knob value: a position in a detent bucket selects a
/// stop; the clamped position is echoed and the range command emitted only
/// when the stop differs from the shadow.
pub open spec fn oscillator_range_spec(d: Dispatcher, value: u8) -> (Dispatcher, Seq<MidiMessage>, Seq<SynthControl>) {
    match range_bucket(value) {
        Some((clamped, range)) => if range != d.osc1_range {
            (
                Dispatcher { osc1_range: range, ..d },
                seq![cc_echo(0x30, clamped)],
                seq![SynthControl::Oscillator1Range(range)],
            )
        } else {
            (d, Seq::<MidiMessage>::empty(), Seq::<SynthControl>::empty())
        },
        None => (d, Seq::<MidiMessage>::empty(), Seq::<SynthControl>::empty()),
    }
}

/// Effect of the enable pad: the flag toggles, the pad's light follows the
/// new state, and the enable command is emitted.
pub open spec fn oscillator_enable_spec(d: Dispatcher) -> (Dispatcher, Seq<MidiMessage>, Seq<SynthControl>) {
    let enabled = !d.osc1_enable;
    (
        Dispatcher { osc1_enable: enabled, ..d },
        seq![MidiMessage::NoteOn(NoteOn {
            channel: 0,
            note_number: 0x33,
            key_velocity: if enabled { 0x7F } else { 0 },
        })],
        seq![SynthControl::Oscillator1Enable(enabled)],
    )
}

/// Effect of a volume fader value: when it differs from the shadow, the
/// volume command is emitted; the fader is not echoed.
pub open spec fn oscillator_volume_spec(d: Dispatcher, value: u8) -> (Dispatcher, Seq<MidiMessage>, Seq<SynthControl>) {
    if value != d.osc1_volume {
        (
            Dispatcher { osc1_volume: value, ..d },
            Seq::<MidiMessage>::empty(),
            seq![SynthControl::Oscillator1Volume(value)],
        )
    } else {
        (d, Seq::<MidiMessage>::empty(), Seq::<SynthControl>::empty())
    }
}

/// What one incoming message from the given source does to the dispatcher:
/// the new shadow state, the messages echoed to the control surface, and
/// the synthesizer commands emitted.
pub open spec fn dispatch_spec(d: Dispatcher, m: MidiMessageView, source: MidiControllerType) -> (
    Dispatcher,
    Seq<MidiMessage>,
    Seq<SynthControl>,
) {
    match source {
        MidiControllerType::ControlPanel => match m {
            MidiMessageView::ControlChange(cc) => if cc.control_number == 0x07 && cc.channel == 0 {
                oscillator_volume_spec(d, cc.control_value)
            } else if cc.control_number == 0x30 {
                oscillator_range_spec(d, cc.control_value)
            } else if cc.control_number == 0x31 {
                master_tune_spec(d, cc.control_value)
            } else {
                (d, Seq::<MidiMessage>::empty(), Seq::<SynthControl>::empty())
            },
            MidiMessageView::NoteOn(n) => if n.note_number == 0x33 && n.channel == 0 {
                oscillator_enable_spec(d)
            } else {
                (d, Seq::<MidiMessage>::empty(), Seq::<SynthControl>::empty())
            },
            _ => (d, Seq::<MidiMessage>::empty(), Seq::<SynthControl>::empty()),
        },
        MidiControllerType::Keyboard => match m {
            MidiMessageView::NoteOn(n) => (d, Seq::<MidiMessage>::empty(), seq![SynthControl::NoteOn(n.note_number)]),
            MidiMessageView::NoteOff(n) => (d, Seq::<MidiMessage>::empty(), seq![SynthControl::NoteOff(n.note_number)]),
            _ => (d, Seq::<MidiMessage>::empty(), Seq::<SynthControl>::empty()),
        },
    }
}

/// The startup handshake to the control surface, in order: knob styles and
/// positions for master tune and range, the waveform and enable lights.
pub open spec fn init_midi_messages() -> Seq<MidiMessage> {
    seq![
        cc_echo(0x39, 1),
        cc_echo(0x31, 64),
        cc_echo(0x38, 1),
        cc_echo(0x30, 72),
        MidiMessage::NoteOn(NoteOn { channel: 0, note_number: 0, key_velocity: 38 }),
        MidiMessage::NoteOn(NoteOn { channel: 0, note_number: 8, key_velocity: 38 }),
        MidiMessage::NoteOn(NoteOn { channel: 0, note_number: 16, key_velocity: 38 }),
        MidiMessage::NoteOn(NoteOn { channel: 0, note_number: 24, key_velocity: 38 }),
        MidiMessage::NoteOn(NoteOn { channel: 0, note_number: 32, key_velocity: 124 }),
        MidiMessage::NoteOn(NoteOn { channel: 0, note_number: 33, key_velocity: 38 }),
        MidiMessage::NoteOn(NoteOn { channel: 0, note_number: 0x33, key_velocity: 127 }),
    ]
}

/// The startup commands to the engine, in order: centre tune, the 8ft
/// stop, oscillator enabled, volume down.
pub open spec fn init_synth_commands() -> Seq<SynthControl> {
    seq![
        SynthControl::MasterTune(64),
        SynthControl::Oscillator1Range(OscillatorRange::Range8ft),
        SynthControl::Oscillator1Enable(true),
        SynthControl::Oscillator1Volume(0),
    ]
}

impl Dispatcher {
    /// Creates a dispatcher with the startup shadow state.
    pub fn new() -> (r: Dispatcher)
        ensures
            r == initial_dispatcher(),
    {
        Dispatcher {
            master_tune: 64,
            osc1_range: OscillatorRange::Range8ft,
            osc1_enable: true,
            osc1_volume: 0,
        }
    }

    /// Produces the deterministic startup handshake: the exact message
    /// sequence for the control surface and command sequence for the
    /// engine, and resets the shadow state to the startup values.
    pub fn initialize(&mut self) -> (r: (Vec<MidiMessage>, Vec<SynthControl>))
        ensures
            *final(self) == initial_dispatcher(),
            r.0@ == init_midi_messages(),
            r.1@ == init_synth_commands(),
    {
        self.master_tune = 64;
        self.osc1_range = OscillatorRange::Range8ft;
        self.osc1_enable = true;
        self.osc1_volume = 0;

        let mut controls: Vec<MidiMessage> = Vec::new();
        controls.push(MidiMessage::ControlChange(ControlChange { channel: 0, control_number: 0x39, control_value: 1 & 0x7F }));
        controls.push(MidiMessage::ControlChange(ControlChange { channel: 0, control_number: 0x31, control_value: 64 & 0x7F }));
        controls.push(MidiMessage::ControlChange(ControlChange { channel: 0, control_number: 0x38, control_value: 1 & 0x7F }));
        controls.push(MidiMessage::ControlChange(ControlChange { channel: 0, control_number: 0x30, control_value: 72 & 0x7F }));
        controls.push(MidiMessage::NoteOn(NoteOn { channel: 0, note_number: 0, key_velocity: 38 }));
        controls.push(MidiMessage::NoteOn(NoteOn { channel: 0, note_number: 8, key_velocity: 38 }));
        controls.push(MidiMessage::NoteOn(NoteOn { channel: 0, note_number: 16, key_velocity: 38 }));
        controls.push(MidiMessage::NoteOn(NoteOn { channel: 0, note_number: 24, key_velocity: 38 }));
        controls.push(MidiMessage::NoteOn(NoteOn { channel: 0, note_number: 32, key_velocity: 124 }));
        controls.push(MidiMessage::NoteOn(NoteOn { channel: 0, note_number: 33, key_velocity: 38 }));
        controls.push(MidiMessage::NoteOn(NoteOn { channel: 0, note_number: 0x33, key_velocity: 127 }));

        let mut synth: Vec<SynthControl> = Vec::new();
        synth.push(SynthControl::MasterTune(64));
        synth.push(SynthControl::Oscillator1Range(OscillatorRange::Range8ft));
        synth.push(SynthControl::Oscillator1Enable(true));
        synth.push(SynthControl::Oscillator1Volume(0));

        proof {
            assert(controls@ =~= init_midi_messages());
            assert(synth@ =~= init_synth_commands());
        }
        (controls, synth)
    }

    /// Applies one incoming message, returning the messages for the
    /// control surface and the commands for the engine, exactly as
    /// `dispatch_spec` states them.
    pub fn dispatch(&mut self, midi_message: &MidiMessage, source: MidiControllerType) -> (r: (
        Vec<MidiMessage>,
        Vec<SynthControl>,
    ))
        ensures
            ({
                let stepped = dispatch_spec(*old(self), midi_message@, source);
                *final(self) == stepped.0 && r.0@ == stepped.1 && r.1@ == stepped.2
            }),
    {
        match source {
            MidiControllerType::ControlPanel => match midi_message {
                MidiMessage::ControlChange(cc) => {
                    if cc.control_number == 0x07 && cc.channel == 0 {
                        self.update_oscillator_volume(cc.control_value)
                    } else if cc.control_number == 0x30 {
                        self.update_oscillator_range(cc.control_value)
                    } else if cc.control_number == 0x31 {
                        self.update_master_tune(cc.control_value)
                    } else {
                        (Vec::new(), Vec::new())
                    }
                },
                MidiMessage::NoteOn(n) => {
                    if n.note_number == 0x33 && n.channel == 0 {
                        self.update_oscillator_enable()
                    } else {
                        (Vec::new(), Vec::new())
                    }
                },
                _ => (Vec::new(), Vec::new()),
            },
            MidiControllerType::Keyboard => match midi_message {
                MidiMessage::NoteOn(n) => self.note_on(n.note_number),
                MidiMessage::NoteOff(n) => self.note_off(n.note_number),
                _ => (Vec::new(), Vec::new()),
            },
        }
    }

    /// Applies a master-tune knob value against the shadow.
    pub fn update_master_tune(&mut self, value: u8) -> (r: (Vec<MidiMessage>, Vec<SynthControl>))
        ensures
            ({
                let stepped = master_tune_spec(*old(self), value);
                *final(self) == stepped.0 && r.0@ == stepped.1 && r.1@ == stepped.2
            }),
    {
        let mut controls: Vec<MidiMessage> = Vec::new();
        let mut synth: Vec<SynthControl> = Vec::new();
        if value != self.master_tune {
            controls.push(MidiMessage::ControlChange(ControlChange {
                channel: 0,
                control_number: 0x31,
                control_value: value & 0x7F,
            }));
            synth.push(SynthControl::MasterTune(value));
            self.master_tune = value;
            proof {
                assert(controls@ =~= master_tune_spec(*old(self), value).1);
                assert(synth@ =~= master_tune_spec(*old(self), value).2);
            }
        }
        (controls, synth)
    }

    /// Applies a range knob value against the detent buckets and the
    /// shadow.
    pub fn update_oscillator_range(&mut self, value: u8) -> (r: (Vec<MidiMessage>, Vec<SynthControl>))
        ensures
            ({
                let stepped = oscillator_range_spec(*old(self), value);
                *final(self) == stepped.0 && r.0@ == stepped.1 && r.1@ == stepped.2
            }),
    {
        let mut controls: Vec<MidiMessage> = Vec::new();
        let mut synth: Vec<SynthControl> = Vec::new();
        let clamped: u8;
        let range: OscillatorRange;
        if value <= 21 {
            clamped = 21;
            range = OscillatorRange::Low;
        } else if 35 <= value && value <= 38 {
            clamped = value;
            range = OscillatorRange::Range32ft;
        } else if 53 <= value && value <= 56 {
            clamped = value;
            range = OscillatorRange::Range16ft;
        } else if 70 <= value && value <= 73 {
            clamped = value;
            range = OscillatorRange::Range8ft;
        } else if 88 <= value && value <= 91 {
            clamped = value;
            range = OscillatorRange::Range4ft;
        } else if 105 <= value && value <= 127 {
            clamped = 105;
            range = OscillatorRange::Range2ft;
        } else {
            return (controls, synth);
        }

        if range != self.osc1_range {
            controls.push(MidiMessage::ControlChange(ControlChange {
                channel: 0,
                control_number: 0x30,
                control_value: clamped & 0x7F,
            }));
            synth.push(SynthControl::Oscillator1Range(range));
            self.osc1_range = range;
            proof {
                assert(controls@ =~= oscillator_range_spec(*old(self), value).1);
                assert(synth@ =~= oscillator_range_spec(*old(self), value).2);
            }
        }
        (controls, synth)
    }

    /// Toggles the oscillator enable flag.
    pub fn update_oscillator_enable(&mut self) -> (r: (Vec<MidiMessage>, Vec<SynthControl>))
        ensures
            ({
                let stepped = oscillator_enable_spec(*old(self));
                *final(self) == stepped.0 && r.0@ == stepped.1 && r.1@ == stepped.2
            }),
    {
        self.osc1_enable = !self.osc1_enable;
        let value: u8 = if self.osc1_enable { 0x7F } else { 0x00 };

        let mut controls: Vec<MidiMessage> = Vec::new();
        let mut synth: Vec<SynthControl> = Vec::new();
        controls.push(MidiMessage::NoteOn(NoteOn { channel: 0, note_number: 0x33, key_velocity: value }));
        synth.push(SynthControl::Oscillator1Enable(self.osc1_enable));
        proof {
            assert(controls@ =~= oscillator_enable_spec(*old(self)).1);
            assert(synth@ =~= oscillator_enable_spec(*old(self)).2);
        }
        (controls, synth)
    }

    /// Applies a volume fader value against the shadow.
    pub fn update_oscillator_volume(&mut self, value: u8) -> (r: (Vec<MidiMessage>, Vec<SynthControl>))
        ensures
            ({
                let stepped = oscillator_volume_spec(*old(self), value);
                *final(self) == stepped.0 && r.0@ == stepped.1 && r.1@ == stepped.2
            }),
    {
        let controls: Vec<MidiMessage> = Vec::new();
        let mut synth: Vec<SynthControl> = Vec::new();
        if value != self.osc1_volume {
            synth.push(SynthControl::Oscillator1Volume(value));
            self.osc1_volume = value;
            proof {
                assert(synth@ =~= oscillator_volume_spec(*old(self), value).2);
            }
        }
        (controls, synth)
    }

    /// A key went down on the keyboard: emits the note command.
    pub fn note_on(&mut self, note_number: u8) -> (r: (Vec<MidiMessage>, Vec<SynthControl>))
        ensures
            *final(self) == *old(self),
            r.0@ == Seq::<MidiMessage>::empty(),
            r.1@ == seq![SynthControl::NoteOn(note_number)],
    {
        let mut synth: Vec<SynthControl> = Vec::new();
        synth.push(SynthControl::NoteOn(note_number));
        proof {
            assert(synth@ =~= seq![SynthControl::NoteOn(note_number)]);
        }
        (Vec::new(), synth)
    }

    /// A key came up on the keyboard: emits the note-off command.
    pub fn note_off(&mut self, note_number: u8) -> (r: (Vec<MidiMessage>, Vec<SynthControl>))
        ensures
            *final(self) == *old(self),
            r.0@ == Seq::<MidiMessage>::empty(),
            r.1@ == seq![SynthControl::NoteOff(note_number)],
    {
        let mut synth: Vec<SynthControl> = Vec::new();
        synth.push(SynthControl::NoteOff(note_number));
        proof {
            assert(synth@ =~= seq![SynthControl::NoteOff(note_number)]);
        }
        (Vec::new(), synth)
    }
}

// ===========================================================================
// Laws
// ===========================================================================

/// A control value equal to the running shadow produces no message on
/// either output and leaves the shadow untouched: redundant knob, fader
/// and detent positions are absorbed.
pub proof fn lemma_dispatch_idempotent(d: Dispatcher, m: MidiMessageView)
    requires
        m matches MidiMessageView::ControlChange(cc) && (
            (cc.control_number == 0x31 && cc.control_value == d.master_tune)
            || (cc.control_number == 0x30 && (range_bucket(cc.control_value) matches Some(p) && p.1 == d.osc1_range))
            || (cc.control_number == 0x07 && cc.channel == 0 && cc.control_value == d.osc1_volume)
        ),
    ensures
        dispatch_spec(d, m, MidiControllerType::ControlPanel).0 == d,
        dispatch_spec(d, m, MidiControllerType::ControlPanel).1 == Seq::<MidiMessage>::empty(),
        dispatch_spec(d, m, MidiControllerType::ControlPanel).2 == Seq::<SynthControl>::empty(),
{
}

/// Range clamping: positions at or below 21 select the low stop with the
/// echo clamped to 21, positions at or above 105 select the 2ft stop with
/// the echo clamped to 105, and positions in a gap between detents emit
/// nothing at all.
pub proof fn lemma_range_clamping(d: Dispatcher, ch: u8, v: u8)
    ensures
        ({
            let m = MidiMessageView::ControlChange(ControlChange {
                channel: ch,
                control_number: 0x30,
                control_value: v,
            });
            let stepped = dispatch_spec(d, m, MidiControllerType::ControlPanel);
            &&& (v <= 21 && d.osc1_range != OscillatorRange::Low ==> stepped.1 == seq![cc_echo(0x30, 21)]
                && stepped.2 == seq![SynthControl::Oscillator1Range(OscillatorRange::Low)])
            &&& (105 <= v && v <= 127 && d.osc1_range != OscillatorRange::Range2ft ==> stepped.1 == seq![cc_echo(0x30, 105)]
                && stepped.2 == seq![SynthControl::Oscillator1Range(OscillatorRange::Range2ft)])
            &&& (range_bucket(v) is None ==> stepped.0 == d && stepped.1 == Seq::<MidiMessage>::empty()
                && stepped.2 == Seq::<SynthControl>::empty())
        }),
{
}

} // verus!
