//! The stateful USB-MIDI parser.
//!
//! `UsbMidiParser::parse` walks four-byte event packets.  Channel messages
//! decode in place; System Exclusive packets accumulate per-cable state
//! until a terminating packet emits the assembled message.  The whole step
//! is specified by the pure function `parse_spec`, so the parser's result
//! and new state are a function of its old state and its input alone.

use vstd::prelude::*;

verus! {

use crate::usb_midi::{
    EventPacket, EventPacketView, MidiMessage, MidiMessageView, SystemExclusive,
    SystemExclusiveView, SystemExlusiveId, decode_channel_message,
};

// ===========================================================================
// The System Exclusive id state machine
// ===========================================================================

/// The state of the per-cable System Exclusive id reader.  The first data
/// byte decides between a one-byte id and (after a zero byte) a two-byte
/// id; once the id is complete, further data bytes belong to the payload.
#[derive(Clone, Copy, PartialEq, Eq, Structural, Debug)]
pub enum SysExIdStatus {
    Empty,
    OneByte(u8),
    NeedTwoMore,
    NeedOneMore(u8),
    TwoByte(u8, u8),
}

/// Whether the id state machine still takes data bytes as id bytes.
pub open spec fn fsm_accepts(fsm: SysExIdStatus) -> bool {
    match fsm {
        SysExIdStatus::OneByte(_) => false,
        SysExIdStatus::TwoByte(_, _) => false,
        _ => true,
    }
}

/// The id state after feeding one data byte.  A completed id is unchanged.
pub open spec fn fsm_next(fsm: SysExIdStatus, byte: u8) -> SysExIdStatus {
    match fsm {
        SysExIdStatus::Empty => if byte == 0 {
            SysExIdStatus::NeedTwoMore
        } else {
            SysExIdStatus::OneByte(byte)
        },
        SysExIdStatus::NeedTwoMore => SysExIdStatus::NeedOneMore(byte),
        SysExIdStatus::NeedOneMore(a) => SysExIdStatus::TwoByte(a, byte),
        _ => fsm,
    }
}

/// The id captured by the state machine; an incomplete id defaults to the
/// one-byte id zero.
pub open spec fn id_of(fsm: SysExIdStatus) -> SystemExlusiveId {
    match fsm {
        SysExIdStatus::OneByte(a) => SystemExlusiveId::OneByte(a),
        SysExIdStatus::TwoByte(a, b) => SystemExlusiveId::TwoByte(a, b),
        _ => SystemExlusiveId::OneByte(0),
    }
}

impl SysExIdStatus {
    /// Feeds one data byte.  Returns true when the byte was taken as part
    /// of the id, false when it belongs to the payload.
    fn give_byte(&mut self, byte: u8) -> (r: bool)
        ensures
            r == fsm_accepts(*old(self)),
            *final(self) == fsm_next(*old(self), byte),
    {
        match *self {
            SysExIdStatus::OneByte(_) | SysExIdStatus::TwoByte(_, _) => return false,
            _ => {},
        }

        *self = match *self {
            SysExIdStatus::Empty => if byte == 0 {
                SysExIdStatus::NeedTwoMore
            } else {
                SysExIdStatus::OneByte(byte)
            },
            SysExIdStatus::NeedTwoMore => SysExIdStatus::NeedOneMore(byte),
            SysExIdStatus::NeedOneMore(a) => SysExIdStatus::TwoByte(a, byte),
            _ => SysExIdStatus::Empty,
        };

        true
    }

    /// Hands out the captured id and returns the state machine to `Empty`.
    fn get_id_and_reset(&mut self) -> (r: SystemExlusiveId)
        ensures
            r == id_of(*old(self)),
            *final(self) == SysExIdStatus::Empty,
    {
        let id = match *self {
            SysExIdStatus::OneByte(id) => SystemExlusiveId::OneByte(id),
            SysExIdStatus::TwoByte(a, b) => SystemExlusiveId::TwoByte(a, b),
            _ => SystemExlusiveId::OneByte(0),
        };

        *self = SysExIdStatus::Empty;

        id
    }
}

// ===========================================================================
// The mathematical parser state and its transition function
// ===========================================================================

/// The per-cable parser state: an id state machine, an accumulated payload
/// and a started flag for each of the sixteen virtual cables.
pub struct ParserState {
    pub ids: Seq<SysExIdStatus>,
    pub bufs: Seq<Seq<u8>>,
    pub started: Seq<bool>,
}

pub open spec fn state_wf(s: ParserState) -> bool {
    s.ids.len() == 16 && s.bufs.len() == 16 && s.started.len() == 16
}

/// The state of a freshly created parser: every cable idle and empty.
pub open spec fn initial_parser_state() -> ParserState {
    ParserState {
        ids: Seq::new(16, |i: int| SysExIdStatus::Empty),
        bufs: Seq::new(16, |i: int| Seq::<u8>::empty()),
        started: Seq::new(16, |i: int| false),
    }
}

/// Feeds a run of System Exclusive data bytes to one cable's id state
/// machine and payload buffer.  Bytes above 0x7F are filtered out; bytes
/// not taken by the id state machine are appended to the payload.
pub open spec fn feed_data(fsm: SysExIdStatus, buf: Seq<u8>, data: Seq<u8>) -> (SysExIdStatus, Seq<u8>)
    decreases data.len(),
{
    if data.len() == 0 {
        (fsm, buf)
    } else {
        let b = data[0];
        if b > 0x7F {
            feed_data(fsm, buf, data.skip(1))
        } else if fsm_accepts(fsm) {
            feed_data(fsm_next(fsm, b), buf, data.skip(1))
        } else {
            feed_data(fsm, buf.push(b), data.skip(1))
        }
    }
}

/// The mathematical value of a parse result.
pub enum ParseStatusView {
    Complete(EventPacketView),
    Incomplete,
    Unknown,
    MalformedPacket,
}

/// One System Exclusive packet applied to the parser state: the data bytes
/// feed the cable's id state machine and payload; a terminating packet
/// emits the assembled message (or reports a malformed packet when the
/// cable was never started) and resets the cable either way.
pub open spec fn sysex_step(s: ParserState, cable: int, data: Seq<u8>, terminate: bool) -> (
    ParserState,
    ParseStatusView,
)
    recommends
        state_wf(s),
        0 <= cable < 16,
{
    let fed = feed_data(s.ids[cable], s.bufs[cable], data);
    if terminate {
        let status = if s.started[cable] {
            ParseStatusView::Complete(EventPacketView {
                cable_number: cable as u8,
                midi_message: MidiMessageView::SystemExclusive(SystemExclusiveView {
                    id: id_of(fed.0),
                    payload: fed.1,
                }),
            })
        } else {
            ParseStatusView::MalformedPacket
        };
        (ParserState {
            ids: s.ids.update(cable, SysExIdStatus::Empty),
            bufs: s.bufs.update(cable, Seq::<u8>::empty()),
            started: s.started.update(cable, false),
        }, status)
    } else {
        (ParserState {
            ids: s.ids.update(cable, fed.0),
            bufs: s.bufs.update(cable, fed.1),
            started: s.started.update(cable, true),
        }, ParseStatusView::Incomplete)
    }
}

/// The parser's walk over the input from byte position `n`, one event
/// packet at a time: a channel packet completes at once; System
/// Exclusive packets advance the state; a packet whose code index (or, for
/// a channel packet, whose status byte) is not recognized reports Unknown
/// with a single byte consumed so that the caller can resynchronize.
pub open spec fn parse_from(s: ParserState, input: Seq<u8>, n: int) -> (ParserState, ParseStatusView, int)
    recommends
        state_wf(s),
        0 <= n <= input.len(),
    decreases input.len() - n,
{
    if input.len() - n < 4 {
        (s, ParseStatusView::Incomplete, n)
    } else {
        let b0 = input[n];
        let cable = (b0 >> 4) as int;
        let cin = b0 & 0x0F;
        if 0x8 <= cin && cin <= 0xE {
            let b1 = input[n + 1];
            if 0x8 <= b1 >> 4 && b1 >> 4 <= 0xE {
                (s, ParseStatusView::Complete(EventPacketView {
                    cable_number: b0 >> 4,
                    midi_message: decode_channel_message(b1, input[n + 2], input[n + 3]),
                }), n + 4)
            } else {
                (s, ParseStatusView::Unknown, 1)
            }
        } else if cin == 0x4 {
            let stepped = sysex_step(s, cable, seq![input[n + 1], input[n + 2], input[n + 3]], false);
            parse_from(stepped.0, input, n + 4)
        } else if cin == 0x5 {
            let stepped = sysex_step(s, cable, seq![input[n + 1]], true);
            (stepped.0, stepped.1, n + 4)
        } else if cin == 0x6 {
            let stepped = sysex_step(s, cable, seq![input[n + 1], input[n + 2]], true);
            (stepped.0, stepped.1, n + 4)
        } else if cin == 0x7 {
            let stepped = sysex_step(s, cable, seq![input[n + 1], input[n + 2], input[n + 3]], true);
            (stepped.0, stepped.1, n + 4)
        } else {
            (s, ParseStatusView::Unknown, 1)
        }
    }
}

/// What one call of `parse` returns and how it changes the parser state,
/// as a pure function of the old state and the input.
pub open spec fn parse_spec(s: ParserState, input: Seq<u8>) -> (ParserState, ParseStatusView, int)
    recommends
        state_wf(s),
{
    if input.len() < 4 {
        (s, ParseStatusView::Incomplete, 0)
    } else {
        parse_from(s, input, 0)
    }
}

// ===========================================================================
// The executable parser
// ===========================================================================

/// The result of one `parse` call.
#[derive(PartialEq, Debug)]
pub enum MidiParseStatus {
    Complete(EventPacket),
    Incomplete,
    Unknown,
    MalformedPacket,
}

impl View for MidiParseStatus {
    type V = ParseStatusView;

    open spec fn view(&self) -> ParseStatusView {
        match self {
            MidiParseStatus::Complete(p) => ParseStatusView::Complete(p@),
            MidiParseStatus::Incomplete => ParseStatusView::Incomplete,
            MidiParseStatus::Unknown => ParseStatusView::Unknown,
            MidiParseStatus::MalformedPacket => ParseStatusView::MalformedPacket,
        }
    }
}

/// The stateful parser: one id state machine, payload buffer and started
/// flag per virtual cable.
pub struct UsbMidiParser {
    pub system_exclusive_ids: Vec<SysExIdStatus>,
    pub system_exclusive_messages: Vec<Vec<u8>>,
    pub system_exclusive_started: Vec<bool>,
}

impl View for UsbMidiParser {
    type V = ParserState;

    open spec fn view(&self) -> ParserState {
        ParserState {
            ids: self.system_exclusive_ids@,
            bufs: Seq::new(self.system_exclusive_messages@.len(), |i: int| self.system_exclusive_messages@[i]@),
            started: self.system_exclusive_started@,
        }
    }
}

impl UsbMidiParser {
    pub open spec fn wf(&self) -> bool {
        self.system_exclusive_ids@.len() == 16
        && self.system_exclusive_messages@.len() == 16
        && self.system_exclusive_started@.len() == 16
    }

    /// Creates a parser with every cable idle.
    pub fn new() -> (r: Self)
        ensures
            r.wf(),
            r@ == initial_parser_state(),
    {
        let mut ids: Vec<SysExIdStatus> = Vec::new();
        let mut messages: Vec<Vec<u8>> = Vec::new();
        let mut started: Vec<bool> = Vec::new();
        let mut i: usize = 0;
        while i < 16
            invariant
                i <= 16,
                ids@.len() == i,
                messages@.len() == i,
                started@.len() == i,
                forall|j: int| 0 <= j < i ==> ids@[j] == SysExIdStatus::Empty,
                forall|j: int| 0 <= j < i ==> messages@[j]@ == Seq::<u8>::empty(),
                forall|j: int| 0 <= j < i ==> started@[j] == false,
            decreases 16 - i,
        {
            ids.push(SysExIdStatus::Empty);
            messages.push(Vec::new());
            started.push(false);
            i = i + 1;
        }
        let r = UsbMidiParser {
            system_exclusive_ids: ids,
            system_exclusive_messages: messages,
            system_exclusive_started: started,
        };
        proof {
            assert(r@.ids =~= initial_parser_state().ids);
            assert(r@.bufs =~= initial_parser_state().bufs);
            assert(r@.started =~= initial_parser_state().started);
        }
        r
    }

    /// Parses a prefix of `input` as USB-MIDI event packets.  Returns the
    /// parse status and the number of bytes consumed, exactly as
    /// `parse_spec` states them.
    pub fn parse(&mut self, input: &[u8]) -> (r: (MidiParseStatus, usize))
        requires
            old(self).wf(),
        ensures
            final(self).wf(),
            ({
                let stepped = parse_spec(old(self)@, input@);
                final(self)@ == stepped.0 && r.0@ == stepped.1 && r.1 as int == stepped.2
            }),
    {
        if input.len() < 4 {
            return (MidiParseStatus::Incomplete, 0);
        }

        let ghost goal = parse_spec(old(self)@, input@);
        let mut n: usize = 0;

        loop
            invariant
                self.wf(),
                n <= input@.len(),
                goal == parse_from(self@, input@, n as int),
                goal == parse_spec(old(self)@, input@),
            decreases input@.len() - n,
        {
            if input.len() - n < 4 {
                return (MidiParseStatus::Incomplete, n);
            }
            let b0 = input[n];
            let cable = b0 >> 4;
            let cin = b0 & 0x0F;
            proof {
                assert(b0 >> 4 < 16) by (bit_vector);
            }
            if 0x8 <= cin && cin <= 0xE {
                let b1 = input[n + 1];
                let t = b1 >> 4;
                if 0x8 <= t && t <= 0xE {
                    let message = MidiMessage::from_bytes(b1, input[n + 2], input[n + 3]);
                    return (
                        MidiParseStatus::Complete(EventPacket { cable_number: cable, midi_message: message }),
                        n + 4,
                    );
                } else {
                    return (MidiParseStatus::Unknown, 1);
                }
            } else if cin == 0x4 {
                let _ = self.system_exclusive(input, n + 1, 3, cable, false);
                proof {
                    assert(input@.subrange(n as int + 1, n as int + 4)
                        =~= seq![input@[n as int + 1], input@[n as int + 2], input@[n as int + 3]]);
                }
                n = n + 4;
            } else if cin == 0x5 {
                let status = self.system_exclusive(input, n + 1, 1, cable, true);
                proof {
                    assert(input@.subrange(n as int + 1, n as int + 2) =~= seq![input@[n as int + 1]]);
                }
                return (status, n + 4);
            } else if cin == 0x6 {
                let status = self.system_exclusive(input, n + 1, 2, cable, true);
                proof {
                    assert(input@.subrange(n as int + 1, n as int + 3)
                        =~= seq![input@[n as int + 1], input@[n as int + 2]]);
                }
                return (status, n + 4);
            } else if cin == 0x7 {
                let status = self.system_exclusive(input, n + 1, 3, cable, true);
                proof {
                    assert(input@.subrange(n as int + 1, n as int + 4)
                        =~= seq![input@[n as int + 1], input@[n as int + 2], input@[n as int + 3]]);
                }
                return (status, n + 4);
            } else {
                return (MidiParseStatus::Unknown, 1);
            }
        }
    }

    /// Applies one System Exclusive packet's data bytes to the cable's
    /// state, emitting the assembled message on a terminating packet.
    fn system_exclusive(
        &mut self,
        input: &[u8],
        start: usize,
        count: usize,
        cable_number: u8,
        terminate: bool,
    ) -> (r: MidiParseStatus)
        requires
            old(self).wf(),
            cable_number < 16,
            start + count <= input@.len(),
        ensures
            final(self).wf(),
            ({
                let stepped = sysex_step(
                    old(self)@,
                    cable_number as int,
                    input@.subrange(start as int, start as int + count as int),
                    terminate,
                );
                final(self)@ == stepped.0 && r@ == stepped.1
            }),
    {
        let ghost s0 = self@;
        let ghost data = input@.subrange(start as int, start as int + count as int);
        let input_len = input.len();
        let c = cable_number as usize;
        let mut i: usize = 0;
        proof {
            assert(data.skip(0) =~= data);
        }
        while i < count
            invariant
                self.wf(),
                i <= count,
                c == cable_number as usize,
                c < 16,
                start + count <= input@.len(),
                input@.len() == input_len,
                data == input@.subrange(start as int, start as int + count as int),
                feed_data(s0.ids[c as int], s0.bufs[c as int], data)
                    == feed_data(self@.ids[c as int], self@.bufs[c as int], data.skip(i as int)),
                forall|j: int| 0 <= j < 16 && j != c ==>
                    self@.ids[j] == s0.ids[j] && self@.bufs[j] == s0.bufs[j],
                self@.started == s0.started,
            decreases count - i,
        {
            let byte = input[start + i];
            proof {
                assert(data.skip(i as int).len() == count - i);
                assert(data.skip(i as int)[0] == data[i as int]);
                assert(data[i as int] == input@[start as int + i as int]);
                assert(data.skip(i as int).skip(1) =~= data.skip(i as int + 1));
            }
            if byte <= 0x7F {
                let mut fsm = self.system_exclusive_ids[c];
                let consumed = fsm.give_byte(byte);
                self.system_exclusive_ids[c] = fsm;
                if !consumed {
                    self.system_exclusive_messages[c].push(byte);
                }
            }
            i = i + 1;
        }

        let ghost fed = feed_data(s0.ids[c as int], s0.bufs[c as int], data);
        proof {
            assert(data.skip(count as int) =~= Seq::<u8>::empty());
            assert(fed.0 == self@.ids[c as int] && fed.1 == self@.bufs[c as int]);
        }

        if terminate {
            let mut payload: Vec<u8> = Vec::new();
            core::mem::swap(&mut payload, &mut self.system_exclusive_messages[c]);
            let mut fsm = self.system_exclusive_ids[c];
            let id = fsm.get_id_and_reset();
            self.system_exclusive_ids[c] = fsm;
            let result = if self.system_exclusive_started[c] {
                MidiParseStatus::Complete(EventPacket {
                    cable_number: cable_number,
                    midi_message: MidiMessage::SystemExclusive(SystemExclusive { id: id, payload: payload }),
                })
            } else {
                MidiParseStatus::MalformedPacket
            };
            self.system_exclusive_started[c] = false;
            proof {
                let stepped = sysex_step(s0, cable_number as int, data, terminate);
                assert(self@.ids =~= stepped.0.ids);
                assert(self@.bufs =~= stepped.0.bufs);
                assert(self@.started =~= stepped.0.started);
            }
            result
        } else {
            self.system_exclusive_started[c] = true;
            proof {
                let stepped = sysex_step(s0, cable_number as int, data, terminate);
                assert(self@.ids =~= stepped.0.ids);
                assert(self@.bufs =~= stepped.0.bufs);
                assert(self@.started =~= stepped.0.started);
            }
            MidiParseStatus::Incomplete
        }
    }
}

} // verus!
