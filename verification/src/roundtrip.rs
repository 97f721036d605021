//! The codec laws: serializing a message and parsing the bytes back yields
//! the same message on the same cable, and System Exclusive assembly is
//! per-cable and order-preserving.

use vstd::prelude::*;

verus! {

use crate::usb_midi::{
    EventPacketView, MidiMessageView, SystemExclusiveView, SystemExlusiveId, channel_cin,
    channel_message_bytes, message_wf, sysex_frame, sysex_id_wf, sysex_packet_bytes, wire_bytes,
};
use crate::parser::{
    ParserState, ParseStatusView, SysExIdStatus, feed_data, fsm_accepts, fsm_next, id_of,
    parse_from, parse_spec, state_wf, sysex_step,
};

// ===========================================================================
// Bit-level facts about the packet encoding
// ===========================================================================

proof fn lemma_packet_byte0(cable: u8, cin: u8)
    by (bit_vector)
    requires
        cable < 16,
        cin < 16,
    ensures
        ((((cable & 0x0F) << 4) | cin) >> 4) == cable,
        ((((cable & 0x0F) << 4) | cin) & 0x0F) == cin,
{
}

proof fn lemma_status_byte(ch: u8)
    by (bit_vector)
    requires
        ch < 16,
    ensures
        ((0x80u8 | ch) >> 4) == 8 && ((0x80u8 | ch) & 0x0F) == ch,
        ((0x90u8 | ch) >> 4) == 9 && ((0x90u8 | ch) & 0x0F) == ch,
        ((0xA0u8 | ch) >> 4) == 0xA && ((0xA0u8 | ch) & 0x0F) == ch,
        ((0xB0u8 | ch) >> 4) == 0xB && ((0xB0u8 | ch) & 0x0F) == ch,
        ((0xC0u8 | ch) >> 4) == 0xC && ((0xC0u8 | ch) & 0x0F) == ch,
        ((0xD0u8 | ch) >> 4) == 0xD && ((0xD0u8 | ch) & 0x0F) == ch,
        ((0xE0u8 | ch) >> 4) == 0xE && ((0xE0u8 | ch) & 0x0F) == ch,
{
}

proof fn lemma_seven_bit(x: u8)
    by (bit_vector)
    requires
        x < 128,
    ensures
        (x & 0x7F) == x,
{
}

proof fn lemma_four_bit(x: u8)
    by (bit_vector)
    requires
        x < 16,
    ensures
        (x & 0x0F) == x,
        ((x & 0x7F) & 0x0F) == x,
{
}

proof fn lemma_pitch_bend_bits(v: u16)
    by (bit_vector)
    requires
        v < 0x4000,
    ensures
        ((((((((v >> 7) & 0x7F) as u8) & 0x7F) as u16) << 7) | ((((v & 0x7F) as u8) & 0x7F) as u16))
            & 0x3FFF) == v,
{
}

// ===========================================================================
// Facts about feeding SysEx data bytes
// ===========================================================================

/// Feeding a concatenation is feeding the parts one after the other.
proof fn lemma_feed_append(fsm: SysExIdStatus, buf: Seq<u8>, d1: Seq<u8>, d2: Seq<u8>)
    ensures
        feed_data(fsm, buf, d1 + d2) == ({
            let f1 = feed_data(fsm, buf, d1);
            feed_data(f1.0, f1.1, d2)
        }),
    decreases d1.len(),
{
    if d1.len() == 0 {
        assert(d1 + d2 =~= d2);
    } else {
        assert((d1 + d2)[0] == d1[0]);
        assert((d1 + d2).skip(1) =~= d1.skip(1) + d2);
        let b = d1[0];
        if b > 0x7F {
            lemma_feed_append(fsm, buf, d1.skip(1), d2);
        } else if fsm_accepts(fsm) {
            lemma_feed_append(fsm_next(fsm, b), buf, d1.skip(1), d2);
        } else {
            lemma_feed_append(fsm, buf.push(b), d1.skip(1), d2);
        }
    }
}

/// Once the id is complete, seven-bit data bytes go to the payload whole.
proof fn lemma_feed_complete(fsm: SysExIdStatus, buf: Seq<u8>, data: Seq<u8>)
    requires
        !fsm_accepts(fsm),
        forall|i: int| 0 <= i < data.len() ==> data[i] <= 0x7F,
    ensures
        feed_data(fsm, buf, data) == (fsm, buf + data),
    decreases data.len(),
{
    if data.len() == 0 {
        assert(buf + data =~= buf);
    } else {
        lemma_feed_complete(fsm, buf.push(data[0]), data.skip(1));
        assert(buf.push(data[0]) + data.skip(1) =~= buf + data);
    }
}

// ===========================================================================
// Channel-message round trip
// ===========================================================================

/// Round trip for channel messages: parsing the serialized bytes of a well
/// formed channel message yields the same message, complete, on the same
/// cable, consuming exactly the four serialized bytes, from any parser
/// state, which is left untouched.
///
/// Two families of channel messages do not return as themselves and are
/// excluded: a Note On with velocity zero parses back as a Note Off with
/// velocity 64, and a Control Change whose control number is 120 or more
/// parses back as the corresponding channel-mode message.
pub proof fn lemma_channel_round_trip(s: ParserState, m: MidiMessageView, cable: u8)
    requires
        state_wf(s),
        message_wf(m),
        cable < 16,
        !(m is SystemExclusive),
        !(m matches MidiMessageView::NoteOn(x) && x.key_velocity == 0),
        !(m matches MidiMessageView::ControlChange(x) && x.control_number >= 120),
    ensures
        parse_spec(s, wire_bytes(m, cable)).0 == s,
        parse_spec(s, wire_bytes(m, cable)).1 == ParseStatusView::Complete(EventPacketView {
            cable_number: cable,
            midi_message: m,
        }),
        parse_spec(s, wire_bytes(m, cable)).2 == 4,
{
    let bytes = wire_bytes(m, cable);
    let cin = channel_cin(m);
    let body = channel_message_bytes(m);
    assert(0x8 <= cin && cin <= 0xE);
    assert(body.len() == 3);
    assert(bytes =~= seq![((cable & 0x0F) << 4) | cin] + body);
    assert(bytes.len() == 4);
    assert(bytes[0] == ((cable & 0x0F) << 4) | cin);
    assert(bytes[1] == body[0] && bytes[2] == body[1] && bytes[3] == body[2]);
    lemma_packet_byte0(cable, cin);
    lemma_seven_bit(0);
    lemma_seven_bit(120);
    lemma_seven_bit(121);
    lemma_seven_bit(122);
    lemma_seven_bit(123);
    lemma_seven_bit(124);
    lemma_seven_bit(125);
    lemma_seven_bit(126);
    lemma_seven_bit(127);
    match m {
        MidiMessageView::NoteOn(x) => {
            lemma_four_bit(x.channel);
            lemma_status_byte(x.channel);
            lemma_seven_bit(x.note_number);
            lemma_seven_bit(x.key_velocity);
        },
        MidiMessageView::NoteOff(x) => {
            lemma_four_bit(x.channel);
            lemma_status_byte(x.channel);
            lemma_seven_bit(x.note_number);
            lemma_seven_bit(x.off_velocity);
        },
        MidiMessageView::PitchBend(x) => {
            lemma_four_bit(x.channel);
            lemma_status_byte(x.channel);
            lemma_pitch_bend_bits(x.pitch_bend_change);
        },
        MidiMessageView::ControlChange(x) => {
            lemma_four_bit(x.channel);
            lemma_status_byte(x.channel);
            lemma_seven_bit(x.control_number);
            lemma_seven_bit(x.control_value);
        },
        MidiMessageView::AllSoundOff(x) => {
            lemma_four_bit(x.channel);
            lemma_status_byte(x.channel);
        },
        MidiMessageView::ResetAllControllers(x) => {
            lemma_four_bit(x.channel);
            lemma_status_byte(x.channel);
        },
        MidiMessageView::LocalControl(x) => {
            lemma_four_bit(x.channel);
            lemma_status_byte(x.channel);
        },
        MidiMessageView::AllNotesOff(x) => {
            lemma_four_bit(x.channel);
            lemma_status_byte(x.channel);
        },
        MidiMessageView::OmniModeOff(x) => {
            lemma_four_bit(x.channel);
            lemma_status_byte(x.channel);
        },
        MidiMessageView::OmniModeOn(x) => {
            lemma_four_bit(x.channel);
            lemma_status_byte(x.channel);
        },
        MidiMessageView::MonoModeOn(x) => {
            lemma_four_bit(x.channel);
            lemma_status_byte(x.channel);
            lemma_four_bit(x.number_of_channels);
        },
        MidiMessageView::PolyModeOn(x) => {
            lemma_four_bit(x.channel);
            lemma_status_byte(x.channel);
        },
        MidiMessageView::ProgramChange(x) => {
            lemma_four_bit(x.channel);
            lemma_status_byte(x.channel);
            lemma_seven_bit(x.program_number);
        },
        MidiMessageView::ChannelPressure(x) => {
            lemma_four_bit(x.channel);
            lemma_status_byte(x.channel);
            lemma_seven_bit(x.pressure);
        },
        MidiMessageView::PolyphonicKeyPressure(x) => {
            lemma_four_bit(x.channel);
            lemma_status_byte(x.channel);
            lemma_seven_bit(x.note_number);
            lemma_seven_bit(x.pressure);
        },
        MidiMessageView::SystemExclusive(_) => {},
    }
}

// ===========================================================================
// System Exclusive round trip
// ===========================================================================

/// Walking the packet stream of a System Exclusive frame remainder from a
/// started cable ends with the assembled message and the cable reset.
proof fn lemma_parse_sysex_packets(s: ParserState, input: Seq<u8>, n: int, cable: u8, rest: Seq<u8>)
    requires
        state_wf(s),
        cable < 16,
        0 <= n <= input.len(),
        input.skip(n) == sysex_packet_bytes(cable, rest),
        rest.len() >= 1,
        s.started[cable as int] == true,
    ensures
        ({
            let fed = feed_data(s.ids[cable as int], s.bufs[cable as int], rest);
            let stepped = parse_from(s, input, n);
            stepped.0 == ParserState {
                ids: s.ids.update(cable as int, SysExIdStatus::Empty),
                bufs: s.bufs.update(cable as int, Seq::<u8>::empty()),
                started: s.started.update(cable as int, false),
            }
            && stepped.1 == ParseStatusView::Complete(EventPacketView {
                cable_number: cable,
                midi_message: MidiMessageView::SystemExclusive(SystemExclusiveView {
                    id: id_of(fed.0),
                    payload: fed.1,
                }),
            })
            && stepped.2 == input.len()
        }),
    decreases rest.len(),
{
    let stream = sysex_packet_bytes(cable, rest);
    let head = (cable & 0x0F) << 4;
    assert(stream.len() >= 4);
    assert(input.len() - n >= 4);
    assert(input.skip(n)[0] == input[n]);
    assert(input[n] == stream[0]);
    if rest.len() == 1 {
        lemma_packet_byte0(cable, 0x5);
        assert(input.len() - n == 4);
        assert(input.skip(n)[1] == input[n + 1]);
        assert(seq![input[n + 1]] =~= rest);
    } else if rest.len() == 2 {
        lemma_packet_byte0(cable, 0x6);
        assert(input.len() - n == 4);
        assert(input.skip(n)[1] == input[n + 1]);
        assert(input.skip(n)[2] == input[n + 2]);
        assert(seq![input[n + 1], input[n + 2]] =~= rest);
    } else if rest.len() == 3 {
        lemma_packet_byte0(cable, 0x7);
        assert(input.len() - n == 4);
        assert(input.skip(n)[1] == input[n + 1]);
        assert(input.skip(n)[2] == input[n + 2]);
        assert(input.skip(n)[3] == input[n + 3]);
        assert(seq![input[n + 1], input[n + 2], input[n + 3]] =~= rest);
    } else {
        lemma_packet_byte0(cable, 0x4);
        let tail = sysex_packet_bytes(cable, rest.skip(3));
        assert(stream =~= seq![head | 0x4, rest[0], rest[1], rest[2]] + tail);
        assert(rest.skip(3).len() >= 1);
        assert(tail.len() >= 4);
        assert(input.len() - n >= 8);
        assert(input.skip(n)[1] == input[n + 1]);
        assert(input.skip(n)[2] == input[n + 2]);
        assert(input.skip(n)[3] == input[n + 3]);
        assert(stream[1] == rest[0] && stream[2] == rest[1] && stream[3] == rest[2]);
        assert(seq![input[n + 1], input[n + 2], input[n + 3]] =~= rest.take(3));
        let stepped = sysex_step(s, cable as int, rest.take(3), false);
        let s2 = stepped.0;
        assert(state_wf(s2));
        assert(s2.started[cable as int] == true);
        assert(input.skip(n + 4) =~= input.skip(n).skip(4));
        assert(input.skip(n).skip(4) =~= tail);
        lemma_parse_sysex_packets(s2, input, n + 4, cable, rest.skip(3));
        lemma_feed_append(s.ids[cable as int], s.bufs[cable as int], rest.take(3), rest.skip(3));
        assert(rest.take(3) + rest.skip(3) =~= rest);
        let fed = feed_data(s.ids[cable as int], s.bufs[cable as int], rest);
        let done = parse_from(s2, input, n + 4);
        assert(done.0.ids =~= s.ids.update(cable as int, SysExIdStatus::Empty));
        assert(done.0.bufs =~= s.bufs.update(cable as int, Seq::<u8>::empty()));
        assert(done.0.started =~= s.started.update(cable as int, false));
    }
}

/// Round trip for System Exclusive messages: presenting the full packet
/// stream of a well formed message to a parser whose cable is idle yields
/// the complete message on that cable, consumes the whole stream, and
/// leaves the parser state as it was.
///
/// The stream must span at least two packets; a one-byte id with an empty
/// payload fits a lone terminator packet, which the parser rejects as
/// malformed because the cable was never started.
pub proof fn lemma_sysex_round_trip(s: ParserState, id: SystemExlusiveId, payload: Seq<u8>, cable: u8)
    requires
        state_wf(s),
        cable < 16,
        sysex_id_wf(id),
        forall|i: int| 0 <= i < payload.len() ==> payload[i] <= 0x7F,
        !(payload.len() == 0 && id is OneByte),
        s.ids[cable as int] == SysExIdStatus::Empty,
        s.bufs[cable as int] == Seq::<u8>::empty(),
        s.started[cable as int] == false,
    ensures
        ({
            let m = MidiMessageView::SystemExclusive(SystemExclusiveView { id: id, payload: payload });
            let bytes = wire_bytes(m, cable);
            let stepped = parse_spec(s, bytes);
            stepped.0 == s && stepped.1 == ParseStatusView::Complete(EventPacketView {
                cable_number: cable,
                midi_message: m,
            }) && stepped.2 == bytes.len()
        }),
{
    let frame = sysex_frame(id, payload);
    let m = MidiMessageView::SystemExclusive(SystemExclusiveView { id: id, payload: payload });
    let bytes = wire_bytes(m, cable);
    let head = (cable & 0x0F) << 4;
    let id_bytes: Seq<u8> = match id {
        SystemExlusiveId::OneByte(a) => seq![a],
        SystemExlusiveId::TwoByte(a, b) => seq![0u8, a, b],
    };
    assert(frame =~= seq![0xF0u8] + id_bytes + payload + seq![0xF7u8]);
    assert(frame.len() >= 4);

    // The first packet continues (code index 0x4) and starts the cable.
    lemma_packet_byte0(cable, 0x4);
    let tail = sysex_packet_bytes(cable, frame.skip(3));
    assert(bytes =~= seq![head | 0x4, frame[0], frame[1], frame[2]] + tail);
    assert(frame.skip(3).len() >= 1);
    assert(tail.len() >= 4);
    assert(bytes.len() >= 8);
    assert(bytes[0] == head | 0x4);
    assert(bytes[1] == frame[0] && bytes[2] == frame[1] && bytes[3] == frame[2]);
    assert(seq![bytes[1], bytes[2], bytes[3]] =~= frame.take(3));
    let stepped = sysex_step(s, cable as int, frame.take(3), false);
    let s2 = stepped.0;
    assert(state_wf(s2));
    assert(bytes.skip(4) =~= tail);
    lemma_parse_sysex_packets(s2, bytes, 4, cable, frame.skip(3));
    lemma_feed_append(s.ids[cable as int], s.bufs[cable as int], frame.take(3), frame.skip(3));
    assert(frame.take(3) + frame.skip(3) =~= frame);

    // Feeding the whole frame from an idle cable captures the id and the
    // payload: the framing bytes are filtered out, the id bytes drive the
    // id state machine to completion, the payload bytes accumulate.
    lemma_feed_append(SysExIdStatus::Empty, Seq::<u8>::empty(), seq![0xF0u8], id_bytes + payload + seq![0xF7u8]);
    assert(frame =~= seq![0xF0u8] + (id_bytes + payload + seq![0xF7u8]));
    assert(seq![0xF0u8][0] == 0xF0u8);
    assert(seq![0xF0u8].skip(1) =~= Seq::<u8>::empty());
    assert(feed_data(SysExIdStatus::Empty, Seq::<u8>::empty(), Seq::<u8>::empty())
        == (SysExIdStatus::Empty, Seq::<u8>::empty()));
    assert(feed_data(SysExIdStatus::Empty, Seq::<u8>::empty(), seq![0xF0u8])
        == (SysExIdStatus::Empty, Seq::<u8>::empty()));

    let fsm_done: SysExIdStatus = match id {
        SystemExlusiveId::OneByte(a) => SysExIdStatus::OneByte(a),
        SystemExlusiveId::TwoByte(a, b) => SysExIdStatus::TwoByte(a, b),
    };
    assert(id_bytes + payload + seq![0xF7u8] =~= id_bytes + (payload + seq![0xF7u8]));
    lemma_feed_append(SysExIdStatus::Empty, Seq::<u8>::empty(), id_bytes, payload + seq![0xF7u8]);
    match id {
        SystemExlusiveId::OneByte(a) => {
            assert(seq![a][0] == a);
            assert(seq![a].skip(1) =~= Seq::<u8>::empty());
            assert(feed_data(SysExIdStatus::Empty, Seq::<u8>::empty(), seq![a])
                == feed_data(SysExIdStatus::OneByte(a), Seq::<u8>::empty(), seq![a].skip(1)));
            assert(feed_data(SysExIdStatus::OneByte(a), Seq::<u8>::empty(), Seq::<u8>::empty())
                == (fsm_done, Seq::<u8>::empty()));
            assert(feed_data(SysExIdStatus::Empty, Seq::<u8>::empty(), id_bytes)
                == (fsm_done, Seq::<u8>::empty()));
        },
        SystemExlusiveId::TwoByte(a, b) => {
            assert(seq![0u8, a, b][0] == 0u8);
            assert(seq![0u8, a, b].skip(1) =~= seq![a, b]);
            assert(seq![a, b][0] == a);
            assert(seq![a, b].skip(1) =~= seq![b]);
            assert(seq![b][0] == b);
            assert(seq![b].skip(1) =~= Seq::<u8>::empty());
            assert(feed_data(SysExIdStatus::Empty, Seq::<u8>::empty(), seq![0u8, a, b])
                == feed_data(SysExIdStatus::NeedTwoMore, Seq::<u8>::empty(), seq![a, b]));
            assert(feed_data(SysExIdStatus::NeedTwoMore, Seq::<u8>::empty(), seq![a, b])
                == feed_data(SysExIdStatus::NeedOneMore(a), Seq::<u8>::empty(), seq![b]));
            assert(feed_data(SysExIdStatus::NeedOneMore(a), Seq::<u8>::empty(), seq![b])
                == feed_data(SysExIdStatus::TwoByte(a, b), Seq::<u8>::empty(), Seq::<u8>::empty()));
            assert(feed_data(SysExIdStatus::TwoByte(a, b), Seq::<u8>::empty(), Seq::<u8>::empty())
                == (fsm_done, Seq::<u8>::empty()));
            assert(feed_data(SysExIdStatus::Empty, Seq::<u8>::empty(), id_bytes)
                == (fsm_done, Seq::<u8>::empty()));
        },
    }
    lemma_feed_append(fsm_done, Seq::<u8>::empty(), payload, seq![0xF7u8]);
    lemma_feed_complete(fsm_done, Seq::<u8>::empty(), payload);
    assert(Seq::<u8>::empty() + payload =~= payload);
    assert(seq![0xF7u8][0] == 0xF7u8);
    assert(seq![0xF7u8].skip(1) =~= Seq::<u8>::empty());
    assert(feed_data(fsm_done, payload, Seq::<u8>::empty()) == (fsm_done, payload));
    assert(feed_data(fsm_done, payload, seq![0xF7u8]) == (fsm_done, payload));
    assert(feed_data(SysExIdStatus::Empty, Seq::<u8>::empty(), frame) == (fsm_done, payload));
    assert(id_of(fsm_done) == id);

    // The final state equals the initial one: the terminator resets the
    // cable to the idle values it already had.
    let done = parse_from(s, bytes, 0);
    assert(done.0.ids =~= s.ids);
    assert(done.0.bufs =~= s.bufs);
    assert(done.0.started =~= s.started);
}

// ===========================================================================
// System Exclusive assembly is per-cable
// ===========================================================================

/// System Exclusive assembly: a started cable presented with the packets
/// that carry the rest of its frame completes exactly once, consuming the
/// whole stream.  The message carries the id its state machine captured
/// and the payload bytes concatenated in order onto whatever the cable had
/// already gathered; the cable then resets, other cables untouched.
pub proof fn lemma_sysex_assembly(s: ParserState, cable: u8, rest: Seq<u8>)
    requires
        state_wf(s),
        cable < 16,
        rest.len() >= 1,
        s.started[cable as int] == true,
    ensures
        ({
            let fed = feed_data(s.ids[cable as int], s.bufs[cable as int], rest);
            let stepped = parse_from(s, sysex_packet_bytes(cable, rest), 0);
            stepped.0 == ParserState {
                ids: s.ids.update(cable as int, SysExIdStatus::Empty),
                bufs: s.bufs.update(cable as int, Seq::<u8>::empty()),
                started: s.started.update(cable as int, false),
            }
            && stepped.1 == ParseStatusView::Complete(EventPacketView {
                cable_number: cable,
                midi_message: MidiMessageView::SystemExclusive(SystemExclusiveView {
                    id: id_of(fed.0),
                    payload: fed.1,
                }),
            })
            && stepped.2 == sysex_packet_bytes(cable, rest).len()
        }),
{
    let stream = sysex_packet_bytes(cable, rest);
    assert(stream.skip(0) =~= stream);
    lemma_parse_sysex_packets(s, stream, 0, cable, rest);
}

/// A System Exclusive packet touches only its own cable's state.
pub proof fn lemma_sysex_step_isolated(s: ParserState, cable: int, data: Seq<u8>, terminate: bool)
    requires
        state_wf(s),
        0 <= cable < 16,
    ensures
        forall|j: int| #![trigger s.ids[j]] 0 <= j < 16 && j != cable ==> {
            let s2 = sysex_step(s, cable, data, terminate).0;
            s2.ids[j] == s.ids[j] && s2.bufs[j] == s.bufs[j] && s2.started[j] == s.started[j]
        },
{
}

/// On a started cable whose id is already complete, a continuation packet
/// appends its seven-bit data bytes to the payload, in order, and changes
/// nothing else about the cable.
pub proof fn lemma_sysex_payload_accumulates(s: ParserState, cable: int, data: Seq<u8>)
    requires
        state_wf(s),
        0 <= cable < 16,
        !fsm_accepts(s.ids[cable]),
        forall|i: int| 0 <= i < data.len() ==> data[i] <= 0x7F,
    ensures
        ({
            let s2 = sysex_step(s, cable, data, false).0;
            s2.ids[cable] == s.ids[cable] && s2.bufs[cable] == s.bufs[cable] + data
                && s2.started[cable] == true
        }),
{
    lemma_feed_complete(s.ids[cable], s.bufs[cable], data);
}

} // verus!
