//! What holds of the framing whatever the stream: that the pieces in which
//! the bytes arrive do not matter, and that what the encoder lays out the
//! decoder takes apart again.

use vstd::prelude::*;

use crate::codec::decode_run;
use crate::codec::decode_step;
use crate::codec::DecodeState;
use crate::codec::Run;
use crate::codec::Step;
use crate::error::DecodeError;
use crate::error::FramingError;
use crate::error::PayloadDecodeError;
use crate::packets::c2s::frame;
use crate::packets::layout::incoming_layout;
use crate::packets::layout::incoming_valid;
use crate::packets::layout::lemma_incoming_round_trip;
use crate::packets::c2s::ping_payload;
use crate::packets::c2s::BNET_HEADER;
use crate::packets::c2s::MAX_PAYLOAD_LENGTH;
use crate::packets::s2c::has_layout;
use crate::packets::s2c::parse_header;
use crate::packets::s2c::parse_payload;
use crate::packets::s2c::Ping;
use crate::packets::BNetIncomingPacketView;
use crate::packets::BNetOutgoingPacket;
use crate::packets::PacketID;
use crate::wire::lemma_u16_le_round_trip;
use crate::wire::lemma_u32_le_round_trip;
use crate::wire::u16_from_le;
use crate::wire::u16_le;

verus! {

/// The codes and the kinds stand for each other: every kind is found again
/// from its wire code, and every code that stands for a known kind is the
/// code of that kind.
pub proof fn lemma_code_round_trip(id: PacketID, code: u8)
    ensures
        PacketID::spec_from_id(id.spec_code()) == id,
        PacketID::spec_from_id(code) != PacketID::UNKNOWN ==> PacketID::spec_from_id(
            code,
        ).spec_code() == code,
{
}

/// The header of every packet that is laid out: the marker, the code of
/// the kind, and a length field that equals four plus the number of bytes
/// in the payload, which is the length of the whole packet.
pub proof fn lemma_header_invariant(id: PacketID, payload: Seq<u8>)
    requires
        payload.len() <= MAX_PAYLOAD_LENGTH,
    ensures
        frame(id, payload).len() == 4 + payload.len(),
        frame(id, payload)[0] == BNET_HEADER,
        frame(id, payload)[1] == id.spec_code(),
        u16_from_le(frame(id, payload).skip(2)) == 4 + payload.len(),
        frame(id, payload).subrange(4, 4 + payload.len() as int) == payload,
{
    let total = (4 + payload.len()) as u16;
    lemma_u16_le_round_trip(total);
    let f = frame(id, payload);
    assert(f.skip(2)[0] == u16_le(total)[0]);
    assert(f.skip(2)[1] == u16_le(total)[1]);
    assert(f.subrange(4, 4 + payload.len() as int) =~= payload);
}

/// The header of a packet that was laid out reads back as the kind that
/// its code stands for and the length of the whole packet, whatever bytes
/// follow the packet.
pub proof fn lemma_header_round_trip(id: PacketID, payload: Seq<u8>, tail: Seq<u8>)
    requires
        payload.len() <= MAX_PAYLOAD_LENGTH,
    ensures
        parse_header(frame(id, payload) + tail) == Ok::<(PacketID, usize), FramingError>(
            (id, (4 + payload.len()) as usize),
        ),
{
    lemma_header_invariant(id, payload);
    lemma_code_round_trip(id, 0);
    let f = frame(id, payload);
    let s = f + tail;
    assert(s[0] == f[0]);
    assert(s[1] == f[1]);
    assert(s.skip(2)[0] == f.skip(2)[0]);
    assert(s.skip(2)[1] == f.skip(2)[1]);
}

/// A packet that was laid out is taken off the front of the stream in one
/// call: the decoder is left at the start of what follows, and the packet
/// is what the layout of its kind reads in the payload.
pub proof fn lemma_decode_frame(id: PacketID, payload: Seq<u8>, tail: Seq<u8>)
    requires
        payload.len() <= MAX_PAYLOAD_LENGTH,
    ensures
        decode_step(DecodeState::Header, frame(id, payload) + tail) == (Step {
            state: DecodeState::Header,
            rest: tail,
            outcome: match parse_payload(id, payload) {
                Ok(packet) => Ok(Some(packet)),
                Err(e) => Err(DecodeError::Payload(e)),
            },
        }),
{
    lemma_header_invariant(id, payload);
    lemma_header_round_trip(id, payload, tail);
    let f = frame(id, payload);
    let s = f + tail;
    let length = (4 + payload.len()) as usize;
    assert(s.skip(length as int) =~= tail);
    assert(s.subrange(4, length as int) =~= payload);
}

/// A packet that was laid out, alone in the stream, is taken apart again
/// by the layout that the server's packets of the same kind have: it
/// decodes to the one packet that this layout reads in its payload, or
/// fails as that reading fails, and nothing is left in the buffer.
pub proof fn lemma_encode_decode(packet: BNetOutgoingPacket)
    requires
        packet.wf(),
    ensures
        decode_run(
            DecodeState::Header,
            frame(packet.spec_id(), packet.payload()),
            Seq::empty(),
        ) == (match parse_payload(packet.spec_id(), packet.payload()) {
            Ok(decoded) => Run {
                packets: seq![decoded],
                state: DecodeState::Header,
                rest: Seq::empty(),
                error: None,
            },
            Err(e) => Run {
                packets: Seq::empty(),
                state: DecodeState::Header,
                rest: Seq::empty(),
                error: Some(DecodeError::Payload(e)),
            },
        }),
{
    let id = packet.spec_id();
    let payload = packet.payload();
    lemma_decode_frame(id, payload, Seq::empty());
    let f = frame(id, payload);
    assert(f + Seq::<u8>::empty() =~= f);
    if let Ok(decoded) = parse_payload(id, payload) {
        let found = Seq::<BNetIncomingPacketView>::empty().push(decoded);
        assert(found =~= seq![decoded]);
        assert(decode_run(DecodeState::Header, Seq::empty(), found) == (Run {
            packets: found,
            state: DecodeState::Header,
            rest: Seq::empty(),
            error: None,
        }));
    }
}

/// The kinds that are laid out alike in both directions come back as they
/// were sent: a ping decodes to a ping with the same value, and the packet
/// without a payload to itself.
pub proof fn lemma_round_trip(value: u32)
    ensures
        parse_payload(PacketID::PING, (BNetOutgoingPacket::Ping { value }).payload()) == Ok::<
            BNetIncomingPacketView,
            PayloadDecodeError,
        >(BNetIncomingPacketView::Ping(Ping { value })),
        parse_payload(PacketID::NULL, BNetOutgoingPacket::Null.payload()) == Ok::<
            BNetIncomingPacketView,
            PayloadDecodeError,
        >(BNetIncomingPacketView::Null),
{
    lemma_u32_le_round_trip(value);
    assert(ping_payload(value).skip(4) =~= Seq::<u8>::empty());
}

/// A packet of a kind that the server does not send comes back as its
/// kind and its payload, byte for byte.
pub proof fn lemma_round_trip_raw(packet: BNetOutgoingPacket)
    requires
        !has_layout(packet.spec_id()),
    ensures
        parse_payload(packet.spec_id(), packet.payload()) == Ok::<
            BNetIncomingPacketView,
            PayloadDecodeError,
        >(BNetIncomingPacketView::Raw { id: packet.spec_id(), payload: packet.payload() }),
{
}

/// What the server lays out, the decoder gives back: a packet laid out by
/// the layout of its kind and framed, with any bytes behind it, is the
/// next packet that the decoder takes out, and the bytes behind it are
/// what it leaves.
pub proof fn lemma_incoming_decode(p: BNetIncomingPacketView, tail: Seq<u8>)
    requires
        incoming_valid(p),
        incoming_layout(p).len() <= MAX_PAYLOAD_LENGTH,
    ensures
        decode_step(DecodeState::Header, frame(p.id(), incoming_layout(p)) + tail) == (Step {
            state: DecodeState::Header,
            rest: tail,
            outcome: Ok(Some(p)),
        }),
{
    lemma_incoming_round_trip(p);
    lemma_decode_frame(p.id(), incoming_layout(p), tail);
}

/// A decoder whose state says what the buffered bytes say does what a
/// decoder at the start of a packet does on the same bytes: the state holds
/// nothing that the bytes do not.
pub proof fn lemma_state_follows_bytes(state: DecodeState, buffered: Seq<u8>)
    requires
        state.coherent(buffered),
    ensures
        decode_step(state, buffered) == decode_step(DecodeState::Header, buffered),
        decode_step(state, buffered).state.wf(),
        decode_step(state, buffered).state.coherent(decode_step(state, buffered).rest),
{
}

/// A call that ends with a packet or with a failure ends the same way
/// however many more bytes have arrived, and leaves those bytes in the
/// buffer. A call that waits leaves a state that still says what the
/// bytes say once more have arrived.
pub proof fn lemma_step_stable(state: DecodeState, buffered: Seq<u8>, more: Seq<u8>)
    requires
        state.coherent(buffered),
    ensures
        !(decode_step(state, buffered).outcome matches Ok(None)) ==> decode_step(
            state,
            buffered + more,
        ) == (Step { rest: decode_step(state, buffered).rest + more, ..decode_step(state, buffered) }),
        decode_step(state, buffered).outcome matches Ok(None) ==> decode_step(
            state,
            buffered,
        ).state.coherent(buffered + more) && decode_step(state, buffered).rest == buffered,
        state.coherent(buffered + more),
{
    let s = buffered;
    let t = buffered + more;
    if s.len() >= 4 {
        assert(t[0] == s[0]);
        assert(t[1] == s[1]);
        assert(t.skip(2)[0] == s.skip(2)[0]);
        assert(t.skip(2)[1] == s.skip(2)[1]);
        assert(parse_header(t) == parse_header(s));
        if let Ok((id, length)) = parse_header(s) {
            if s.len() >= length {
                assert(t.subrange(4, length as int) =~= s.subrange(4, length as int));
                assert(t.skip(length as int) =~= s.skip(length as int) + more);
            }
        }
    }
}

/// The packets taken out before a run stand in front of those that the run
/// takes out, and change nothing else about it.
pub proof fn lemma_run_appends(
    state: DecodeState,
    buffered: Seq<u8>,
    found: Seq<BNetIncomingPacketView>,
)
    ensures
        decode_run(state, buffered, found) == (Run {
            packets: found + decode_run(state, buffered, Seq::empty()).packets,
            ..decode_run(state, buffered, Seq::empty())
        }),
    decreases buffered.len(),
{
    let step = decode_step(state, buffered);
    let none = Seq::<BNetIncomingPacketView>::empty();
    match step.outcome {
        Ok(Some(packet)) => {
            if step.rest.len() < buffered.len() {
                lemma_run_appends(step.state, step.rest, found.push(packet));
                lemma_run_appends(step.state, step.rest, none.push(packet));
                let tail = decode_run(step.state, step.rest, none).packets;
                assert(found.push(packet) + tail =~= found + (none.push(packet) + tail));
            } else {
                assert(found.push(packet) =~= found + none.push(packet));
            }
        },
        _ => {
            assert(found =~= found + none);
        },
    }
}

/// The pieces in which a stream arrives do not matter. Decoding what is
/// buffered, and then, after more bytes have arrived, what is buffered
/// then, gives the packets, the state, the buffer and the failure that
/// decoding gives when all the bytes are there from the start. Where the
/// first decoding fails, the second fails alike on the same packet.
pub proof fn lemma_fragmentation(
    state: DecodeState,
    buffered: Seq<u8>,
    more: Seq<u8>,
    found: Seq<BNetIncomingPacketView>,
)
    requires
        state.coherent(buffered),
    ensures
        ({
            let first = decode_run(state, buffered, found);
            let whole = decode_run(state, buffered + more, found);
            &&& first.state.coherent(first.rest)
            &&& first.state.coherent(first.rest + more)
            &&& first.error is None ==> decode_run(first.state, first.rest + more, first.packets)
                == whole
            &&& first.error is Some ==> whole == (Run { rest: first.rest + more, ..first })
        }),
    decreases buffered.len(),
{
    let step = decode_step(state, buffered);
    let grown = buffered + more;
    lemma_step_stable(state, buffered, more);
    lemma_state_follows_bytes(state, buffered);
    match step.outcome {
        Ok(None) => {
            lemma_state_follows_bytes(step.state, grown);
            lemma_state_follows_bytes(state, grown);
        },
        Err(e) => {
            lemma_step_stable(step.state, step.rest, more);
        },
        Ok(Some(packet)) => {
            assert(step.rest.len() < buffered.len());
            assert((step.rest + more).len() < grown.len());
            lemma_fragmentation(step.state, step.rest, more, found.push(packet));
        },
    }
}

/// Packets that arrive together decode as they do one after the other.
/// Where `first` holds whole packets and nothing else, decoding it with
/// `second` behind it gives the packets of `first`, then what decoding
/// `second` alone gives.
pub proof fn lemma_concatenation(first: Seq<u8>, second: Seq<u8>)
    requires
        decode_run(DecodeState::Header, first, Seq::empty()).error is None,
        decode_run(DecodeState::Header, first, Seq::empty()).rest.len() == 0,
    ensures
        decode_run(DecodeState::Header, first + second, Seq::empty()) == (Run {
            packets: decode_run(DecodeState::Header, first, Seq::empty()).packets + decode_run(
                DecodeState::Header,
                second,
                Seq::empty(),
            ).packets,
            ..decode_run(DecodeState::Header, second, Seq::empty())
        }),
{
    let alone = decode_run(DecodeState::Header, first, Seq::empty());
    lemma_fragmentation(DecodeState::Header, first, second, Seq::empty());
    assert(alone.rest + second =~= second);
    assert(alone.state == DecodeState::Header);
    lemma_run_appends(DecodeState::Header, second, alone.packets);
}

} // verus!
