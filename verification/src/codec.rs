//! The framing state machine: from a stream of bytes that arrives in pieces
//! of any size to whole packets, and from packets to bytes for the stream.

use bytes::BytesMut;
use vstd::prelude::*;

use crate::buffer::buf_advance;
use crate::buffer::buf_bytes;
use crate::buffer::buf_extend_from_slice;
use crate::buffer::buf_len;
use crate::buffer::buf_split_to;
use crate::buffer::data_as_slice;
use crate::error::DecodeError;
use crate::error::EncodeError;
use crate::packets::c2s::frame;
use crate::packets::s2c::parse_header;
use crate::packets::s2c::parse_payload;
use crate::packets::s2c::PacketReader;
use crate::packets::BNetIncomingPacket;
use crate::packets::BNetIncomingPacketView;
use crate::packets::BNetOutgoingPacket;
use crate::packets::PacketID;

verus! {

/// Where the decoder stands in the stream.
#[derive(Clone, Copy, Debug, PartialEq, Eq, Structural)]
pub enum DecodeState {
    /// At the start of a packet, waiting for the four bytes of its header.
    Header,
    /// Past the reading of a header, which stays in the buffer: waiting for
    /// the whole packet of the given kind and total length.
    Body(PacketID, usize),
}

impl DecodeState {
    /// A packet that is waited for is at least as long as its header.
    pub open spec fn wf(self) -> bool {
        match self {
            DecodeState::Header => true,
            DecodeState::Body(_, length) => length >= 4,
        }
    }

    /// The state says of the buffered bytes what their header says: a
    /// decoder past the header is waiting for the very packet that the
    /// buffer begins with.
    pub open spec fn coherent(self, buffered: Seq<u8>) -> bool {
        match self {
            DecodeState::Header => true,
            DecodeState::Body(id, length) => buffered.len() >= 4 && parse_header(buffered) == Ok::<
                (PacketID, usize),
                crate::error::FramingError,
            >((id, length)),
        }
    }
}

/// What one call of the decoder comes to.
pub struct Step {
    /// The state in which the decoder is left.
    pub state: DecodeState,
    /// The bytes that stay in the buffer.
    pub rest: Seq<u8>,
    /// A packet, the sign that more bytes are needed, or the failure.
    pub outcome: Result<Option<BNetIncomingPacketView>, DecodeError>,
}

/// One call of the decoder past the header, waiting for a packet of kind
/// `id` and `length` bytes. With fewer bytes buffered it waits on. With
/// enough, the packet leaves the buffer, header and all, and its payload is
/// read by the layout of its kind.
pub open spec fn body_step(id: PacketID, length: usize, buffered: Seq<u8>) -> Step {
    if buffered.len() < length {
        Step { state: DecodeState::Body(id, length), rest: buffered, outcome: Ok(None) }
    } else {
        Step {
            state: DecodeState::Header,
            rest: buffered.skip(length as int),
            outcome: match parse_payload(id, buffered.subrange(4, length as int)) {
                Ok(packet) => Ok(Some(packet)),
                Err(e) => Err(DecodeError::Payload(e)),
            },
        }
    }
}

/// One call of the decoder. At a header with fewer than four bytes buffered
/// it waits; with four, it reads the header, which either fails, leaving
/// everything as it was, or leads on to the body.
pub open spec fn decode_step(state: DecodeState, buffered: Seq<u8>) -> Step {
    match state {
        DecodeState::Header => if buffered.len() < 4 {
            Step { state: DecodeState::Header, rest: buffered, outcome: Ok(None) }
        } else {
            match parse_header(buffered) {
                Err(e) => Step {
                    state: DecodeState::Header,
                    rest: buffered,
                    outcome: Err(DecodeError::Framing(e)),
                },
                Ok((id, length)) => body_step(id, length, buffered),
            }
        },
        DecodeState::Body(id, length) => body_step(id, length, buffered),
    }
}

/// The outcome of a call, `r`, is what the step says it should be.
pub open spec fn outcome_agrees(
    r: Result<Option<BNetIncomingPacket>, DecodeError>,
    expected: Result<Option<BNetIncomingPacketView>, DecodeError>,
) -> bool {
    match expected {
        Ok(Some(packet)) => r matches Ok(Some(p)) && p@ == packet,
        Ok(None) => r matches Ok(None),
        Err(e) => r matches Err(x) && x == e,
    }
}

/// What the decoder comes to when it is called again and again on the
/// same buffered bytes, until it waits for more or fails.
pub struct Run {
    /// The packets taken out, in the order of the stream.
    pub packets: Seq<BNetIncomingPacketView>,
    /// The state in which the decoder is left.
    pub state: DecodeState,
    /// The bytes that stay in the buffer.
    pub rest: Seq<u8>,
    /// The failure that ended the run, if one did.
    pub error: Option<DecodeError>,
}

/// The decoder called again and again from `state` on `buffered`, with the
/// packets in `found` taken out before. Each packet that a call gives is
/// added to them, and the run goes on with what the call left; it ends with
/// the first call that waits for more bytes or fails.
pub open spec fn decode_run(
    state: DecodeState,
    buffered: Seq<u8>,
    found: Seq<BNetIncomingPacketView>,
) -> Run
    decreases buffered.len(),
{
    let step = decode_step(state, buffered);
    match step.outcome {
        Ok(None) => Run { packets: found, state: step.state, rest: step.rest, error: None },
        Err(e) => Run { packets: found, state: step.state, rest: step.rest, error: Some(e) },
        Ok(Some(packet)) => if step.rest.len() < buffered.len() {
            decode_run(step.state, step.rest, found.push(packet))
        } else {
            Run { packets: found.push(packet), state: step.state, rest: step.rest, error: None }
        },
    }
}

/// The packets of a list, each as plain values.
pub open spec fn packets_view(packets: Seq<BNetIncomingPacket>) -> Seq<BNetIncomingPacketView> {
    Seq::new(packets.len(), |i: int| packets[i]@)
}

/// The codec of one connection. It holds the decoder's place in the stream
/// and is bound to that stream alone.
pub struct BNetPCodec {
    state: DecodeState,
}

impl PacketReader for BNetPCodec {
}

impl BNetPCodec {
    #[verifier::type_invariant]
    spec fn inv(self) -> bool {
        self.state.wf()
    }

    /// The decoder's place in the stream.
    pub closed spec fn state(self) -> DecodeState {
        self.state
    }

    /// The codec of a new connection, at the start of its first packet.
    pub fn new() -> (codec: BNetPCodec)
        ensures
            codec.state() == DecodeState::Header,
    {
        BNetPCodec { state: DecodeState::Header }
    }

    /// The decoder's place in the stream.
    pub fn decode_state(&self) -> (state: DecodeState)
        ensures
            state == self.state(),
            state.wf(),
    {
        proof {
            use_type_invariant(self);
        }
        self.state
    }

    /// Writes a packet to the end of the outgoing stream.
    pub fn encode(&mut self, item: BNetOutgoingPacket, dst: &mut BytesMut)
        requires
            item.wf(),
            buf_bytes(*old(dst)).len() + 4 + item.payload().len() <= isize::MAX,
        ensures
            buf_bytes(*final(dst)) == buf_bytes(*old(dst)) + frame(item.spec_id(), item.payload()),
            final(self).state() == old(self).state(),
    {
        let data = item.encode();
        buf_extend_from_slice(dst, data_as_slice(&data));
    }

    /// Writes a packet to the end of the outgoing stream, where it fits the
    /// length field of the header and the buffer can take it; otherwise
    /// says which of the two does not hold, and writes nothing.
    pub fn try_encode(&mut self, item: BNetOutgoingPacket, dst: &mut BytesMut) -> (r: Result<
        (),
        EncodeError,
    >)
        ensures
            final(self).state() == old(self).state(),
            match r {
                Ok(_) => buf_bytes(*final(dst)) == buf_bytes(*old(dst)) + frame(
                    item.spec_id(),
                    item.payload(),
                ),
                Err(_) => buf_bytes(*final(dst)) == buf_bytes(*old(dst)),
            },
            r is Ok <==> item.wf() && buf_bytes(*old(dst)).len() + 4 + item.payload().len()
                <= isize::MAX,
            r == Err::<(), EncodeError>(EncodeError::TooLong) <==> !item.wf(),
    {
        match item.payload_len() {
            None => Err(EncodeError::TooLong),
            Some(payload) => {
                let held: usize = buf_len(dst);
                let most: usize = isize::MAX as usize;
                if held > most || payload + 4 > most - held {
                    return Err(EncodeError::BufferFull);
                }
                self.encode(item, dst);
                Ok(())
            },
        }
    }

    /// Takes every whole packet out of the buffered bytes of the stream, in
    /// the order in which they came. Together with them comes the failure
    /// that ended the decoding, if one did; the packets before it stand.
    pub fn decode_all(&mut self, src: &mut BytesMut) -> (r: (
        Vec<BNetIncomingPacket>,
        Option<DecodeError>,
    ))
        ensures
            packets_view(r.0@) == decode_run(
                old(self).state(),
                buf_bytes(*old(src)),
                Seq::empty(),
            ).packets,
            r.1 == decode_run(old(self).state(), buf_bytes(*old(src)), Seq::empty()).error,
            final(self).state() == decode_run(
                old(self).state(),
                buf_bytes(*old(src)),
                Seq::empty(),
            ).state,
            buf_bytes(*final(src)) == decode_run(
                old(self).state(),
                buf_bytes(*old(src)),
                Seq::empty(),
            ).rest,
    {
        let mut packets: Vec<BNetIncomingPacket> = Vec::new();
        let ghost whole = decode_run(old(self).state(), buf_bytes(*old(src)), Seq::empty());
        proof {
            assert(packets_view(packets@) =~= Seq::empty());
        }
        loop
            invariant
                whole == decode_run(self.state(), buf_bytes(*src), packets_view(packets@)),
                whole == decode_run(old(self).state(), buf_bytes(*old(src)), Seq::empty()),
            decreases buf_bytes(*src).len(),
        {
            proof {
                use_type_invariant(&*self);
            }
            let ghost before = packets_view(packets@);
            let ghost buffered = buf_bytes(*src);
            let ghost state = self.state();
            match self.decode(src) {
                Ok(None) => {
                    return (packets, None);
                },
                Err(e) => {
                    return (packets, Some(e));
                },
                Ok(Some(packet)) => {
                    packets.push(packet);
                    proof {
                        assert(packets_view(packets@) =~= before.push(packet@));
                        lemma_packet_shortens(state, buffered);
                    }
                },
            }
        }
    }

    /// Takes the next packet out of the buffered bytes of the stream, if a
    /// whole one is there. What is not yet a whole packet stays in `src`
    /// for the next call, after more bytes have been added at its end.
    pub fn decode(&mut self, src: &mut BytesMut) -> (r: Result<
        Option<BNetIncomingPacket>,
        DecodeError,
    >)
        ensures
            final(self).state() == decode_step(old(self).state(), buf_bytes(*old(src))).state,
            buf_bytes(*final(src)) == decode_step(old(self).state(), buf_bytes(*old(src))).rest,
            outcome_agrees(r, decode_step(old(self).state(), buf_bytes(*old(src))).outcome),
    {
        proof {
            use_type_invariant(&*self);
        }
        if let DecodeState::Header = self.state {
            if buf_len(src) < 4 {
                return Ok(None);
            }
            match self.read_header(src) {
                Err(e) => {
                    return Err(DecodeError::Framing(e));
                },
                Ok((id, length)) => {
                    self.state = DecodeState::Body(id, length);
                },
            }
        }
        if let DecodeState::Body(id, length) = self.state {
            if buf_len(src) < length {
                return Ok(None);
            }
            let mut packet = buf_split_to(src, length);
            buf_advance(&mut packet, 4);
            assert(buf_bytes(packet) =~= buf_bytes(*old(src)).subrange(4, length as int));
            self.state = DecodeState::Header;
            match Self::read_payload(id, packet) {
                Ok(p) => Ok(Some(p)),
                Err(e) => Err(DecodeError::Payload(e)),
            }
        } else {
            Ok(None)
        }
    }
}

/// A call that gives a packet takes at least the four bytes of its header
/// out of the buffer.
pub proof fn lemma_packet_shortens(state: DecodeState, buffered: Seq<u8>)
    requires
        state.wf(),
        decode_step(state, buffered).outcome matches Ok(Some(_)),
    ensures
        decode_step(state, buffered).rest.len() + 4 <= buffered.len(),
        decode_step(state, buffered).state == DecodeState::Header,
{
}

} // verus!
