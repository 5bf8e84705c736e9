//! Framing decoder: turns an unstructured serial byte stream into discrete
//! typed packets (identifier + bounded payload).
//!
//! A frame on the wire is an identifier byte, a length byte `L` with
//! `0 <= L <= 32`, and `L` payload bytes. An unrecognized identifier byte is
//! silently discarded; a length byte over the capacity aborts the in-flight
//! frame and the decoder waits for the next identifier byte.

use vstd::prelude::*;

verus! {

/// Fixed capacity of a packet payload, in bytes.
pub const PACKET_BUFFER: usize = 32;

/// The packet kinds of the wire protocol. `Invalid` is used only inside the
/// decoder for an unrecognized identifier byte; a completed packet never
/// carries it.
#[derive(Copy, Clone, PartialEq, Eq, Structural, Debug)]
pub enum PacketId {
    Invalid,
    Reset,
    SetLedsPacket,
    NetStatePacket,
    ScreenDrawPacket,
}

/// Which packet kind a raw identifier byte denotes.
pub open spec fn kind_of_byte(x: u8) -> PacketId {
    if x == 0 {
        PacketId::Reset
    } else if x == 1 {
        PacketId::SetLedsPacket
    } else if x == 2 {
        PacketId::NetStatePacket
    } else if x == 3 {
        PacketId::ScreenDrawPacket
    } else {
        PacketId::Invalid
    }
}

impl From<u8> for PacketId {
    fn from(x: u8) -> (r: Self) {
        match x {
            0 => PacketId::Reset,
            1 => PacketId::SetLedsPacket,
            2 => PacketId::NetStatePacket,
            3 => PacketId::ScreenDrawPacket,
            _ => PacketId::Invalid,
        }
    }
}

impl vstd::std_specs::convert::FromSpecImpl<u8> for PacketId {
    open spec fn obeys_from_spec() -> bool {
        true
    }

    open spec fn from_spec(x: u8) -> PacketId {
        kind_of_byte(x)
    }
}

/// A completed frame: one of the four concrete packet kinds plus an optional
/// payload of at most `PACKET_BUFFER` bytes. A zero-length frame carries no
/// payload at all.
pub struct Packet {
    pub id: PacketId,
    pub payload: Option<Vec<u8>>,
}

impl Packet {
    /// The payload bytes; empty when no payload is present.
    pub open spec fn payload_bytes(&self) -> Seq<u8> {
        match self.payload {
            Option::None => Seq::empty(),
            Option::Some(v) => v@,
        }
    }

    /// Every payload fits within the fixed capacity.
    pub open spec fn wf(&self) -> bool {
        self.payload_bytes().len() <= PACKET_BUFFER
    }
}

/// The abstract state of the framing state machine: waiting for an
/// identifier byte, waiting for a length byte, or accumulating payload bytes
/// toward a declared length.
#[verifier::ext_equal]
pub enum DecodePhase {
    AwaitingIdentifier,
    AwaitingLength { id: PacketId },
    AccumulatingPayload { id: PacketId, expected: nat, got: Seq<u8> },
}

/// The phases that the decoder can actually be in: a frame in flight carries
/// a concrete kind, and the accumulated bytes always stay strictly below the
/// declared length, which itself never exceeds the capacity.
pub open spec fn phase_wf(ph: DecodePhase) -> bool {
    match ph {
        DecodePhase::AwaitingIdentifier => true,
        DecodePhase::AwaitingLength { id } => id !is Invalid,
        DecodePhase::AccumulatingPayload { id, expected, got } => {
            &&& id !is Invalid
            &&& got.len() < expected <= PACKET_BUFFER
        },
    }
}

/// The transition table of the decoder, one input byte at a time.
pub open spec fn next_phase(ph: DecodePhase, byte: u8) -> DecodePhase {
    match ph {
        DecodePhase::AwaitingIdentifier => {
            if kind_of_byte(byte) is Invalid {
                DecodePhase::AwaitingIdentifier
            } else {
                DecodePhase::AwaitingLength { id: kind_of_byte(byte) }
            }
        },
        DecodePhase::AwaitingLength { id } => {
            if byte > PACKET_BUFFER as u8 {
                DecodePhase::AwaitingIdentifier
            } else if byte == 0 {
                DecodePhase::AwaitingIdentifier
            } else {
                DecodePhase::AccumulatingPayload { id, expected: byte as nat, got: Seq::empty() }
            }
        },
        DecodePhase::AccumulatingPayload { id, expected, got } => {
            if got.len() + 1 == expected {
                DecodePhase::AwaitingIdentifier
            } else {
                DecodePhase::AccumulatingPayload { id, expected, got: got.push(byte) }
            }
        },
    }
}

/// What the decoder emits on one input byte: the kind and the payload bytes
/// of a completed frame, or nothing.
pub open spec fn emission(ph: DecodePhase, byte: u8) -> Option<(PacketId, Seq<u8>)> {
    match ph {
        DecodePhase::AwaitingIdentifier => Option::None,
        DecodePhase::AwaitingLength { id } => {
            if byte == 0 {
                Option::Some((id, Seq::empty()))
            } else {
                Option::None
            }
        },
        DecodePhase::AccumulatingPayload { id, expected, got } => {
            if got.len() + 1 == expected {
                Option::Some((id, got.push(byte)))
            } else {
                Option::None
            }
        },
    }
}

/// The decoder never carries more bytes than the declared length admits, the
/// declared length never exceeds the capacity, and every emitted payload
/// fits within the capacity — for every reachable phase and every input
/// byte, adversarial length bytes included.
pub proof fn lemma_decoder_stays_bounded(ph: DecodePhase, byte: u8)
    requires
        phase_wf(ph),
    ensures
        phase_wf(next_phase(ph, byte)),
        emission(ph, byte) matches Option::Some(e) ==> e.1.len() <= PACKET_BUFFER,
{
}

/// A completed packet's payload length exactly equals the length its frame
/// declared: zero for a zero-length frame, and the declared byte count for
/// an accumulated one.
pub proof fn lemma_emitted_length_matches_declared(ph: DecodePhase, byte: u8)
    requires
        phase_wf(ph),
    ensures
        ph matches DecodePhase::AwaitingLength { .. } ==> (emission(ph, byte) matches Option::Some(
            e,
        ) ==> e.1.len() == 0),
        ph matches DecodePhase::AccumulatingPayload { expected, .. } ==> (emission(
            ph,
            byte,
        ) matches Option::Some(e) ==> e.1.len() == expected),
{
}

enum PacketBuilderStep {
    ID,
    SIZE,
    PAYLOAD,
}

/// The framing decoder. It owns a fixed payload buffer of `PACKET_BUFFER`
/// bytes; `update` advances the state machine by one byte and occasionally
/// hands out a completed packet.
pub struct PacketBuilder {
    step: PacketBuilderStep,
    id: PacketId,
    size: u8,
    index: usize,
    buffer: Vec<u8>,
}

impl PacketBuilder {
    /// The fixed buffer keeps its capacity, and the bookkeeping of a frame
    /// in flight stays within it.
    pub closed spec fn wf(&self) -> bool {
        &&& self.buffer@.len() == PACKET_BUFFER
        &&& match self.step {
            PacketBuilderStep::ID => true,
            PacketBuilderStep::SIZE => self.id !is Invalid,
            PacketBuilderStep::PAYLOAD => {
                &&& self.id !is Invalid
                &&& 0 < self.size <= PACKET_BUFFER
                &&& self.index < self.size as int
            },
        }
    }

    /// The abstract phase that the concrete fields stand for.
    pub closed spec fn phase(&self) -> DecodePhase {
        match self.step {
            PacketBuilderStep::ID => DecodePhase::AwaitingIdentifier,
            PacketBuilderStep::SIZE => DecodePhase::AwaitingLength { id: self.id },
            PacketBuilderStep::PAYLOAD => DecodePhase::AccumulatingPayload {
                id: self.id,
                expected: self.size as nat,
                got: self.buffer@.subrange(0, self.index as int),
            },
        }
    }

    /// A well-formed decoder is always in a phase that `phase_wf` admits.
    pub proof fn lemma_wf_phase(&self)
        requires
            self.wf(),
        ensures
            phase_wf(self.phase()),
    {
    }

    pub fn new() -> (r: Self)
        ensures
            r.wf(),
            r.phase() == DecodePhase::AwaitingIdentifier,
    {
        let mut buffer: Vec<u8> = Vec::new();
        while buffer.len() < PACKET_BUFFER
            invariant
                buffer@.len() <= PACKET_BUFFER,
            decreases PACKET_BUFFER - buffer.len(),
        {
            buffer.push(0);
        }
        PacketBuilder {
            step: PacketBuilderStep::ID,
            id: PacketId::Invalid,
            size: 0,
            index: 0,
            buffer,
        }
    }

    /// Advance the state machine by one input byte. The new phase and the
    /// emitted packet, if any, follow the transition table exactly.
    pub fn update(&mut self, byte: u8) -> (r: Option<Packet>)
        requires
            old(self).wf(),
        ensures
            final(self).wf(),
            final(self).phase() == next_phase(old(self).phase(), byte),
            r is Some <==> emission(old(self).phase(), byte) is Some,
            r matches Some(p) ==> {
                &&& emission(old(self).phase(), byte) matches Some(e)
                &&& p.id == e.0
                &&& p.payload_bytes() == e.1
                &&& p.id !is Invalid
                &&& p.wf()
            },
    {
        let mut ret: Option<Packet> = None;
        match self.step {
            PacketBuilderStep::ID => {
                let id = PacketId::from(byte);
                match id {
                    PacketId::SetLedsPacket
                    | PacketId::Reset
                    | PacketId::NetStatePacket
                    | PacketId::ScreenDrawPacket => {
                        self.id = id;
                        self.step = PacketBuilderStep::SIZE;
                    },
                    _ => {},
                }
            },
            PacketBuilderStep::SIZE => {
                if byte as usize > PACKET_BUFFER {
                    self.step = PacketBuilderStep::ID;
                } else if byte == 0 {
                    ret = Some(Packet { id: self.id, payload: None });
                    self.step = PacketBuilderStep::ID;
                } else {
                    self.size = byte;
                    self.index = 0;
                    self.step = PacketBuilderStep::PAYLOAD;
                }
            },
            PacketBuilderStep::PAYLOAD => {
                self.buffer[self.index] = byte;
                self.index += 1;
                if self.index >= self.size as usize {
                    let mut payload: Vec<u8> = Vec::new();
                    let mut i: usize = 0;
                    while i < self.size as usize
                        invariant
                            i <= self.size as int,
                            self.size as int <= self.buffer@.len(),
                            payload@ =~= self.buffer@.subrange(0, i as int),
                        decreases self.size as int - i,
                    {
                        let b = self.buffer[i];
                        payload.push(b);
                        i += 1;
                        proof {
                            assert(payload@ =~= self.buffer@.subrange(0, i as int));
                        }
                    }
                    ret = Some(Packet { id: self.id, payload: Some(payload) });
                    self.step = PacketBuilderStep::ID;
                }
                proof {
                    let got = old(self).buffer@.subrange(0, old(self).index as int);
                    assert(self.buffer@.subrange(0, old(self).index + 1) =~= got.push(byte));
                }
            },
        }
        proof {
            assert(self.phase() =~= next_phase(old(self).phase(), byte));
        }
        ret
    }
}

} // verus!
