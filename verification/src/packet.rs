//! The wire protocol between clock client and clock server.
//!
//! A message is a fixed-layout, 29-byte binary packet; fixed width keeps
//! the protocol's own latency jitter negligible and lets a reader reject
//! malformed input by length alone.  The layout, all multi-byte fields
//! little-endian, signed timestamps carried as their two's-complement bits:
//!
//! | bytes  | field                                      |
//! |--------|--------------------------------------------|
//! | 0      | packet kind: 1 = request, 2 = reply        |
//! | 1..5   | sequence number (u32)                      |
//! | 5..13  | client send time, microseconds (i64)       |
//! | 13..21 | server receive time, microseconds (i64)    |
//! | 21..29 | server send time, microseconds (i64)       |
//!
//! A request carries only the client send time; its two server fields are
//! zero.  A reply echoes the sequence number and the client send time and
//! fills in the two server timestamps.

use vstd::prelude::*;

use vstd::bytes::lemma_auto_spec_u32_to_from_le_bytes;
use vstd::bytes::lemma_auto_spec_u64_to_from_le_bytes;
use vstd::bytes::spec_u32_from_le_bytes;
use vstd::bytes::spec_u32_to_le_bytes;
use vstd::bytes::spec_u64_from_le_bytes;
use vstd::bytes::spec_u64_to_le_bytes;
use vstd::bytes::u32_from_le_bytes;
use vstd::bytes::u32_to_le_bytes;
use vstd::bytes::u64_from_le_bytes;
use vstd::bytes::u64_to_le_bytes;
use vstd::slice::slice_subrange;

verus! {

/// Bytes in a serialized packet.
pub const PACKET_LEN: usize = 29;

/// The two message directions.
#[derive(PartialEq, Eq, Structural, Clone, Copy, Debug)]
pub enum PacketKind {
    /// Client to server.
    Request,
    /// Server to client.
    Reply,
}

/// One protocol message: a sequence number and the three timestamps of the
/// two-way time-transfer exchange.
#[derive(PartialEq, Eq, Structural, Clone, Copy, Debug)]
pub struct ClockPacket {
    pub kind: PacketKind,
    pub sequence: u32,
    /// When the client sent the request (echoed in the reply).
    pub client_send: i64,
    /// When the server received the request; zero in a request.
    pub server_receive: i64,
    /// When the server sent the reply; zero in a request.
    pub server_send: i64,
}

/// The byte that encodes a packet kind.
pub open spec fn kind_byte(k: PacketKind) -> u8 {
    match k {
        PacketKind::Request => 1,
        PacketKind::Reply => 2,
    }
}

/// The serialized form of a packet.
pub open spec fn spec_serialize(p: ClockPacket) -> Seq<u8> {
    seq![kind_byte(p.kind)] + spec_u32_to_le_bytes(p.sequence) + spec_u64_to_le_bytes(
        p.client_send as u64,
    ) + spec_u64_to_le_bytes(p.server_receive as u64) + spec_u64_to_le_bytes(
        p.server_send as u64,
    )
}

/// The packet a byte sequence deserializes to: `None` unless the length is
/// exactly `PACKET_LEN` and the kind byte is recognized.
pub open spec fn spec_deserialize(s: Seq<u8>) -> Option<ClockPacket> {
    if s.len() == PACKET_LEN && (s[0] == 1u8 || s[0] == 2u8) {
        Some(
            ClockPacket {
                kind: if s[0] == 1u8 {
                    PacketKind::Request
                } else {
                    PacketKind::Reply
                },
                sequence: spec_u32_from_le_bytes(s.subrange(1, 5)),
                client_send: spec_u64_from_le_bytes(s.subrange(5, 13)) as i64,
                server_receive: spec_u64_from_le_bytes(s.subrange(13, 21)) as i64,
                server_send: spec_u64_from_le_bytes(s.subrange(21, 29)) as i64,
            },
        )
    } else {
        None
    }
}

impl ClockPacket {
    /// Build a request carrying the client's send time.
    pub fn new_request(sequence: u32, client_send: i64) -> (p: ClockPacket)
        ensures
            p == (ClockPacket {
                kind: PacketKind::Request,
                sequence,
                client_send,
                server_receive: 0i64,
                server_send: 0i64,
            }),
    {
        ClockPacket {
            kind: PacketKind::Request,
            sequence,
            client_send,
            server_receive: 0,
            server_send: 0,
        }
    }

    /// Build the reply to a request: the sequence number and client send
    /// time echoed, the two server timestamps stamped in.
    pub fn new_reply(request: &ClockPacket, server_receive: i64, server_send: i64) -> (p:
        ClockPacket)
        ensures
            p == (ClockPacket {
                kind: PacketKind::Reply,
                sequence: request.sequence,
                client_send: request.client_send,
                server_receive,
                server_send,
            }),
    {
        ClockPacket {
            kind: PacketKind::Reply,
            sequence: request.sequence,
            client_send: request.client_send,
            server_receive,
            server_send,
        }
    }

    /// Serialize to the fixed 29-byte layout.
    pub fn serialize(&self) -> (out: Vec<u8>)
        ensures
            out@ == spec_serialize(*self),
            out@.len() == PACKET_LEN,
    {
        proof {
            lemma_auto_spec_u32_to_from_le_bytes();
            lemma_auto_spec_u64_to_from_le_bytes();
        }
        let mut out: Vec<u8> = Vec::new();
        let b: u8 = match self.kind {
            PacketKind::Request => 1,
            PacketKind::Reply => 2,
        };
        out.push(b);
        let mut seq_bytes = u32_to_le_bytes(self.sequence);
        out.append(&mut seq_bytes);
        let mut t1_bytes = u64_to_le_bytes(self.client_send as u64);
        out.append(&mut t1_bytes);
        let mut t2_bytes = u64_to_le_bytes(self.server_receive as u64);
        out.append(&mut t2_bytes);
        let mut t3_bytes = u64_to_le_bytes(self.server_send as u64);
        out.append(&mut t3_bytes);
        proof {
            assert(out@ =~= spec_serialize(*self));
        }
        out
    }

    /// Deserialize a received byte string; `None` drops a malformed packet.
    pub fn deserialize(bytes: &[u8]) -> (r: Option<ClockPacket>)
        ensures
            r == spec_deserialize(bytes@),
    {
        if bytes.len() != PACKET_LEN {
            return None;
        }
        let b: u8 = *vstd::slice::slice_index_get(bytes, 0);
        let kind = if b == 1 {
            PacketKind::Request
        } else if b == 2 {
            PacketKind::Reply
        } else {
            return None;
        };
        let sequence = u32_from_le_bytes(slice_subrange(bytes, 1, 5));
        let client_send = u64_from_le_bytes(slice_subrange(bytes, 5, 13)) as i64;
        let server_receive = u64_from_le_bytes(slice_subrange(bytes, 13, 21)) as i64;
        let server_send = u64_from_le_bytes(slice_subrange(bytes, 21, 29)) as i64;
        Some(ClockPacket { kind, sequence, client_send, server_receive, server_send })
    }
}

/// A signed timestamp survives the trip through its two's-complement bits.
pub proof fn lemma_i64_bits_round_trip(x: i64)
    ensures
        (x as u64) as i64 == x,
{
    assert((x as u64) as i64 == x) by (bit_vector);
}

/// Serializing and deserializing a packet reproduces the original sequence
/// number and timestamps exactly.
pub proof fn lemma_packet_round_trip(p: ClockPacket)
    ensures
        spec_deserialize(spec_serialize(p)) == Some(p),
{
    lemma_auto_spec_u32_to_from_le_bytes();
    lemma_auto_spec_u64_to_from_le_bytes();
    lemma_i64_bits_round_trip(p.client_send);
    lemma_i64_bits_round_trip(p.server_receive);
    lemma_i64_bits_round_trip(p.server_send);
    let s = spec_serialize(p);
    assert(s.subrange(1, 5) =~= spec_u32_to_le_bytes(p.sequence));
    assert(s.subrange(5, 13) =~= spec_u64_to_le_bytes(p.client_send as u64));
    assert(s.subrange(13, 21) =~= spec_u64_to_le_bytes(p.server_receive as u64));
    assert(s.subrange(21, 29) =~= spec_u64_to_le_bytes(p.server_send as u64));
    assert(spec_deserialize(s) == Some(p));
}

} // verus!
