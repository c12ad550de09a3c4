//! The clock server: stamp and echo.
//!
//! For each well-formed request the server records the arrival time
//! immediately on receipt and the departure time immediately before
//! transmit, and replies with the sequence number and client send time
//! echoed and the two server timestamps filled in.  A malformed datagram
//! is dropped and the session stays open.  The only cross-request state is
//! the sequence number last answered, kept to drop a duplicated request
//! under retransmission; each reply is otherwise computed from its request
//! alone, which is what lets sessions run concurrently without shared
//! mutable state.

use vstd::prelude::*;

use crate::packet::ClockPacket;
use crate::packet::PacketKind;
use crate::packet::spec_deserialize;
use crate::packet::spec_serialize;

verus! {

/// Per-session server state: the sequence number of the last request
/// answered, if any.
pub struct ClockServer {
    pub last_sequence: Option<u32>,
}

/// A datagram is answered when it parses as a request and does not repeat
/// the sequence number just answered.
pub open spec fn answers(s: ClockServer, bytes: Seq<u8>) -> bool {
    match spec_deserialize(bytes) {
        Some(p) => p.kind == PacketKind::Request && s.last_sequence != Some(p.sequence),
        None => false,
    }
}

impl ClockServer {
    /// A fresh session: no request answered yet.
    pub fn new() -> (s: ClockServer)
        ensures
            s.last_sequence is None,
    {
        ClockServer { last_sequence: None }
    }

    /// Handle one received datagram.  `receive_time` is when it arrived and
    /// `send_time` is when the reply will leave; the caller stamps both.
    /// Returns the serialized reply, or `None` to drop the datagram.
    pub fn handle_datagram(&mut self, bytes: &[u8], receive_time: i64, send_time: i64) -> (r:
        Option<Vec<u8>>)
        ensures
            answers(*old(self), bytes@) ==> {
                let p = spec_deserialize(bytes@)->Some_0;
                &&& final(self).last_sequence == Some(p.sequence)
                &&& r matches Some(out) && out@ == spec_serialize(
                    ClockPacket {
                        kind: PacketKind::Reply,
                        sequence: p.sequence,
                        client_send: p.client_send,
                        server_receive: receive_time,
                        server_send: send_time,
                    },
                )
            },
            !answers(*old(self), bytes@) ==> r is None && *final(self) == *old(self),
    {
        let request = match ClockPacket::deserialize(bytes) {
            Some(p) => p,
            None => { return None; },
        };
        let is_request = match request.kind {
            PacketKind::Request => true,
            PacketKind::Reply => false,
        };
        if !is_request {
            return None;
        }
        match self.last_sequence {
            Some(last) => {
                if last == request.sequence {
                    return None;
                }
            },
            None => {},
        }
        self.last_sequence = Some(request.sequence);
        let reply = ClockPacket::new_reply(&request, receive_time, send_time);
        Some(reply.serialize())
    }
}

} // verus!
