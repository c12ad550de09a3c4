//! The clock client: one half of the round-trip offset estimation.
//!
//! The client sends a request stamped with its local send time `t1`; the
//! server stamps arrival `t2` and departure `t3`; the client stamps the
//! reply's arrival `t4`.  From the four timestamps it computes
//!
//! ```text
//! offset     = ((t2 - t1) + (t3 - t4)) / 2
//! round_trip = (t4 - t1) - (t3 - t2)
//! ```
//!
//! which cancels symmetric network delay to first order.  The round-trip
//! delay is kept as a quality signal; the offset is reported regardless and
//! the caller decides how to weight it.  Division rounds toward zero.
//!
//! The network wait itself (a bounded timeout, and a bounded number of
//! retries with fixed spacing) is driven by the caller that owns the
//! socket; this module makes every decision about the bytes it is handed.

use vstd::prelude::*;

use crate::packet::ClockPacket;
use crate::packet::PacketKind;
use crate::packet::spec_deserialize;
use crate::Error;

verus! {

/// How many times a request is re-sent after a timeout before the sample
/// fails with `Timeout`.  The retries are evenly spaced: each waits the
/// full per-request timeout.  The original behavior here was
/// underspecified, so a small bounded count is fixed and documented.
pub const MAX_TRIES: u32 = 3;

/// Integer division by two, rounded toward zero.
pub open spec fn half_toward_zero(s: int) -> int {
    if s >= 0 {
        s / 2
    } else {
        -((-s) / 2)
    }
}

/// The latency-compensated clock offset estimated from one exchange.
pub open spec fn offset_of(t1: int, t2: int, t3: int, t4: int) -> int {
    half_toward_zero((t2 - t1) + (t3 - t4))
}

/// The network round-trip delay measured by one exchange.
pub open spec fn round_trip_of(t1: int, t2: int, t3: int, t4: int) -> int {
    (t4 - t1) - (t3 - t2)
}

/// Every intermediate value of the two formulas fits a signed 64-bit count.
pub open spec fn sample_in_range(t1: int, t2: int, t3: int, t4: int) -> bool {
    &&& i64::MIN <= t2 - t1 <= i64::MAX
    &&& i64::MIN <= t3 - t4 <= i64::MAX
    &&& i64::MIN <= (t2 - t1) + (t3 - t4) <= i64::MAX
    &&& i64::MIN <= t4 - t1 <= i64::MAX
    &&& i64::MIN <= t3 - t2 <= i64::MAX
    &&& i64::MIN <= round_trip_of(t1, t2, t3, t4) <= i64::MAX
}

/// A reply is accepted for a request exactly when it is a reply packet
/// carrying the request's sequence number; anything else (a stale or
/// duplicated reply under retransmission, or an echoed request) is
/// discarded, not fatal.
pub open spec fn reply_matches(request: ClockPacket, reply: ClockPacket) -> bool {
    reply.kind == PacketKind::Reply && reply.sequence == request.sequence
}

/// Compute one `(offset, round_trip)` sample from the four timestamps,
/// reporting `Overflow` instead of wrapping.
pub fn compute_sample(t1: i64, t2: i64, t3: i64, t4: i64) -> (r: Result<(i64, i64), Error>)
    ensures
        sample_in_range(t1 as int, t2 as int, t3 as int, t4 as int) ==> (r matches Ok(p)
            && p.0 == offset_of(t1 as int, t2 as int, t3 as int, t4 as int)
            && p.1 == round_trip_of(t1 as int, t2 as int, t3 as int, t4 as int)),
        !sample_in_range(t1 as int, t2 as int, t3 as int, t4 as int) ==> (r matches Err(e)
            && e == Error::Overflow),
{
    let a = match t2.checked_sub(t1) {
        Some(v) => v,
        None => { return Err(Error::Overflow); },
    };
    let b = match t3.checked_sub(t4) {
        Some(v) => v,
        None => { return Err(Error::Overflow); },
    };
    let s = match a.checked_add(b) {
        Some(v) => v,
        None => { return Err(Error::Overflow); },
    };
    let offset: i64 = if s >= 0 {
        ((s as u64) / 2) as i64
    } else {
        let m: u64 = ((-(s + 1)) as u64) + 1;
        -((m / 2) as i64)
    };
    let c = match t4.checked_sub(t1) {
        Some(v) => v,
        None => { return Err(Error::Overflow); },
    };
    let d = match t3.checked_sub(t2) {
        Some(v) => v,
        None => { return Err(Error::Overflow); },
    };
    let rtt = match c.checked_sub(d) {
        Some(v) => v,
        None => { return Err(Error::Overflow); },
    };
    Ok((offset, rtt))
}

/// With the four timestamps in exchange order, the offset's magnitude is at
/// most half the interval between send and receive, and the round-trip
/// delay is not negative.
pub proof fn lemma_sample_bounds(t1: int, t2: int, t3: int, t4: int)
    requires
        t1 <= t2 <= t3 <= t4,
    ensures
        round_trip_of(t1, t2, t3, t4) >= 0,
        -((t4 - t1) / 2) <= offset_of(t1, t2, t3, t4) <= (t4 - t1) / 2,
{
    let s = (t2 - t1) + (t3 - t4);
    assert(-(t4 - t1) <= s <= t4 - t1);
    if s >= 0 {
        vstd::arithmetic::div_mod::lemma_div_is_ordered(s, t4 - t1, 2);
        vstd::arithmetic::div_mod::lemma_div_is_ordered(0, s, 2);
    } else {
        vstd::arithmetic::div_mod::lemma_div_is_ordered(-s, t4 - t1, 2);
        vstd::arithmetic::div_mod::lemma_div_is_ordered(0, -s, 2);
    }
}

/// The client's request-side state: the sequence number the next request
/// will carry, and the per-request network timeout its owner should apply.
pub struct ClockClient {
    pub next_sequence: u32,
    pub timeout_ms: u32,
}

impl ClockClient {
    /// A fresh client; sequence numbers start at zero.
    pub fn new(timeout_ms: u32) -> (c: ClockClient)
        ensures
            c == (ClockClient { next_sequence: 0u32, timeout_ms }),
    {
        ClockClient { next_sequence: 0, timeout_ms }
    }

    /// Stamp a request with the local send time and consume one sequence
    /// number; the counter wraps at the end of its range.
    pub fn prepare_request(&mut self, t1: i64) -> (p: ClockPacket)
        ensures
            p == (ClockPacket {
                kind: PacketKind::Request,
                sequence: old(self).next_sequence,
                client_send: t1,
                server_receive: 0i64,
                server_send: 0i64,
            }),
            final(self).next_sequence == (old(self).next_sequence + 1) % 0x1_0000_0000,
            final(self).timeout_ms == old(self).timeout_ms,
    {
        let p = ClockPacket::new_request(self.next_sequence, t1);
        self.next_sequence = self.next_sequence.wrapping_add(1);
        p
    }

    /// After a request went unanswered for the full per-request timeout,
    /// decide between another evenly spaced try and giving up: with
    /// `tries_used` requests already spent, either the next try's count
    /// or the `Timeout` failure that ends the sample.
    pub fn on_timeout(&self, tries_used: u32) -> (r: Result<u32, Error>)
        ensures
            tries_used + 1 < MAX_TRIES ==> (r matches Ok(n) && n == tries_used + 1),
            tries_used + 1 >= MAX_TRIES ==> (r matches Err(e) && e == Error::Timeout),
    {
        if tries_used >= MAX_TRIES - 1 {
            Err(Error::Timeout)
        } else {
            Ok(tries_used + 1)
        }
    }

    /// Judge the bytes received while waiting on `request`, the reply
    /// arrival time `t4` already stamped.  `None` means the datagram is
    /// discarded and the wait goes on; `Some` ends the exchange with the
    /// sample or with `Overflow`.
    pub fn evaluate_reply(&self, request: &ClockPacket, bytes: &[u8], t4: i64) -> (r: Option<
        Result<(i64, i64), Error>,
    >)
        ensures
            match spec_deserialize(bytes@) {
                Some(reply) => {
                    if reply_matches(*request, reply) {
                        &&& r is Some
                        &&& (sample_in_range(
                            request.client_send as int,
                            reply.server_receive as int,
                            reply.server_send as int,
                            t4 as int,
                        ) ==> (r matches Some(Ok(p)) && p.0 == offset_of(
                            request.client_send as int,
                            reply.server_receive as int,
                            reply.server_send as int,
                            t4 as int,
                        ) && p.1 == round_trip_of(
                            request.client_send as int,
                            reply.server_receive as int,
                            reply.server_send as int,
                            t4 as int,
                        )))
                        &&& (!sample_in_range(
                            request.client_send as int,
                            reply.server_receive as int,
                            reply.server_send as int,
                            t4 as int,
                        ) ==> (r matches Some(Err(e)) && e == Error::Overflow))
                    } else {
                        r is None
                    }
                },
                None => r is None,
            },
    {
        let reply = match ClockPacket::deserialize(bytes) {
            Some(p) => p,
            None => { return None; },
        };
        let is_reply = match reply.kind {
            PacketKind::Reply => true,
            PacketKind::Request => false,
        };
        if !is_reply || reply.sequence != request.sequence {
            return None;
        }
        Some(compute_sample(request.client_send, reply.server_receive, reply.server_send, t4))
    }
}

} // verus!
