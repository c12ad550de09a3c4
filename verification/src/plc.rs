//! The phase-locked clock: the control loop's state and decisions.
//!
//! The clock owns a steerable virtual clock and fuses repeated offset
//! samples from the reference into a continuously corrected time source
//! with an explicit trust signal.  Its two states are `Unsynchronized`
//! (initial) and `Synchronized`, and either is reachable from the other:
//! falling out of sync is a recoverable condition callers poll for, not a
//! fault.
//!
//! Each loop turn the owner obtains one sample outcome from the clock
//! client and hands it to [`PhaseLockedClock::on_sample`] together with
//! the current real time:
//!
//! - a successful sample whose offset magnitude exceeds the phase-panic
//!   threshold jumps the virtual clock's phase at once — slewing a large
//!   error would leave a long transient of misleading readings;
//! - a smaller offset nudges the clock's frequency in proportion, slewing
//!   the estimated offset away over about the next second without a
//!   visible phase discontinuity;
//! - a failed sample leaves the state alone and does not refresh the
//!   time of the last successful update;
//! - in every case, a clock that has heard nothing from its reference for
//!   longer than the update-panic threshold declares itself out of sync,
//!   however good its last correction looked.
//!
//! The surrounding thread, its sleeps and its socket belong to the owner;
//! everything the loop decides is here, and verified.

use vstd::prelude::*;

use crate::timestamp;
use crate::vclock::VariableFrequencyClock;
use crate::vclock::MAX_FREQUENCY;
use crate::vclock::MIN_FREQUENCY;
use crate::vclock::NOMINAL_FREQUENCY;
use crate::Error;

verus! {

/// Magnitude of a signed count.
pub open spec fn mag(x: int) -> int {
    if x >= 0 {
        x
    } else {
        -x
    }
}

/// The phase-locked clock's session state.  The running loop is its only
/// writer; readers query it through the owner's sharing discipline.
#[derive(PartialEq, Eq, Structural, Clone, Copy, Debug)]
pub struct PhaseLockedClock {
    /// The steerable output clock.
    pub clock: VariableFrequencyClock,
    /// Whether the clock currently trusts its readings.
    pub synchronized: bool,
    /// Real time of the last successful sample (construction time before
    /// any sample has succeeded).
    pub last_update: i64,
    /// The last accepted offset estimate, in microseconds.
    pub offset_micros: i64,
    /// An offset beyond this is jumped, not slewed, in microseconds.
    pub phase_panic_micros: i64,
    /// Silence longer than this declares the clock out of sync, in
    /// microseconds.
    pub update_panic_micros: i64,
    /// Whether a control loop currently runs for this clock.
    pub running: bool,
    /// The cooperative cancellation flag the loop polls.
    pub cancel_requested: bool,
}

impl PhaseLockedClock {
    /// The clock's invariant: the virtual clock is well formed and both
    /// thresholds are non-negative.
    pub open spec fn wf(self) -> bool {
        &&& self.clock.wf()
        &&& self.phase_panic_micros >= 0
        &&& self.update_panic_micros >= 0
    }

    /// Whether a successful sample can be applied at `now`: the virtual
    /// clock's reading, and for a phase jump the jumped reading, stay
    /// representable.
    pub open spec fn sample_applies(self, offset: int, now: int) -> bool {
        let v = self.clock.value_at_spec(now);
        &&& i64::MIN <= v <= i64::MAX
        &&& (mag(offset) > self.phase_panic_micros ==> i64::MIN <= v + offset <= i64::MAX)
    }

    /// The state after applying a successful sample: phase jump or
    /// frequency nudge, the update time refreshed, the clock trusted.
    pub open spec fn spec_apply_sample(self, offset: int, now: int) -> PhaseLockedClock {
        let v = self.clock.value_at_spec(now);
        let corrected = if mag(offset) > self.phase_panic_micros {
            VariableFrequencyClock {
                anchor_real: now as i64,
                anchor_value: (v + offset) as i64,
                frequency: self.clock.frequency,
            }
        } else {
            VariableFrequencyClock {
                anchor_real: now as i64,
                anchor_value: v as i64,
                frequency: VariableFrequencyClock::clamped_frequency(
                    NOMINAL_FREQUENCY + offset,
                ) as i64,
            }
        };
        PhaseLockedClock {
            clock: corrected,
            synchronized: true,
            last_update: now as i64,
            offset_micros: offset as i64,
            ..self
        }
    }

    /// The staleness rule: silence longer than the update-panic threshold
    /// withdraws trust.
    pub open spec fn spec_check_stale(self, now: int) -> PhaseLockedClock {
        if now - self.last_update > self.update_panic_micros {
            PhaseLockedClock { synchronized: false, ..self }
        } else {
            self
        }
    }

    /// One full turn of the control loop's decision: apply the sample
    /// outcome, then the staleness rule.  A failed sample — and a
    /// successful one whose application would overflow — changes nothing
    /// by itself.
    pub open spec fn spec_on_sample(self, outcome: Option<i64>, now: int) -> PhaseLockedClock {
        let mid = match outcome {
            Some(offset) => if self.sample_applies(offset as int, now) {
                self.spec_apply_sample(offset as int, now)
            } else {
                self
            },
            None => self,
        };
        mid.spec_check_stale(now)
    }

    /// A fresh, unsynchronized clock reading real time, no loop running.
    pub fn new(phase_panic_micros: i64, update_panic_micros: i64, now: i64) -> (c:
        PhaseLockedClock)
        requires
            phase_panic_micros >= 0,
            update_panic_micros >= 0,
        ensures
            c == (PhaseLockedClock {
                clock: VariableFrequencyClock {
                    anchor_real: now,
                    anchor_value: now,
                    frequency: NOMINAL_FREQUENCY,
                },
                synchronized: false,
                last_update: now,
                offset_micros: 0i64,
                phase_panic_micros,
                update_panic_micros,
                running: false,
                cancel_requested: false,
            }),
            c.wf(),
    {
        PhaseLockedClock {
            clock: VariableFrequencyClock::new(now),
            synchronized: false,
            last_update: now,
            offset_micros: 0,
            phase_panic_micros,
            update_panic_micros,
            running: false,
            cancel_requested: false,
        }
    }

    /// Apply one sample outcome at real time `now`.
    pub fn on_sample(&mut self, outcome: Option<i64>, now: i64)
        requires
            old(self).wf(),
        ensures
            *final(self) == old(self).spec_on_sample(outcome, now as int),
            final(self).wf(),
    {
        match outcome {
            Some(offset) => {
                let jump = offset > self.phase_panic_micros || offset < -self.phase_panic_micros;
                match self.clock.value_at(now) {
                    Ok(v) => {
                        if jump {
                            match v.checked_add(offset) {
                                Some(jumped) => {
                                    self.clock.set_value(now, jumped);
                                    self.offset_micros = offset;
                                    self.last_update = now;
                                    self.synchronized = true;
                                },
                                None => {},
                            }
                        } else {
                            let wanted: i64 = if offset >= MAX_FREQUENCY - NOMINAL_FREQUENCY {
                                MAX_FREQUENCY
                            } else if offset <= MIN_FREQUENCY - NOMINAL_FREQUENCY {
                                MIN_FREQUENCY
                            } else {
                                NOMINAL_FREQUENCY + offset
                            };
                            self.clock.set_value(now, v);
                            self.clock.frequency = wanted;
                            self.offset_micros = offset;
                            self.last_update = now;
                            self.synchronized = true;
                        }
                    },
                    Err(_) => {},
                }
            },
            None => {},
        }
        match now.checked_sub(self.last_update) {
            Some(silence) => {
                if silence > self.update_panic_micros {
                    self.synchronized = false;
                }
            },
            None => {
                if now > self.last_update {
                    self.synchronized = false;
                }
            },
        }
    }

    /// Whether the clock currently trusts its readings; a lock-free read
    /// in the owner's hands.
    pub fn is_synchronized(&self) -> (r: bool)
        ensures
            r == self.synchronized,
    {
        self.synchronized
    }

    /// The virtual clock's reading at real time `now`, only while
    /// synchronized: an out-of-sync clock reports `OutOfSync` rather than
    /// a stale or wrong timestamp.
    pub fn get_value_at(&self, now: i64) -> (r: Result<i64, Error>)
        requires
            self.wf(),
        ensures
            !self.synchronized ==> (r matches Err(e) && e == Error::OutOfSync),
            self.synchronized && i64::MIN <= self.clock.value_at_spec(now as int) <= i64::MAX ==> (
            r matches Ok(v) && v == self.clock.value_at_spec(now as int)),
            self.synchronized && !(i64::MIN <= self.clock.value_at_spec(now as int) <= i64::MAX)
                ==> (r matches Err(e) && e == Error::Overflow),
    {
        if !self.synchronized {
            return Err(Error::OutOfSync);
        }
        self.clock.value_at(now)
    }

    /// The synchronized reading, as a calendar value, taken at the wall
    /// clock's current time.
    pub fn get_value(&self) -> (r: Result<chrono::NaiveDateTime, Error>)
        requires
            self.wf(),
        ensures
            !self.synchronized ==> (r matches Err(e) && e == Error::OutOfSync),
            r is Ok ==> self.synchronized,
            self.synchronized ==> (r is Ok || (r matches Err(e) && e == Error::Overflow)),
    {
        let now = timestamp::wall_clock_micros();
        match self.get_value_at(now) {
            Ok(v) => timestamp::to_datetime(v),
            Err(e) => Err(e),
        }
    }

    /// The last accepted offset estimate, under the same guard as the
    /// value.
    pub fn get_offset(&self) -> (r: Result<i64, Error>)
        ensures
            self.synchronized ==> (r matches Ok(v) && v == self.offset_micros),
            !self.synchronized ==> (r matches Err(e) && e == Error::OutOfSync),
    {
        if self.synchronized {
            Ok(self.offset_micros)
        } else {
            Err(Error::OutOfSync)
        }
    }

    /// The state after `start`: a loop runs.
    pub open spec fn spec_start(self) -> PhaseLockedClock {
        PhaseLockedClock { running: true, ..self }
    }

    /// The state after `stop`: cancellation stands requested.
    pub open spec fn spec_stop(self) -> PhaseLockedClock {
        PhaseLockedClock { cancel_requested: true, ..self }
    }

    /// Start the clock.  The result says whether the caller must spawn
    /// the control loop: `false` when one is already running, so calling
    /// `start` twice yields exactly one loop.
    pub fn start(&mut self) -> (spawn: bool)
        ensures
            *final(self) == old(self).spec_start(),
            spawn == !old(self).running,
    {
        let spawn = !self.running;
        self.running = true;
        spawn
    }

    /// Request cooperative cancellation.  The loop observes the flag no
    /// later than its next turn; an in-flight network wait is not
    /// interrupted, so shutdown latency is bounded by the client's
    /// timeout.
    pub fn stop(&mut self)
        ensures
            *final(self) == old(self).spec_stop(),
    {
        self.cancel_requested = true;
    }

    /// Whether the control loop should take another turn.
    pub fn should_continue(&self) -> (r: bool)
        ensures
            r == !self.cancel_requested,
    {
        !self.cancel_requested
    }

    /// Record that the control loop has exited; no further mutation
    /// follows.  A caller that needs guaranteed shutdown stops the clock,
    /// waits for the loop to exit, and observes this mark.
    pub fn mark_stopped(&mut self)
        ensures
            *final(self) == (PhaseLockedClock { running: false, ..*old(self) }),
    {
        self.running = false;
    }

    /// Adjust the phase-panic threshold; it takes effect on the next loop
    /// turn.
    pub fn set_phase_panic(&mut self, micros: i64)
        requires
            micros >= 0,
        ensures
            *final(self) == (PhaseLockedClock { phase_panic_micros: micros, ..*old(self) }),
    {
        self.phase_panic_micros = micros;
    }

    /// Adjust the update-panic threshold; it takes effect on the next
    /// loop turn.
    pub fn set_update_panic(&mut self, micros: i64)
        requires
            micros >= 0,
        ensures
            *final(self) == (PhaseLockedClock { update_panic_micros: micros, ..*old(self) }),
    {
        self.update_panic_micros = micros;
    }
}

/// Starting is idempotent: one loop runs after `start`, and starting a
/// started clock changes nothing.
pub proof fn lemma_start_idempotent(s: PhaseLockedClock)
    ensures
        s.spec_start().running,
        s.spec_start().spec_start() == s.spec_start(),
{
}

/// Stopping is idempotent: cancellation stands after `stop`, and stopping
/// a stopped clock has the same effect as stopping it once.
pub proof fn lemma_stop_idempotent(s: PhaseLockedClock)
    ensures
        s.spec_stop().cancel_requested,
        s.spec_stop().spec_stop() == s.spec_stop(),
{
}

/// An offset beyond the phase-panic threshold is corrected by an
/// immediate phase jump: the clock's reading at that instant moves by the
/// whole offset while its rate stays untouched, and the clock is trusted.
pub proof fn lemma_phase_panic_jump(s: PhaseLockedClock, offset: i64, now: i64)
    requires
        s.wf(),
        mag(offset as int) > s.phase_panic_micros,
        s.sample_applies(offset as int, now as int),
    ensures
        s.spec_on_sample(Some(offset), now as int).synchronized,
        s.spec_on_sample(Some(offset), now as int).clock.frequency == s.clock.frequency,
        s.spec_on_sample(Some(offset), now as int).clock.value_at_spec(now as int)
            == s.clock.value_at_spec(now as int) + offset,
{
    let applied = s.spec_apply_sample(offset as int, now as int);
    assert(applied.clock.elapsed_at(now as int) == 0);
    assert(applied.clock.value_at_spec(now as int) == applied.clock.anchor_value);
    assert(applied.spec_check_stale(now as int) == applied);
}

/// An offset within the phase-panic threshold is slewed, not jumped: the
/// clock's reading at that instant is unchanged and only its rate moves,
/// by the clamped offset-proportional nudge.
pub proof fn lemma_small_offset_slews(s: PhaseLockedClock, offset: i64, now: i64)
    requires
        s.wf(),
        mag(offset as int) <= s.phase_panic_micros,
        s.sample_applies(offset as int, now as int),
    ensures
        s.spec_on_sample(Some(offset), now as int).synchronized,
        s.spec_on_sample(Some(offset), now as int).clock.value_at_spec(now as int)
            == s.clock.value_at_spec(now as int),
        s.spec_on_sample(Some(offset), now as int).clock.frequency
            == VariableFrequencyClock::clamped_frequency(NOMINAL_FREQUENCY + offset),
{
    let applied = s.spec_apply_sample(offset as int, now as int);
    assert(applied.clock.elapsed_at(now as int) == 0);
    assert(applied.clock.value_at_spec(now as int) == applied.clock.anchor_value);
    assert(applied.spec_check_stale(now as int) == applied);
}

/// An out-of-sync clock stays out of sync through a turn that brings no
/// sample: a caller polling during an outage keeps receiving the explicit
/// out-of-sync condition, never a default or stale timestamp.
pub proof fn lemma_no_sample_never_synchronizes(s: PhaseLockedClock, now: i64)
    requires
        !s.synchronized,
    ensures
        !s.spec_on_sample(None, now as int).synchronized,
{
}

/// A clock with no successful sample for longer than the update-panic
/// threshold is out of sync after the next turn, even if it was trusted
/// and the turn brought no sample.
pub proof fn lemma_update_panic_stales(s: PhaseLockedClock, now: i64)
    requires
        now - s.last_update > s.update_panic_micros,
    ensures
        !s.spec_on_sample(None, now as int).synchronized,
{
}

} // verus!
