//! The steerable virtual clock.
//!
//! Two clock variants share one capability set.  The fixed-rate variant is
//! the OS wall clock read through `timestamp::wall_clock_micros`, returned
//! unmodified.  The variable-frequency variant below derives its reading
//! from that real clock as
//!
//! ```text
//! value(now) = anchor_value + elapsed_since_anchor * frequency / 1_000_000
//! ```
//!
//! and lets its owner steer phase and rate at run time.  The frequency is
//! an integer: output microseconds per million real microseconds, nominal
//! `1_000_000`, clamped to a band around nominal so the clock cannot
//! diverge.  Every steering operation re-anchors at the current reading so
//! elapsed time is never double-counted, and each reading is computed from
//! one consistent (anchor, frequency) pair — concurrent readers see a
//! torn update only if their sharing discipline allows one, which the
//! single-writer loop that owns a clock does not.

use vstd::prelude::*;

use crate::Error;

verus! {

/// Nominal frequency: the clock runs at real time.
pub const NOMINAL_FREQUENCY: i64 = 1_000_000;

/// Lowest admissible frequency, ten percent under nominal.
pub const MIN_FREQUENCY: i64 = 900_000;

/// Highest admissible frequency, ten percent over nominal.
pub const MAX_FREQUENCY: i64 = 1_100_000;

/// A local time source whose phase and rate its owner can steer.
#[derive(PartialEq, Eq, Structural, Clone, Copy, Debug)]
pub struct VariableFrequencyClock {
    /// Reading of the real clock at the last re-anchoring.
    pub anchor_real: i64,
    /// This clock's own value at that moment.
    pub anchor_value: i64,
    /// Output microseconds per million real microseconds.
    pub frequency: i64,
}

impl VariableFrequencyClock {
    /// The frequency stays in its band around nominal.
    pub open spec fn wf(self) -> bool {
        MIN_FREQUENCY <= self.frequency <= MAX_FREQUENCY
    }

    /// The clock's reading at real time `real_now`.  A reading taken
    /// before the anchor (the real clock is monotonic, so only a stale
    /// argument can produce one) repeats the anchor value.
    pub open spec fn value_at_spec(self, real_now: int) -> int {
        self.anchor_value + (self.elapsed_at(real_now) * self.frequency) / 1_000_000
    }

    /// Real microseconds since the last re-anchoring, never negative.
    pub open spec fn elapsed_at(self, real_now: int) -> int {
        if real_now >= self.anchor_real {
            real_now - self.anchor_real
        } else {
            0
        }
    }

    /// A clock at nominal rate whose reading at `real_now` is `real_now`.
    pub fn new(real_now: i64) -> (c: VariableFrequencyClock)
        ensures
            c == (VariableFrequencyClock {
                anchor_real: real_now,
                anchor_value: real_now,
                frequency: NOMINAL_FREQUENCY,
            }),
            c.wf(),
    {
        VariableFrequencyClock {
            anchor_real: real_now,
            anchor_value: real_now,
            frequency: NOMINAL_FREQUENCY,
        }
    }

    /// Read the clock, reporting `Overflow` when the reading leaves the
    /// representable range.
    pub fn value_at(&self, real_now: i64) -> (r: Result<i64, Error>)
        requires
            self.wf(),
        ensures
            i64::MIN <= self.value_at_spec(real_now as int) <= i64::MAX ==> (r matches Ok(v)
                && v == self.value_at_spec(real_now as int)),
            !(i64::MIN <= self.value_at_spec(real_now as int) <= i64::MAX) ==> (r matches Err(e)
                && e == Error::Overflow),
    {
        let elapsed: i128 = if real_now >= self.anchor_real {
            (real_now as i128) - (self.anchor_real as i128)
        } else {
            0
        };
        let el_u: u128 = elapsed as u128;
        let fr_u: u128 = self.frequency as u128;
        proof {
            assert(el_u * fr_u <= 0xFFFF_FFFF_FFFF_FFFFu128 * 1_100_000u128) by (nonlinear_arith)
                requires
                    el_u <= 0xFFFF_FFFF_FFFF_FFFFu128,
                    fr_u <= 1_100_000u128,
            ;
        }
        let prod: u128 = el_u * fr_u;
        let scaled: u128 = prod / 1_000_000;
        proof {
            assert(elapsed == self.elapsed_at(real_now as int));
            assert(el_u == self.elapsed_at(real_now as int));
            assert(fr_u == self.frequency);
            assert(prod == self.elapsed_at(real_now as int) * self.frequency);
            assert(scaled == (self.elapsed_at(real_now as int) * self.frequency) / 1_000_000);
            assert(scaled <= prod) by {
                vstd::arithmetic::div_mod::lemma_div_is_ordered_by_denominator(
                    prod as int,
                    1,
                    1_000_000,
                );
            };
        }
        let value: i128 = (self.anchor_value as i128) + (scaled as i128);
        if value < (i64::MIN as i128) || value > (i64::MAX as i128) {
            Err(Error::Overflow)
        } else {
            Ok(value as i64)
        }
    }

    /// Jump the clock: re-anchor at `real_now` with reading `value`.  The
    /// rate is unchanged.
    pub fn set_value(&mut self, real_now: i64, value: i64)
        requires
            old(self).wf(),
        ensures
            *final(self) == (VariableFrequencyClock {
                anchor_real: real_now,
                anchor_value: value,
                frequency: old(self).frequency,
            }),
            final(self).wf(),
    {
        self.anchor_real = real_now;
        self.anchor_value = value;
    }

    /// The frequency the band admits: `wanted` clamped into it.
    pub open spec fn clamped_frequency(wanted: int) -> int {
        if wanted < MIN_FREQUENCY {
            MIN_FREQUENCY as int
        } else if wanted > MAX_FREQUENCY {
            MAX_FREQUENCY as int
        } else {
            wanted
        }
    }

    /// Change the rate: re-anchor at `real_now` with the current reading,
    /// so time already elapsed is not replayed at the new rate, then set
    /// the clamped frequency.  Fails with `Overflow`, leaving the clock
    /// unchanged, when the current reading is not representable.
    pub fn set_frequency(&mut self, real_now: i64, wanted: i64) -> (r: Result<(), Error>)
        requires
            old(self).wf(),
        ensures
            i64::MIN <= old(self).value_at_spec(real_now as int) <= i64::MAX ==> (r is Ok
                && *final(self) == (VariableFrequencyClock {
                    anchor_real: real_now,
                    anchor_value: old(self).value_at_spec(real_now as int) as i64,
                    frequency: Self::clamped_frequency(wanted as int) as i64,
                })),
            !(i64::MIN <= old(self).value_at_spec(real_now as int) <= i64::MAX) ==> ((
            r matches Err(e) && e == Error::Overflow) && *final(self) == *old(self)),
            final(self).wf(),
    {
        let current = match self.value_at(real_now) {
            Ok(v) => v,
            Err(e) => { return Err(e); },
        };
        self.anchor_real = real_now;
        self.anchor_value = current;
        self.frequency = if wanted < MIN_FREQUENCY {
            MIN_FREQUENCY
        } else if wanted > MAX_FREQUENCY {
            MAX_FREQUENCY
        } else {
            wanted
        };
        Ok(())
    }
}

} // verus!
