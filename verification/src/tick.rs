//! Tick scheduling for the cyclic loop.
//!
//! The loop runs one process-data exchange per tick of a fixed period.
//! When an exchange overruns its tick, the boundaries that passed in the
//! meantime are skipped rather than queued: the next deadline is the
//! earliest boundary not in the past, so the loop trades missed cycles
//! for bounded staleness and never builds a backlog.

use vstd::arithmetic::div_mod::{
    lemma_fundamental_div_mod, lemma_mod_division_less_than_divisor, lemma_mod_multiples_basic,
};
use vstd::prelude::*;

verus! {

/// The deadline after `prev` that the loop waits for when the time is
/// `now`: the next boundary `prev + k * period`, skipping every boundary
/// already in the past.
pub open spec fn spec_next_deadline(prev: int, now: int, period: int) -> int
    recommends
        period >= 1,
        prev <= now,
{
    if now <= prev + period {
        prev + period
    } else if (now - prev) % period == 0 {
        now
    } else {
        now - ((now - prev) % period) + period
    }
}

/// Earliest tick boundary at or after `now`, and strictly after `prev`;
/// boundaries stand at `prev + k * period`.
pub fn next_deadline(prev: u64, now: u64, period: u64) -> (r: u64)
    requires
        period >= 1,
        prev <= now,
        now + period <= u64::MAX,
    ensures
        r == spec_next_deadline(prev as int, now as int, period as int),
        now <= r <= now + period,
        r > prev,
        (r - prev) % (period as int) == 0,
{
    if now <= prev + period {
        proof {
            lemma_mod_multiples_basic(1, period as int);
        }
        prev + period
    } else {
        let delta = now - prev;
        let rem = delta % period;
        proof {
            let p = period as int;
            let q = delta as int / p;
            lemma_mod_division_less_than_divisor(delta as int, p);
            lemma_fundamental_div_mod(delta as int, p);
            assert(delta == p * q + rem);
            assert(p * q == q * p) by (nonlinear_arith);
            if rem != 0 {
                assert((q + 1) * p == q * p + p) by (nonlinear_arith);
                assert(now - rem + period - prev == (q + 1) * p);
                lemma_mod_multiples_basic(q + 1, p);
            } else {
                lemma_mod_multiples_basic(q, p);
            }
        }
        if rem == 0 {
            now
        } else {
            now - rem + period
        }
    }
}

/// Tick-skip policy: when one exchange overruns the tick period three
/// times over, the next deadline is the boundary the loop is standing
/// on — the two boundaries that passed during the exchange are skipped,
/// so exactly one exchange runs per overrun window instead of a queued
/// backlog of three.
pub proof fn lemma_tick_skip(prev: int, period: int)
    requires
        period >= 1,
    ensures
        spec_next_deadline(prev, prev + 3 * period, period) == prev + 3 * period,
        prev + period < spec_next_deadline(prev, prev + 3 * period, period),
        prev + 2 * period < spec_next_deadline(prev, prev + 3 * period, period),
{
    lemma_mod_multiples_basic(3, period);
}

} // verus!
