//! Admission model of the rate/concurrency governor.
//!
//! The governor in front of the transport bounds (a) the number of requests
//! in flight at once and (b) the number of request starts per rolling time
//! window.  This module is the verified admission bookkeeping: a caller
//! asks to be admitted at the current time, is either admitted or must ask
//! again later, and reports completion when its request finishes.  The
//! asynchronous queueing and the clock are the caller's concern; every
//! admission decision goes through this single state value.

use vstd::arithmetic::div_mod::lemma_div_is_ordered;
use vstd::arithmetic::div_mod::lemma_div_multiples_vanish_fancy;
use vstd::arithmetic::mul::lemma_mul_inequality;
use vstd::prelude::*;

verus! {

/// Admission bookkeeping for the concurrency gate and the rate gate.
///
/// The ghost fields record history a caller never reads: the creation
/// time, how many windows have been closed, and how many requests were
/// ever admitted.  They tie the executable counters to the throughput law
/// proved below.
pub struct Governor {
    /// Largest number of requests allowed in flight at once.
    pub max_in_flight: u64,
    /// Largest number of request starts allowed per window.
    pub rate_limit: u64,
    /// Length of one rate window, in the caller's clock units.
    pub window_len: u64,
    /// Requests admitted and not yet reported finished.
    pub in_flight: u64,
    /// Start of the current rate window.
    pub window_start: u64,
    /// Requests admitted since the current window started.
    pub started_in_window: u64,
    /// Creation time.
    pub epoch: Ghost<u64>,
    /// Windows closed since creation.
    pub rollovers: Ghost<nat>,
    /// Requests ever admitted.
    pub total_admitted: Ghost<nat>,
}

impl Governor {
    /// Well-formedness: both gates respect their bounds, the window has
    /// advanced by one full length per closed window, and the history
    /// accounts for every admission.
    pub open spec fn wf(&self) -> bool {
        &&& self.max_in_flight >= 1
        &&& self.rate_limit >= 1
        &&& self.window_len >= 1
        &&& self.in_flight <= self.max_in_flight
        &&& self.started_in_window <= self.rate_limit
        &&& self.window_start as int >= self.epoch@ as int + self.rollovers@ * self.window_len as int
        &&& self.total_admitted@ <= self.rollovers@ * self.rate_limit as nat
            + self.started_in_window as nat
    }

    /// Whether at time `now` the current window has fully elapsed, so a
    /// fresh window begins with the next admission attempt.
    pub open spec fn window_elapsed(&self, now: u64) -> bool {
        now - self.window_start >= self.window_len
    }

    /// A fresh governor with both gates idle.
    pub fn new(max_in_flight: u64, rate_limit: u64, window_len: u64, now: u64) -> (g: Governor)
        requires
            max_in_flight >= 1,
            rate_limit >= 1,
            window_len >= 1,
        ensures
            g.wf(),
            g.max_in_flight == max_in_flight,
            g.rate_limit == rate_limit,
            g.window_len == window_len,
            g.in_flight == 0,
            g.window_start == now,
            g.started_in_window == 0,
            g.epoch@ == now,
            g.rollovers@ == 0,
            g.total_admitted@ == 0,
    {
        Governor {
            max_in_flight,
            rate_limit,
            window_len,
            in_flight: 0,
            window_start: now,
            started_in_window: 0,
            epoch: Ghost(now),
            rollovers: Ghost(0),
            total_admitted: Ghost(0),
        }
    }

    /// One admission attempt at time `now`.
    ///
    /// The request is admitted exactly when a concurrency slot is free and
    /// the current window (fresh, if the old one has elapsed) still has
    /// rate budget.  A refused caller's only recourse is to try again at a
    /// later time: the governor never rejects a request for good.
    pub fn try_start(&mut self, now: u64) -> (admitted: bool)
        requires
            old(self).wf(),
            now >= old(self).window_start,
        ensures
            final(self).wf(),
            final(self).max_in_flight == old(self).max_in_flight,
            final(self).rate_limit == old(self).rate_limit,
            final(self).window_len == old(self).window_len,
            final(self).epoch == old(self).epoch,
            admitted == (old(self).in_flight < old(self).max_in_flight && (old(
                self,
            ).window_elapsed(now) || old(self).started_in_window < old(self).rate_limit)),
            old(self).window_elapsed(now) ==> final(self).window_start == now
                && final(self).rollovers@ == old(self).rollovers@ + 1,
            !old(self).window_elapsed(now) ==> final(self).window_start == old(self).window_start
                && final(self).rollovers@ == old(self).rollovers@,
            final(self).started_in_window as int == (if old(self).window_elapsed(now) {
                0int
            } else {
                old(self).started_in_window as int
            }) + (if admitted {
                1int
            } else {
                0int
            }),
            admitted ==> final(self).in_flight == old(self).in_flight + 1,
            !admitted ==> final(self).in_flight == old(self).in_flight,
            admitted ==> final(self).total_admitted@ == old(self).total_admitted@ + 1,
            !admitted ==> final(self).total_admitted@ == old(self).total_admitted@,
            now >= final(self).window_start,
    {
        if now - self.window_start >= self.window_len {
            self.window_start = now;
            self.started_in_window = 0;
            proof {
                let r = self.rollovers@ as int;
                let w = self.window_len as int;
                let rate = self.rate_limit as int;
                assert((r + 1) * w == r * w + w) by (nonlinear_arith);
                assert((r + 1) * rate == r * rate + rate) by (nonlinear_arith);
            }
            self.rollovers = Ghost(self.rollovers@ + 1);
        }
        if self.in_flight < self.max_in_flight && self.started_in_window < self.rate_limit {
            self.in_flight = self.in_flight + 1;
            self.started_in_window = self.started_in_window + 1;
            self.total_admitted = Ghost(self.total_admitted@ + 1);
            true
        } else {
            false
        }
    }

    /// Reports one admitted request as finished, freeing its concurrency
    /// slot.
    pub fn release(&mut self)
        requires
            old(self).wf(),
            old(self).in_flight >= 1,
        ensures
            final(self).wf(),
            final(self).in_flight == old(self).in_flight - 1,
            final(self).max_in_flight == old(self).max_in_flight,
            final(self).rate_limit == old(self).rate_limit,
            final(self).window_len == old(self).window_len,
            final(self).window_start == old(self).window_start,
            final(self).started_in_window == old(self).started_in_window,
            final(self).epoch == old(self).epoch,
            final(self).rollovers == old(self).rollovers,
            final(self).total_admitted == old(self).total_admitted,
    {
        self.in_flight = self.in_flight - 1;
    }
}

/// Concurrency law: however many callers share the governor, a
/// well-formed state never has more requests in flight than the
/// concurrency bound, and `try_start` refuses a caller rather than
/// exceed it.
pub proof fn lemma_concurrency_bound(g: Governor)
    requires
        g.wf(),
    ensures
        g.in_flight <= g.max_in_flight,
{
}

/// Throughput law of the rate gate: each window contributes at most the
/// rate bound's worth of starts, so after `n` admitted starts the window
/// has advanced past the creation time by at least `(n - 1) / R` full
/// window lengths.  Together with `try_start`'s requirement that its clock
/// never runs backwards past the window start, `n` starts take at least
/// that much wall-clock time.
pub proof fn lemma_rate_window_lower_bound(g: Governor)
    requires
        g.wf(),
        g.total_admitted@ >= 1,
    ensures
        g.window_start as int >= g.epoch@ as int + ((g.total_admitted@ as int - 1)
            / g.rate_limit as int) * g.window_len as int,
{
    let n = g.total_admitted@ as int;
    let rate = g.rate_limit as int;
    let roll = g.rollovers@ as int;
    let w = g.window_len as int;
    assert(n <= roll * rate + rate);
    assert(n - 1 <= rate * roll + (rate - 1)) by (nonlinear_arith)
        requires n <= roll * rate + rate;
    lemma_div_is_ordered(n - 1, rate * roll + (rate - 1), rate);
    lemma_div_multiples_vanish_fancy(roll, rate - 1, rate);
    assert((n - 1) / rate <= roll);
    lemma_mul_inequality((n - 1) / rate, roll, w);
}

} // verus!
