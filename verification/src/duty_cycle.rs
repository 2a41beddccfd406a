//! The counter that limits how often detection runs.

use vstd::prelude::*;
use vstd::arithmetic::div_mod::{
    lemma_fundamental_div_mod,
    lemma_fundamental_div_mod_converse,
    lemma_mod_bound,
    lemma_small_mod,
};

verus! {

/// Number of ticks between two detection runs unless configured otherwise.
pub const DETECTION_INTERVAL: u32 = 60;

/// Counts ticks and lets detection run on every tick whose number is a
/// multiple of the interval. Only the tick number's remainder is stored, so
/// the count never overflows.
pub struct DutyCycle {
    interval: u32,
    phase: u32,
    ticks: Ghost<nat>,
}

impl DutyCycle {
    #[verifier::type_invariant]
    spec fn consistent(self) -> bool {
        &&& self.interval > 0
        &&& self.phase < self.interval
        &&& self.phase == self.ticks@ % (self.interval as nat)
    }

    /// How many ticks have been counted.
    pub closed spec fn ticks(self) -> nat {
        self.ticks@
    }

    /// The configured interval.
    pub closed spec fn period(self) -> nat {
        self.interval as nat
    }

    /// Whether detection was due on the tick counted last.
    pub open spec fn due(self) -> bool {
        self.ticks() % self.period() == 0
    }

    /// A counter at tick zero that fires every `interval` ticks; `None` when
    /// `interval` is zero.
    pub fn new(interval: u32) -> (cycle: Option<DutyCycle>)
        ensures
            cycle is Some <==> interval > 0,
            cycle matches Some(c) ==> c.ticks() == 0 && c.period() == interval,
    {
        if interval == 0 {
            None
        } else {
            proof {
                lemma_small_mod(0, interval as nat);
            }
            Some(DutyCycle { interval, phase: 0, ticks: Ghost(0) })
        }
    }

    /// A counter at tick zero with the standard interval.
    pub fn standard() -> (cycle: DutyCycle)
        ensures
            cycle.ticks() == 0,
            cycle.period() == DETECTION_INTERVAL,
    {
        DutyCycle { interval: DETECTION_INTERVAL, phase: 0, ticks: Ghost(0) }
    }

    /// The configured interval.
    pub fn interval(&self) -> (interval: u32)
        ensures
            interval == self.period(),
            interval > 0,
    {
        proof {
            use_type_invariant(self);
        }
        self.interval
    }

    /// Counts one tick and says whether detection is due on it.
    pub fn tick(&mut self) -> (due: bool)
        ensures
            final(self).ticks() == old(self).ticks() + 1,
            final(self).period() == old(self).period(),
            due == final(self).due(),
    {
        proof {
            use_type_invariant(&*self);
            lemma_next_phase(self.ticks@, self.interval as nat);
        }
        let next: u32 = if self.phase + 1 == self.interval {
            0
        } else {
            self.phase + 1
        };
        *self = DutyCycle { interval: self.interval, phase: next, ticks: Ghost(self.ticks@ + 1) };
        next == 0
    }
}

/// The remainder of the next tick number follows from that of this one.
pub proof fn lemma_next_phase(ticks: nat, interval: nat)
    requires
        interval > 0,
    ensures
        (ticks + 1) % interval == (if ticks % interval + 1 == interval {
            0
        } else {
            ticks % interval + 1
        }),
{
    let n = interval as int;
    let t = ticks as int;
    lemma_fundamental_div_mod(t, n);
    lemma_mod_bound(t, n);
    if t % n + 1 == n {
        assert(t + 1 == (t / n + 1) * n + 0) by (nonlinear_arith)
            requires
                t == n * (t / n) + t % n,
                t % n + 1 == n,
        ;
        lemma_fundamental_div_mod_converse(t + 1, n, t / n + 1, 0);
    } else {
        assert(t + 1 == (t / n) * n + (t % n + 1)) by (nonlinear_arith)
            requires
                t == n * (t / n) + t % n,
        ;
        lemma_fundamental_div_mod_converse(t + 1, n, t / n, t % n + 1);
    }
}

} // verus!
