use vstd::prelude::*;

verus! {

/// A repeating timer: time accumulates and every full period that has passed
/// is consumed, the remainder carried over to the next tick.
#[derive(Clone, Copy)]
pub struct Timer {
    duration: u32,
    elapsed: u32,
}

/// How many periods finish when `delta` is added to `elapsed`.
pub open spec fn periods_finished(elapsed: nat, duration: nat, delta: nat) -> nat {
    (elapsed + delta) / duration
}

/// What is left of a period after `delta` is added to `elapsed`.
pub open spec fn remainder_after(elapsed: nat, duration: nat, delta: nat) -> nat {
    (elapsed + delta) % duration
}

impl Timer {
    /// The period, in milliseconds.
    pub closed spec fn duration_spec(&self) -> nat {
        self.duration as nat
    }

    /// Time accumulated towards the next period, in milliseconds.
    pub closed spec fn elapsed_spec(&self) -> nat {
        self.elapsed as nat
    }

    pub open spec fn wf(&self) -> bool {
        0 < self.duration_spec() && self.elapsed_spec() < self.duration_spec()
    }

    /// A timer with the given period that has not yet accumulated any time.
    pub fn from_millis(duration: u32) -> (r: Timer)
        requires
            duration > 0,
        ensures
            r.wf(),
            r.duration_spec() == duration,
            r.elapsed_spec() == 0,
    {
        Timer { duration, elapsed: 0 }
    }

    pub fn duration(&self) -> (r: u32)
        ensures
            r == self.duration_spec(),
    {
        self.duration
    }

    pub fn elapsed(&self) -> (r: u32)
        ensures
            r == self.elapsed_spec(),
    {
        self.elapsed
    }

    /// Adds `delta` milliseconds and returns how many periods finished.
    pub fn tick(&mut self, delta: u32) -> (finished: u64)
        requires
            old(self).wf(),
        ensures
            final(self).wf(),
            final(self).duration_spec() == old(self).duration_spec(),
            final(self).elapsed_spec() == remainder_after(
                old(self).elapsed_spec(),
                old(self).duration_spec(),
                delta as nat,
            ),
            finished == periods_finished(
                old(self).elapsed_spec(),
                old(self).duration_spec(),
                delta as nat,
            ),
    {
        let total: u64 = self.elapsed as u64 + delta as u64;
        let d: u64 = self.duration as u64;
        let finished: u64 = total / d;
        let rest: u64 = total % d;
        self.elapsed = rest as u32;
        finished
    }
}

/// Ticking by `d1` and then by `d2` finishes as many periods in all, and leaves
/// the same remainder, as one tick by `d1 + d2`.
pub proof fn lemma_tick_additive(elapsed: nat, duration: nat, d1: nat, d2: nat)
    requires
        0 < duration,
        elapsed < duration,
    ensures
        periods_finished(elapsed, duration, d1) + periods_finished(
            remainder_after(elapsed, duration, d1),
            duration,
            d2,
        ) == periods_finished(elapsed, duration, d1 + d2),
        remainder_after(remainder_after(elapsed, duration, d1), duration, d2) == remainder_after(
            elapsed,
            duration,
            d1 + d2,
        ),
{
    let dur = duration as int;
    let a = (elapsed + d1) as int;
    let q = a / dur;
    let r = a % dur;
    let b = r + d2;
    let q2 = b / dur;
    let r2 = b % dur;
    vstd::arithmetic::div_mod::lemma_fundamental_div_mod(a, dur);
    vstd::arithmetic::div_mod::lemma_fundamental_div_mod(b, dur);
    assert(a + d2 == (q + q2) * dur + r2) by (nonlinear_arith)
        requires
            a == dur * q + r,
            b == dur * q2 + r2,
            b == r + d2,
    ;
    vstd::arithmetic::div_mod::lemma_fundamental_div_mod_converse_div(a + d2, dur, q + q2, r2);
    vstd::arithmetic::div_mod::lemma_fundamental_div_mod_converse_mod(a + d2, dur, q + q2, r2);
}

} // verus!
