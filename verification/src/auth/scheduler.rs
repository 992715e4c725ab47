//! Pacing of the poll loop: one attempt per interval, none once the window that
//! the provider granted has been used up.

use crate::auth::responses::DeviceCodeChallenge;
use vstd::prelude::*;

verus! {

/// What the scheduler answers when asked whether another poll may be sent.
#[derive(Clone, Copy, Debug, PartialEq, Eq, Structural)]
pub enum Tick {
    /// The polling window is still open: send the next poll.
    Proceed,
    /// The polling window has closed: stop polling.
    Deadline,
}

/// The smaller of two numbers.
pub open spec fn least(a: nat, b: nat) -> nat {
    if a <= b {
        a
    } else {
        b
    }
}

/// The mathematical model of a [`PollingScheduler`].
pub struct Schedule {
    /// Seconds between two attempts.
    pub interval: nat,
    /// Length of the polling window in seconds.
    pub expires_in: nat,
    /// Attempts granted so far.
    pub attempts: nat,
    /// Seconds of the window that are used up, at most `expires_in`.
    pub elapsed: nat,
}

impl Schedule {
    /// The schedule of a window of which nothing is used up.
    pub open spec fn fresh(interval: nat, expires_in: nat) -> Schedule {
        Schedule { interval, expires_in, attempts: 0, elapsed: 0 }
    }

    /// Whether the window has room for another attempt.
    pub open spec fn is_open(self) -> bool {
        self.elapsed < self.expires_in
    }

    /// The answer to the next consultation.
    pub open spec fn tick(self) -> Tick {
        if self.is_open() {
            Tick::Proceed
        } else {
            Tick::Deadline
        }
    }

    /// The schedule after the next consultation: exactly when the answer is
    /// `Proceed`, an attempt is booked, and with it the interval that has to
    /// pass before the next one.
    pub open spec fn after_tick(self) -> Schedule {
        if self.is_open() {
            Schedule {
                attempts: self.attempts + 1,
                elapsed: least(self.elapsed + self.interval, self.expires_in),
                ..self
            }
        } else {
            self
        }
    }

    /// The schedule after a look at the clock, `seconds` after the window
    /// opened: what is used up never shrinks.
    pub open spec fn observed(self, seconds: nat) -> Schedule {
        if seconds > self.elapsed {
            Schedule { elapsed: least(seconds, self.expires_in), ..self }
        } else {
            self
        }
    }

    /// `expires_in / interval`, rounded up.
    pub open spec fn max_attempts(self) -> nat {
        ((self.expires_in + self.interval - 1) / (self.interval as int)) as nat
    }

    /// The interval is positive; what is used up lies within the window and
    /// covers one interval for each attempt, unless the window is full; and
    /// the last attempt granted, if any, was due inside the window.
    pub open spec fn wf(self) -> bool {
        &&& self.interval >= 1
        &&& self.elapsed <= self.expires_in
        &&& self.elapsed == self.expires_in || self.attempts * self.interval <= self.elapsed
        &&& self.attempts >= 1 ==> (self.attempts - 1) * self.interval < self.expires_in
    }

    /// A fresh schedule is well formed.
    pub proof fn lemma_fresh_wf(interval: nat, expires_in: nat)
        requires
            interval >= 1,
        ensures
            Self::fresh(interval, expires_in).wf(),
    {
        assert(0 * interval == 0) by (nonlinear_arith);
    }

    /// Consulting a well-formed schedule leaves it well formed, and leaves its
    /// interval and its window as they are.
    pub proof fn lemma_after_tick_wf(self)
        requires
            self.wf(),
        ensures
            self.after_tick().wf(),
            self.after_tick().interval == self.interval,
            self.after_tick().expires_in == self.expires_in,
    {
        if self.is_open() {
            let a = self.attempts as int;
            let i = self.interval as int;
            assert((a + 1) * i == a * i + i) by (nonlinear_arith);
            assert((a + 1 - 1) * i == a * i) by (nonlinear_arith);
        }
    }

    /// A look at the clock leaves a well-formed schedule well formed, and
    /// grants no attempt.
    pub proof fn lemma_observed_wf(self, seconds: nat)
        requires
            self.wf(),
        ensures
            self.observed(seconds).wf(),
            self.observed(seconds).interval == self.interval,
            self.observed(seconds).expires_in == self.expires_in,
            self.observed(seconds).attempts == self.attempts,
    {
    }

    /// However often a schedule is consulted, and whatever the clock says in
    /// between, it never grants more than `expires_in / interval` attempts,
    /// rounded up.
    pub proof fn lemma_attempts_bounded(self)
        requires
            self.wf(),
        ensures
            self.attempts <= self.max_attempts(),
    {
        if self.attempts >= 1 {
            let i = self.interval as int;
            let e = self.expires_in as int;
            let a = self.attempts as int;
            let q = (e + i - 1) / i;
            vstd::arithmetic::div_mod::lemma_fundamental_div_mod(e + i - 1, i);
            vstd::arithmetic::div_mod::lemma_mod_bound(e + i - 1, i);
            // e + i - 1 == i * q + r with 0 <= r < i, hence e <= i * q.
            assert(e <= i * q);
            assert((a - 1) * i < i * q);
            assert(a - 1 < q) by (nonlinear_arith)
                requires
                    (a - 1) * i < i * q,
                    i >= 1,
            ;
        }
    }
}

/// Bookkeeping for one polling window: `interval` seconds between attempts,
/// no attempt once `expires_in` seconds are used up.
#[derive(Debug, PartialEq, Eq)]
pub struct PollingScheduler {
    interval: u64,
    expires_in: u64,
    attempts: u64,
    elapsed: u64,
}

impl View for PollingScheduler {
    type V = Schedule;

    closed spec fn view(&self) -> Schedule {
        Schedule {
            interval: self.interval as nat,
            expires_in: self.expires_in as nat,
            attempts: self.attempts as nat,
            elapsed: self.elapsed as nat,
        }
    }
}

impl PollingScheduler {
    #[verifier::type_invariant]
    spec fn inv(self) -> bool {
        self@.wf()
    }

    /// A scheduler for a window of `expires_in` seconds with `interval` seconds
    /// between attempts; `None` when `interval` is zero.
    pub fn new(interval: u64, expires_in: u64) -> (r: Option<PollingScheduler>)
        ensures
            interval == 0 <==> r is None,
            r matches Some(s) ==> s@ == Schedule::fresh(interval as nat, expires_in as nat)
                && s@.wf(),
    {
        if interval == 0 {
            None
        } else {
            proof {
                Schedule::lemma_fresh_wf(interval as nat, expires_in as nat);
            }
            Some(PollingScheduler { interval, expires_in, attempts: 0, elapsed: 0 })
        }
    }

    /// A scheduler for the window and the interval that a challenge grants.
    pub fn for_challenge(challenge: &DeviceCodeChallenge) -> (r: PollingScheduler)
        ensures
            r@ == Schedule::fresh(challenge@.interval as nat, challenge@.expires_in as nat),
            r@.wf(),
    {
        let interval = challenge.interval();
        let expires_in = challenge.expires_in();
        proof {
            Schedule::lemma_fresh_wf(interval as nat, expires_in as nat);
        }
        PollingScheduler { interval, expires_in, attempts: 0, elapsed: 0 }
    }

    /// Consulted before each poll attempt: `Proceed` books the attempt and the
    /// interval that follows it, `Deadline` leaves the schedule as it is.
    pub fn next_tick(&mut self) -> (tick: Tick)
        ensures
            tick == old(self)@.tick(),
            final(self)@ == old(self)@.after_tick(),
            final(self)@.wf(),
            final(self)@.attempts <= final(self)@.max_attempts(),
    {
        proof {
            use_type_invariant(&*self);
            self@.lemma_after_tick_wf();
            self@.after_tick().lemma_attempts_bounded();
        }
        if self.elapsed >= self.expires_in {
            Tick::Deadline
        } else {
            assert(self.attempts <= self.elapsed) by (nonlinear_arith)
                requires
                    self.attempts as int * self.interval as int <= self.elapsed as int,
                    self.interval >= 1,
            ;
            let elapsed = if self.expires_in - self.elapsed <= self.interval {
                self.expires_in
            } else {
                self.elapsed + self.interval
            };
            *self = PollingScheduler {
                interval: self.interval,
                expires_in: self.expires_in,
                attempts: self.attempts + 1,
                elapsed,
            };
            Tick::Proceed
        }
    }

    /// Takes a look at the clock: `seconds` have passed since the window
    /// opened. What is used up of the window never shrinks, and no attempt is
    /// granted.
    pub fn observe(&mut self, seconds: u64)
        ensures
            final(self)@ == old(self)@.observed(seconds as nat),
            final(self)@.wf(),
    {
        proof {
            use_type_invariant(&*self);
            self@.lemma_observed_wf(seconds as nat);
        }
        if seconds > self.elapsed {
            let elapsed = if seconds <= self.expires_in {
                seconds
            } else {
                self.expires_in
            };
            *self = PollingScheduler {
                interval: self.interval,
                expires_in: self.expires_in,
                attempts: self.attempts,
                elapsed,
            };
        }
    }

    /// Seconds to sleep between two attempts; at least one.
    pub fn interval(&self) -> (seconds: u64)
        ensures
            seconds == self@.interval,
            seconds >= 1,
    {
        proof {
            use_type_invariant(self);
        }
        self.interval
    }

    /// Length of the polling window in seconds.
    pub fn expires_in(&self) -> (seconds: u64)
        ensures
            seconds == self@.expires_in,
    {
        self.expires_in
    }

    /// Attempts granted so far; never more than `expires_in / interval`,
    /// rounded up.
    pub fn attempts(&self) -> (n: u64)
        ensures
            n == self@.attempts,
            n <= self@.max_attempts(),
    {
        proof {
            use_type_invariant(self);
            self@.lemma_attempts_bounded();
        }
        self.attempts
    }

    /// Seconds of the window that are used up; at most `expires_in`.
    pub fn elapsed(&self) -> (seconds: u64)
        ensures
            seconds == self@.elapsed,
            seconds <= self@.expires_in,
    {
        proof {
            use_type_invariant(self);
        }
        self.elapsed
    }
}

} // verus!
