//! The mathematical model of a limiter: its schedule as natural numbers of
//! nanoseconds, and what each operation makes of it.

use vstd::prelude::*;

verus! {

/// Why a set of parameters cannot be turned into a schedule.
#[derive(Clone, Copy, Debug, PartialEq, Eq, Structural)]
pub enum Fault {
    /// The rate is zero, so a period cannot be divided by it.
    RateZero,
    /// The period is too short for the rate: a unit would cost no time.
    IntervalZero,
    /// The delay tolerance reaches back before the clock's epoch.
    ToleranceTooLarge,
    /// The capacity carried over reaches back before the clock's epoch.
    RescaleTooLarge,
}

/// The state of a limiter. Times are nanoseconds since the clock's epoch.
pub struct Schedule {
    /// The time cost of one unit.
    pub emission_interval: nat,
    /// The most credit that can build up.
    pub delay_tolerance: nat,
    /// When the next unit would arrive if units came at exactly the rate.
    pub theoretical_arrival_time: nat,
    /// The time from which the deficit is cleared.
    pub allow_at: nat,
    /// The largest request that can ever be admitted.
    pub max_burst: nat,
}

/// What a request comes to.
pub enum Admission {
    /// The request is admitted and leaves this schedule.
    Admitted(Schedule),
    /// The request asks for more than the burst and can never be admitted.
    TooLarge,
    /// The request has to wait this many nanoseconds.
    DeniedFor(nat),
}

/// The later of two times.
pub open spec fn later(a: nat, b: nat) -> nat {
    if a >= b {
        a
    } else {
        b
    }
}

/// The smaller of two counts.
pub open spec fn fewer(a: nat, b: nat) -> nat {
    if a <= b {
        a
    } else {
        b
    }
}

impl Schedule {
    /// The invariant of a schedule: a unit costs time, the tolerance is the
    /// cost of a full burst, and `allow_at` trails the arrival time by it.
    pub open spec fn wf(self) -> bool {
        &&& self.emission_interval > 0
        &&& self.delay_tolerance == self.emission_interval * self.max_burst
        &&& self.theoretical_arrival_time == self.allow_at + self.delay_tolerance
    }

    /// The whole emission intervals that have passed since `allow_at`.
    pub open spec fn elapsed_intervals(self, now: nat) -> nat
        recommends
            self.allow_at <= now,
    {
        ((now - self.allow_at) / (self.emission_interval as int)) as nat
    }

    /// The units that can be admitted at `now`.
    pub open spec fn capacity_at(self, now: nat) -> nat {
        if now < self.allow_at {
            0
        } else {
            fewer(self.elapsed_intervals(now), self.max_burst)
        }
    }

    /// The time that `n` units cost.
    pub open spec fn cost(self, n: nat) -> nat {
        n * self.emission_interval
    }

    /// The schedule of a limiter made at `now`, with its full burst at hand.
    pub open spec fn create(rate: nat, period: nat, max_burst: nat, now: nat) -> Result<
        Schedule,
        Fault,
    > {
        let interval = period / rate;
        if rate == 0 {
            Err(Fault::RateZero)
        } else if interval == 0 {
            Err(Fault::IntervalZero)
        } else if interval * max_burst > now {
            Err(Fault::ToleranceTooLarge)
        } else {
            Ok(
                Schedule {
                    emission_interval: interval,
                    delay_tolerance: interval * max_burst,
                    theoretical_arrival_time: now,
                    allow_at: (now - interval * max_burst) as nat,
                    max_burst,
                },
            )
        }
    }

    /// The theoretical arrival time after `n` more units are admitted at `now`.
    pub open spec fn arrival_after(self, n: nat, now: nat) -> nat {
        later(self.theoretical_arrival_time, now) + self.cost(n)
    }

    /// What a request for `n` units at `now` comes to.
    pub open spec fn request_at(self, n: nat, now: nat) -> Admission {
        if n > self.max_burst {
            Admission::TooLarge
        } else if n > self.capacity_at(now) {
            Admission::DeniedFor((self.allow_at + self.cost(n) - now) as nat)
        } else {
            Admission::Admitted(
                Schedule {
                    theoretical_arrival_time: self.arrival_after(n, now),
                    allow_at: (self.arrival_after(n, now) - self.delay_tolerance) as nat,
                    ..self
                },
            )
        }
    }

    /// The schedule that takes the place of this one when the parameters are
    /// changed at `now`. With capacity at hand, the whole intervals that have
    /// passed are carried over at the new cost of a unit; in deficit, the
    /// deficit is dropped and the new schedule starts with its full burst.
    pub open spec fn adjust_at(self, rate: nat, period: nat, max_burst: nat, now: nat) -> Result<
        Schedule,
        Fault,
    > {
        match Schedule::create(rate, period, max_burst, now) {
            Err(fault) => Err(fault),
            Ok(fresh) => {
                let rewind = self.elapsed_intervals(now) * fresh.emission_interval;
                if now < self.allow_at {
                    Ok(fresh)
                } else if rewind > now {
                    Err(Fault::RescaleTooLarge)
                } else {
                    Ok(
                        Schedule {
                            theoretical_arrival_time: (now - rewind + fresh.delay_tolerance) as nat,
                            allow_at: (now - rewind) as nat,
                            ..fresh
                        },
                    )
                }
            },
        }
    }
}

} // verus!
