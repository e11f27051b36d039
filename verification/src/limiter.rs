//! The limiter itself: the schedule held in machine integers, and the
//! operations on it, each at a reading of the clock that the caller gives.

use crate::error::reported;
use crate::error::GcrCreationError;
use crate::error::GcrRequestError;
use crate::laws::lemma_admission_consumes;
use crate::laws::lemma_initial_burst;
use crate::laws::lemma_request_wf;
use crate::schedule::Admission;
use crate::schedule::Fault;
use crate::schedule::Schedule;
use crate::time::duration_nanos;
use crate::time::span_of;
use crate::time::Clock;
use crate::time::FIRST_READING;
use crate::time::LAST_READING;
use std::time::Duration;
use vstd::prelude::*;

verus! {

/// A generic cell rate (GCR) limiter.
///
/// Times are nanoseconds on the limiter's own clock.
#[derive(Debug, PartialEq, Eq)]
pub struct Gcr {
    /// The time cost of one unit.
    emission_interval: u128,
    /// The most credit that can build up: the cost of a full burst.
    delay_tolerance: u64,
    /// The theoretical arrival time of the next unit. It may lie up to the
    /// delay tolerance after the clock's last reading.
    theoretical_arrival_time: u128,
    /// The time from which the deficit is cleared.
    allow_at: u64,
    /// The maximum number of units to allow in a single request.
    max_burst: u32,
    /// The clock that the limiter reads.
    clock: Clock,
}

impl View for Gcr {
    type V = Schedule;

    closed spec fn view(&self) -> Schedule {
        Schedule {
            emission_interval: self.emission_interval as nat,
            delay_tolerance: self.delay_tolerance as nat,
            theoretical_arrival_time: self.theoretical_arrival_time as nat,
            allow_at: self.allow_at as nat,
            max_burst: self.max_burst as nat,
        }
    }
}

impl Clone for Gcr {
    fn clone(&self) -> (copy: Gcr)
        ensures
            copy == *self,
    {
        proof {
            use_type_invariant(self);
        }
        Gcr {
            emission_interval: self.emission_interval,
            delay_tolerance: self.delay_tolerance,
            theoretical_arrival_time: self.theoretical_arrival_time,
            allow_at: self.allow_at,
            max_burst: self.max_burst,
            clock: self.clock,
        }
    }
}

/// The burst that a limiter gets: the one given, or else the rate.
pub open spec fn burst_or_rate(max_burst: Option<u32>, rate: u32) -> nat {
    match max_burst {
        Some(burst) => burst as nat,
        None => rate as nat,
    }
}

/// Whether what came of making a limiter is what the model asks for: the
/// limiter of the schedule, or an error that carries the fault's text.
pub open spec fn made_as(made: Result<Gcr, GcrCreationError>, asked: Result<Schedule, Fault>) -> bool {
    match made {
        Ok(gcr) => asked == Ok::<Schedule, Fault>(gcr@),
        Err(error) => asked is Err && error.cause() == asked->Err_0.text(),
    }
}

/// Whether what came of adjusting a limiter is what the model asks for,
/// where `left` is the schedule that the limiter has afterwards.
pub open spec fn adjusted_as(
    result: Result<(), GcrCreationError>,
    left: Schedule,
    asked: Result<Schedule, Fault>,
) -> bool {
    match result {
        Ok(_) => asked == Ok::<Schedule, Fault>(left),
        Err(error) => asked is Err && error.cause() == asked->Err_0.text(),
    }
}

impl Gcr {
    #[verifier::type_invariant]
    spec fn inv(self) -> bool {
        self@.wf()
    }

    /// The clock that the limiter reads.
    pub closed spec fn clock(&self) -> Clock {
        self.clock
    }

    /// The reading at which the limiter's clock was started.
    pub open spec fn clock_start(&self) -> nat {
        self.clock().start()
    }

    /// Builds the limiter that `Schedule::create` describes, on the given clock.
    fn build(rate: u32, period: u128, max_burst: Option<u32>, now: u64, clock: Clock) -> (made:
        Result<Gcr, Fault>)
        ensures
            match made {
                Ok(gcr) => Schedule::create(
                    rate as nat,
                    period as nat,
                    burst_or_rate(max_burst, rate),
                    now as nat,
                ) == Ok::<Schedule, Fault>(gcr@) && gcr.clock == clock,
                Err(fault) => Schedule::create(
                    rate as nat,
                    period as nat,
                    burst_or_rate(max_burst, rate),
                    now as nat,
                ) == Err::<Schedule, Fault>(fault),
            },
    {
        if rate == 0 {
            return Err(Fault::RateZero);
        }
        let emission_interval: u128 = period / (rate as u128);
        if emission_interval == 0 {
            return Err(Fault::IntervalZero);
        }
        let max_burst: u32 = match max_burst {
            Some(burst) => burst,
            None => rate,
        };
        // A tolerance that does not fit the integer is longer than any reading.
        let tolerance: u128 = match emission_interval.checked_mul(max_burst as u128) {
            Some(tolerance) => tolerance,
            None => {
                return Err(Fault::ToleranceTooLarge);
            },
        };
        if tolerance > now as u128 {
            return Err(Fault::ToleranceTooLarge);
        }
        let delay_tolerance: u64 = tolerance as u64;
        Ok(
            Gcr {
                emission_interval,
                delay_tolerance,
                theoretical_arrival_time: now as u128,
                allow_at: now - delay_tolerance,
                max_burst,
                clock,
            },
        )
    }

    /// Creates a limiter at the reading `now` of a clock that is started
    /// with it. `rate` units are refilled per `period`, a number of
    /// nanoseconds; a single request can take up to `max_burst` units, or up
    /// to `rate` where no burst is given. The full burst is at hand at once.
    ///
    /// # Errors
    /// `ParametersOutOfRange`, with the fault's text as its cause: where the
    /// rate is zero, where a unit would cost less than a nanosecond, and
    /// where the clock has not run for as long as a full burst takes to
    /// refill.
    pub fn new_at(rate: u32, period: u128, max_burst: Option<u32>, now: u64) -> (made: Result<
        Gcr,
        GcrCreationError,
    >)
        ensures
            made_as(
                made,
                Schedule::create(
                    rate as nat,
                    period as nat,
                    burst_or_rate(max_burst, rate),
                    now as nat,
                ),
            ),
            made matches Ok(gcr) ==> gcr@.wf() && gcr.clock_start() == now,
            made matches Ok(gcr) ==> gcr@.capacity_at(now as nat) == burst_or_rate(max_burst, rate),
    {
        match Gcr::build(rate, period, max_burst, now, Clock::starting_at(now)) {
            Ok(gcr) => {
                proof {
                    use_type_invariant(&gcr);
                    lemma_initial_burst(
                        rate as nat,
                        period as nat,
                        burst_or_rate(max_burst, rate),
                        now as nat,
                        now as nat,
                    );
                }
                Ok(gcr)
            },
            Err(fault) => Err(GcrCreationError::from_fault(fault)),
        }
    }

    /// Get the capacity of the limiter at the reading `now`: the whole
    /// emission intervals that have passed since the deficit was cleared, up
    /// to the burst; none while the limiter is in deficit.
    pub fn capacity_at(&self, now: u64) -> (units: u32)
        ensures
            units == self@.capacity_at(now as nat),
            units <= self@.max_burst,
    {
        proof {
            use_type_invariant(self);
        }
        if now < self.allow_at {
            return 0;
        }
        let intervals: u128 = (now - self.allow_at) as u128 / self.emission_interval;
        if intervals < self.max_burst as u128 {
            intervals as u32
        } else {
            self.max_burst
        }
    }

    /// Request `n` units from the limiter at the reading `now`.
    ///
    /// An admitted request moves the schedule on by the cost of `n` units;
    /// any other leaves the limiter as it was.
    ///
    /// # Errors
    /// - `RequestTooLarge` where `n` is more than the burst: no wait helps.
    /// - `DeniedFor` where `n` is more than the capacity at `now`, with the
    ///   time after which `n` units are at hand.
    ///
    /// `ParametersOutOfRange` is never returned: a request within the
    /// capacity always leaves a schedule that the limiter can hold.
    pub fn request_at(&mut self, n: u32, now: u64) -> (result: Result<(), GcrRequestError>)
        ensures
            reported(result, final(self)@) == Some(old(self)@.request_at(n as nat, now as nat)),
            result is Ok <==> n <= old(self)@.capacity_at(now as nat),
            result is Ok ==> final(self)@.capacity_at(now as nat) == old(self)@.capacity_at(
                now as nat,
            ) - n,
            result is Err ==> *final(self) == *old(self),
            final(self)@.wf(),
            final(self).clock() == old(self).clock(),
    {
        proof {
            use_type_invariant(&*self);
        }
        // A request above the burst can never be admitted.
        if n > self.max_burst {
            return Err(GcrRequestError::RequestTooLarge);
        }
        assert(n * self.emission_interval <= self.emission_interval * self.max_burst)
            by (nonlinear_arith)
            requires
                n <= self.max_burst,
        ;
        let cost: u128 = n as u128 * self.emission_interval;

        // A request above the capacity waits until `n` units are at hand.
        if n > self.capacity_at(now) {
            let allow_time: u128 = self.allow_at as u128 + cost;
            assert(allow_time > now) by (nonlinear_arith)
                requires
                    allow_time == self.allow_at + n * self.emission_interval,
                    self.emission_interval > 0,
                    now >= self.allow_at ==> n > (now - self.allow_at) / (
                    self.emission_interval as int),
            ;
            let wait: u128 = allow_time - now as u128;
            return Err(GcrRequestError::DeniedFor(span_of(wait)));
        }
        proof {
            lemma_request_wf(self@, n as nat, now as nat);
            lemma_admission_consumes(self@, n as nat, now as nat);
        }
        // Move the theoretical arrival time on by the units consumed.
        let base: u128 = if self.theoretical_arrival_time >= now as u128 {
            self.theoretical_arrival_time
        } else {
            now as u128
        };
        let arrival: u128 = base + cost;
        *self = Gcr {
            emission_interval: self.emission_interval,
            delay_tolerance: self.delay_tolerance,
            theoretical_arrival_time: arrival,
            allow_at: (arrival - self.delay_tolerance as u128) as u64,
            max_burst: self.max_burst,
            clock: self.clock,
        };
        Ok(())
    }

    /// Adjust the parameters of the limiter at the reading `now`, keeping
    /// the capacity that is at hand.
    ///
    /// With capacity at hand, the whole emission intervals that have passed
    /// since the deficit was cleared are carried over, each at the new cost
    /// of a unit. In deficit, the deficit is dropped: the limiter starts
    /// afresh with its full new burst. On an error the limiter is left as
    /// it was.
    ///
    /// # Errors
    /// `ParametersOutOfRange`, with the fault's text as its cause: where
    /// `new_at` fails, and where the intervals carried over reach back
    /// before the clock's epoch.
    pub fn adjust_at(&mut self, rate: u32, period: u128, max_burst: Option<u32>, now: u64) -> (result:
        Result<(), GcrCreationError>)
        ensures
            adjusted_as(
                result,
                final(self)@,
                old(self)@.adjust_at(
                    rate as nat,
                    period as nat,
                    burst_or_rate(max_burst, rate),
                    now as nat,
                ),
            ),
            result is Err ==> *final(self) == *old(self),
            final(self)@.wf(),
            final(self).clock() == old(self).clock(),
    {
        proof {
            use_type_invariant(&*self);
        }
        // The limiter that the new parameters give when made now.
        let fresh: Gcr = match Gcr::build(rate, period, max_burst, now, self.clock) {
            Ok(fresh) => fresh,
            Err(fault) => {
                return Err(GcrCreationError::from_fault(fault));
            },
        };
        proof {
            use_type_invariant(&fresh);
        }
        if now < self.allow_at {
            *self = fresh;
            return Ok(());
        }
        // Carry the intervals that have passed over to the new cost of a unit.
        // A product that does not fit the integer is longer than any reading.
        let intervals: u128 = (now - self.allow_at) as u128 / self.emission_interval;
        let rewind: u128 = match intervals.checked_mul(fresh.emission_interval) {
            Some(rewind) => rewind,
            None => {
                return Err(GcrCreationError::from_fault(Fault::RescaleTooLarge));
            },
        };
        if rewind > now as u128 {
            return Err(GcrCreationError::from_fault(Fault::RescaleTooLarge));
        }
        let allow_at: u64 = now - rewind as u64;
        *self = Gcr {
            emission_interval: fresh.emission_interval,
            delay_tolerance: fresh.delay_tolerance,
            theoretical_arrival_time: allow_at as u128 + fresh.delay_tolerance as u128,
            allow_at,
            max_burst: fresh.max_burst,
            clock: fresh.clock,
        };
        Ok(())
    }

    /// Create a new limiter on a clock of its own, which is started with it
    /// at `FIRST_READING`.
    ///
    /// * `rate` - The number of units to refill per `period`
    /// * `period` - The amount of time between each refill
    /// * `max_burst` - The maximum number of units to allow in a single
    ///   request. If not specified, this will be set to the rate.
    ///
    /// The limiter is the one that `new_at` makes of the period's
    /// nanoseconds at that reading.
    ///
    /// # Errors
    /// `ParametersOutOfRange`, as `new_at` returns it.
    pub fn new(rate: u32, period: Duration, max_burst: Option<u32>) -> (made: Result<
        Gcr,
        GcrCreationError,
    >)
        ensures
            made_as(
                made,
                Schedule::create(
                    rate as nat,
                    duration_nanos(period),
                    burst_or_rate(max_burst, rate),
                    FIRST_READING as nat,
                ),
            ),
            made matches Ok(gcr) ==> gcr@.wf() && gcr.clock_start() == FIRST_READING,
            made matches Ok(gcr) ==> gcr@.capacity_at(FIRST_READING as nat) == burst_or_rate(
                max_burst,
                rate,
            ),
    {
        Gcr::new_at(rate, period.as_nanos(), max_burst, FIRST_READING)
    }

    /// Get the current capacity of the limiter: `capacity_at` for the
    /// reading that its clock shows.
    ///
    /// The capacity is worked out on the fly; the limiter is not changed.
    pub fn capacity(&self) -> (units: u32)
        ensures
            exists|now: nat|
                self.clock_start() <= now <= LAST_READING && units == #[trigger] self@.capacity_at(
                    now,
                ),
            units <= self@.max_burst,
    {
        let now: u64 = self.clock.now();
        self.capacity_at(now)
    }

    /// Request `n` units from the limiter: `request_at` for the reading
    /// that its clock shows.
    ///
    /// If the request was allowed through, this returns `Ok(())`. If not,
    /// it returns an error with the reason, and the limiter is left as it
    /// was. A request above the burst is refused whatever the clock shows.
    ///
    /// # Errors
    /// `RequestTooLarge` and `DeniedFor`, as `request_at` returns them.
    pub fn request(&mut self, n: u32) -> (result: Result<(), GcrRequestError>)
        ensures
            exists|now: nat|
                old(self).clock_start() <= now <= LAST_READING && reported(result, final(self)@)
                    == Some(#[trigger] old(self)@.request_at(n as nat, now)),
            n > old(self)@.max_burst ==> result == Err::<(), GcrRequestError>(
                GcrRequestError::RequestTooLarge,
            ),
            result is Err ==> *final(self) == *old(self),
            final(self)@.wf(),
            final(self).clock() == old(self).clock(),
    {
        proof {
            use_type_invariant(&*self);
        }
        // A request above the burst is refused before the clock is read.
        if n > self.max_burst {
            proof {
                self.clock.lemma_start_in_range();
                assert(self@.request_at(n as nat, self.clock_start()) == Admission::TooLarge);
            }
            return Err(GcrRequestError::RequestTooLarge);
        }
        let now: u64 = self.clock.now();
        self.request_at(n, now)
    }

    /// Adjust the parameters of the limiter while preserving the current
    /// capacity: `adjust_at` for the period's nanoseconds and the reading
    /// that the limiter's clock shows.
    ///
    /// # Errors
    /// `ParametersOutOfRange`, as `adjust_at` returns it; the limiter is
    /// then left as it was.
    pub fn adjust(&mut self, rate: u32, period: Duration, max_burst: Option<u32>) -> (result:
        Result<(), GcrCreationError>)
        ensures
            exists|now: nat|
                old(self).clock_start() <= now <= LAST_READING && adjusted_as(
                    result,
                    final(self)@,
                    #[trigger] old(self)@.adjust_at(
                        rate as nat,
                        duration_nanos(period),
                        burst_or_rate(max_burst, rate),
                        now,
                    ),
                ),
            result is Err ==> *final(self) == *old(self),
            final(self)@.wf(),
            final(self).clock() == old(self).clock(),
    {
        let now: u64 = self.clock.now();
        self.adjust_at(rate, period.as_nanos(), max_burst, now)
    }
}

} // verus!
