//! The monotonic clock that drives a limiter, and the few items of
//! `std::time` that the crate relies on without proof.

use std::time::Duration;
use std::time::Instant;
use vstd::prelude::*;

verus! {

/// `std::time::Instant`, carried through as an opaque value.
#[verifier::external_type_specification]
#[verifier::external_body]
pub struct ExInstant(Instant);

/// The length of a `Duration` in nanoseconds: what `Duration::as_nanos`
/// returns for it.
pub uninterp spec fn duration_nanos(d: Duration) -> nat;

/// `Instant::now` reads the system's monotonic clock. Nothing is claimed of
/// the instant that it returns.
pub assume_specification[ Instant::now ]() -> (r: Instant)
;

/// `Instant::saturating_duration_since` returns the time that passed from
/// `earlier` to `later`, or a zero duration when `earlier` is the later of
/// the two. Nothing is claimed of the result.
pub assume_specification[ Instant::saturating_duration_since ](
    later: &Instant,
    earlier: Instant,
) -> (r: Duration)
;

/// `Duration::as_nanos` returns the whole length of the duration in
/// nanoseconds.
pub assume_specification[ Duration::as_nanos ](d: &Duration) -> (r: u128)
    ensures
        r == duration_nanos(*d),
;

/// The nanoseconds in a second.
pub const NANOS_PER_SECOND: u32 = 1_000_000_000;

/// `Duration::new` builds the duration of the given whole seconds and
/// additional nanoseconds. With less than a second of nanoseconds nothing
/// is carried into the seconds, so the call cannot overflow them.
pub assume_specification[ Duration::new ](secs: u64, nanos: u32) -> (r: Duration)
    requires
        nanos < NANOS_PER_SECOND,
    ensures
        duration_nanos(r) == secs * NANOS_PER_SECOND + nanos,
;

/// The duration of `nanos` nanoseconds, for a time of less than 2^65
/// nanoseconds: the longest that a limiter makes a request wait.
pub(crate) fn span_of(nanos: u128) -> (span: Duration)
    requires
        nanos < 0x2_0000_0000_0000_0000,
    ensures
        duration_nanos(span) == nanos,
{
    let seconds: u128 = nanos / 1_000_000_000;
    let rest: u128 = nanos % 1_000_000_000;
    assert(seconds * 1_000_000_000 + rest == nanos);
    Duration::new(seconds as u64, rest as u32)
}

/// The largest reading that a clock can show, in nanoseconds.
pub const LAST_READING: u64 = 0xffff_ffff_ffff_ffff;

/// The reading that the clock of a limiter shows when the limiter is made
/// without a reading of the caller's: the middle of the clock's range, which
/// leaves 292 years to reach back and as many to run.
pub const FIRST_READING: u64 = 0x8000_0000_0000_0000;

/// The reading of a clock that showed `start` when it was started, once
/// `elapsed` nanoseconds have passed: the clock stops at `LAST_READING`.
pub open spec fn reading_from(start: nat, elapsed: nat) -> nat {
    if start + elapsed <= LAST_READING {
        start + elapsed
    } else {
        LAST_READING as nat
    }
}

/// A monotonic clock that counts nanoseconds from a reading chosen when it
/// is started.
#[derive(Clone, Copy, Debug, PartialEq, Eq)]
pub struct Clock {
    origin: Instant,
    start: u64,
}

impl Clock {
    /// The reading that the clock showed when it was started.
    pub closed spec fn start(&self) -> nat {
        self.start as nat
    }

    /// The start of a clock is one of its readings.
    pub proof fn lemma_start_in_range(self)
        ensures
            self.start() <= LAST_READING,
    {
    }

    /// Starts a clock that reads `start` now.
    pub fn starting_at(start: u64) -> (clock: Clock)
        ensures
            clock.start() == start,
    {
        Clock { origin: Instant::now(), start }
    }

    /// The reading that the clock shows once `elapsed` nanoseconds have
    /// passed since it was started.
    pub fn reading_after(&self, elapsed: u128) -> (reading: u64)
        ensures
            reading == reading_from(self.start(), elapsed as nat),
    {
        let room: u64 = LAST_READING - self.start;
        if elapsed <= room as u128 {
            self.start + (elapsed as u64)
        } else {
            LAST_READING
        }
    }

    /// Reads the clock: `reading_after` for the time that has passed since
    /// the clock was started, as the system's monotonic clock measures it.
    pub fn now(&self) -> (reading: u64)
        ensures
            exists|elapsed: nat| reading == #[trigger] reading_from(self.start(), elapsed),
            self.start() <= reading <= LAST_READING,
    {
        let elapsed: u128 = Instant::now().saturating_duration_since(self.origin).as_nanos();
        self.reading_after(elapsed)
    }
}

} // verus!
