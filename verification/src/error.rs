//! The errors that the limiter returns, and the text that each one carries.

use crate::schedule::Admission;
use crate::schedule::Fault;
use crate::schedule::Schedule;
use crate::time::duration_nanos;
use std::time::Duration;
use vstd::prelude::*;

verus! {

/// What `Duration`'s `Debug` form prints for a duration of `nanos`
/// nanoseconds, such as `1.5s` or `250ms`.
pub uninterp spec fn duration_debug(nanos: nat) -> Seq<char>;

/// `String::push_str` appends the given slice to the end of the string.
pub assume_specification[ String::push_str ](text: &mut String, tail: &str)
    ensures
        final(text)@ == old(text)@ + tail@,
;

/// `Duration`'s `Debug::fmt`, called through `format!` with `{:?}`: the
/// text that it writes depends on the length of the duration alone, and is
/// the one that `duration_debug` names.
#[verifier::external_body]
fn debug_text(d: &Duration) -> (text: String)
    ensures
        text@ == duration_debug(duration_nanos(*d)),
{
    format!("{:?}", d)
}

impl Fault {
    /// The cause that an error carries for this fault.
    pub open spec fn text(self) -> Seq<char> {
        match self {
            Fault::RateZero => "duration division failed: supplied rate was zero"@,
            Fault::IntervalZero => "duration division failed: period / rate was zero"@,
            Fault::ToleranceTooLarge => {
                "interval subtraction failed: max_burst * (period / rate) was too large"@
            },
            Fault::RescaleTooLarge => {
                "interval subtraction failed: emission_interval was too large"@
            },
        }
    }

    /// The cause as a string.
    pub fn message(self) -> (text: String)
        ensures
            text@ == self.text(),
    {
        match self {
            Fault::RateZero => "duration division failed: supplied rate was zero".to_owned(),
            Fault::IntervalZero => "duration division failed: period / rate was zero".to_owned(),
            Fault::ToleranceTooLarge => {
                "interval subtraction failed: max_burst * (period / rate) was too large".to_owned()
            },
            Fault::RescaleTooLarge => {
                "interval subtraction failed: emission_interval was too large".to_owned()
            },
        }
    }
}

/// Errors encountered when creating or adjusting a limiter.
#[derive(Debug, Eq, PartialEq)]
pub enum GcrCreationError {
    /// The parameters cannot be turned into a schedule; the string says why.
    ParametersOutOfRange(String),
}

/// Errors encountered when requesting units from a limiter.
#[derive(Debug, Eq, PartialEq)]
pub enum GcrRequestError {
    /// The request is denied for now; one of the same size is admitted once
    /// the duration has passed.
    DeniedFor(Duration),
    /// The request is larger than the burst and can never be admitted.
    RequestTooLarge,
    /// The schedule cannot be moved on; the string says why. No request
    /// returns this: one that the capacity covers always leaves a schedule
    /// that the limiter can hold.
    ParametersOutOfRange(String),
}

impl Clone for GcrCreationError {
    fn clone(&self) -> (copy: GcrCreationError)
        ensures
            copy.cause() == self.cause(),
    {
        match self {
            GcrCreationError::ParametersOutOfRange(cause) => GcrCreationError::ParametersOutOfRange(
                cause.clone(),
            ),
        }
    }
}

impl Clone for GcrRequestError {
    fn clone(&self) -> (copy: GcrRequestError)
        ensures
            copy is DeniedFor <==> self is DeniedFor,
            copy is RequestTooLarge <==> self is RequestTooLarge,
            copy is ParametersOutOfRange <==> self is ParametersOutOfRange,
            copy is DeniedFor ==> copy->DeniedFor_0 == self->DeniedFor_0,
            copy.cause() == self.cause(),
            copy.text() == self.text(),
    {
        match self {
            GcrRequestError::DeniedFor(wait) => GcrRequestError::DeniedFor(*wait),
            GcrRequestError::RequestTooLarge => GcrRequestError::RequestTooLarge,
            GcrRequestError::ParametersOutOfRange(cause) => GcrRequestError::ParametersOutOfRange(
                cause.clone(),
            ),
        }
    }
}

impl GcrCreationError {
    /// The cause that the error carries.
    pub open spec fn cause(self) -> Seq<char> {
        match self {
            GcrCreationError::ParametersOutOfRange(cause) => cause@,
        }
    }

    /// The error for a fault.
    pub fn from_fault(fault: Fault) -> (error: GcrCreationError)
        ensures
            error.cause() == fault.text(),
    {
        GcrCreationError::ParametersOutOfRange(fault.message())
    }

    /// What the error prints as.
    pub open spec fn text(self) -> Seq<char> {
        "Parameters out of range: "@ + self.cause()
    }

    /// The error as a line of text.
    pub fn to_string(&self) -> (text: String)
        ensures
            text@ == self.text(),
    {
        match self {
            GcrCreationError::ParametersOutOfRange(cause) => {
                let mut text = "Parameters out of range: ".to_owned();
                text.push_str(cause.as_str());
                text
            },
        }
    }
}

/// The admission that the result of a request reports, where `left` is the
/// schedule that the request left behind. `ParametersOutOfRange` reports
/// none: no request comes to it.
pub open spec fn reported(result: Result<(), GcrRequestError>, left: Schedule) -> Option<
    Admission,
> {
    match result {
        Ok(_) => Some(Admission::Admitted(left)),
        Err(GcrRequestError::DeniedFor(wait)) => Some(Admission::DeniedFor(duration_nanos(wait))),
        Err(GcrRequestError::RequestTooLarge) => Some(Admission::TooLarge),
        Err(GcrRequestError::ParametersOutOfRange(_)) => None,
    }
}

impl GcrRequestError {
    /// The cause that the error carries, where it carries one.
    pub open spec fn cause(self) -> Seq<char> {
        match self {
            GcrRequestError::ParametersOutOfRange(cause) => cause@,
            _ => Seq::empty(),
        }
    }

    /// What the error prints as.
    pub open spec fn text(self) -> Seq<char> {
        match self {
            GcrRequestError::DeniedFor(wait) => "Request denied for "@ + duration_debug(
                duration_nanos(wait),
            ),
            GcrRequestError::RequestTooLarge => "Request was too large to ever be allowed"@,
            GcrRequestError::ParametersOutOfRange(cause) => "Parameters out of range: "@ + cause@,
        }
    }

    /// The error as a line of text.
    pub fn to_string(&self) -> (text: String)
        ensures
            text@ == self.text(),
    {
        match self {
            GcrRequestError::DeniedFor(wait) => {
                let mut text = "Request denied for ".to_owned();
                let length = debug_text(wait);
                text.push_str(length.as_str());
                text
            },
            GcrRequestError::RequestTooLarge => "Request was too large to ever be allowed".to_owned(),
            GcrRequestError::ParametersOutOfRange(cause) => {
                let mut text = "Parameters out of range: ".to_owned();
                text.push_str(cause.as_str());
                text
            },
        }
    }
}

} // verus!
