//! The text of the errors.

use gcr::schedule::Fault;
use gcr::GcrCreationError;
use gcr::GcrRequestError;
use std::time::Duration;

#[test]
fn creation_error_text() {
    let error = GcrCreationError::ParametersOutOfRange("the cause".to_string());
    assert_eq!(error.to_string(), "Parameters out of range: the cause");
    assert_eq!(
        GcrCreationError::ParametersOutOfRange(String::new()).to_string(),
        "Parameters out of range: "
    );
}

#[test]
fn request_error_text() {
    assert_eq!(
        GcrRequestError::RequestTooLarge.to_string(),
        "Request was too large to ever be allowed"
    );
    assert_eq!(
        GcrRequestError::ParametersOutOfRange("the cause".to_string()).to_string(),
        "Parameters out of range: the cause"
    );
}

#[test]
fn denial_text_shows_the_wait() {
    assert_eq!(
        GcrRequestError::DeniedFor(Duration::from_secs(1)).to_string(),
        "Request denied for 1s"
    );
    assert_eq!(
        GcrRequestError::DeniedFor(Duration::from_millis(1_500)).to_string(),
        "Request denied for 1.5s"
    );
    assert_eq!(
        GcrRequestError::DeniedFor(Duration::from_millis(250)).to_string(),
        "Request denied for 250ms"
    );
    assert_eq!(
        GcrRequestError::DeniedFor(Duration::from_nanos(1)).to_string(),
        "Request denied for 1ns"
    );
    let wait = Duration::new(3, 7);
    assert_eq!(
        GcrRequestError::DeniedFor(wait).to_string(),
        format!("Request denied for {:?}", wait)
    );
}

#[test]
fn fault_messages() {
    assert_eq!(
        Fault::RateZero.message(),
        "duration division failed: supplied rate was zero"
    );
    assert_eq!(
        Fault::IntervalZero.message(),
        "duration division failed: period / rate was zero"
    );
    assert_eq!(
        Fault::ToleranceTooLarge.message(),
        "interval subtraction failed: max_burst * (period / rate) was too large"
    );
    assert_eq!(
        Fault::RescaleTooLarge.message(),
        "interval subtraction failed: emission_interval was too large"
    );
}

#[test]
fn errors_from_faults() {
    assert_eq!(
        GcrCreationError::from_fault(Fault::RateZero),
        GcrCreationError::ParametersOutOfRange(Fault::RateZero.message())
    );
    assert_eq!(
        GcrCreationError::from_fault(Fault::RescaleTooLarge),
        GcrCreationError::ParametersOutOfRange(
            "interval subtraction failed: emission_interval was too large".to_string()
        )
    );
    assert_eq!(
        GcrCreationError::from_fault(Fault::ToleranceTooLarge).to_string(),
        "Parameters out of range: interval subtraction failed: max_burst * (period / rate) was too large"
    );
}

#[test]
fn errors_clone_and_compare() {
    let denied = GcrRequestError::DeniedFor(Duration::from_millis(5));
    assert_eq!(denied.clone(), denied);
    assert_ne!(denied, GcrRequestError::DeniedFor(Duration::from_millis(6)));
    assert_ne!(denied, GcrRequestError::RequestTooLarge);
    assert_eq!(GcrRequestError::RequestTooLarge.clone(), GcrRequestError::RequestTooLarge);
    let range = GcrRequestError::ParametersOutOfRange("a".to_string());
    assert_eq!(range.clone(), range);
    let creation = GcrCreationError::ParametersOutOfRange("b".to_string());
    assert_eq!(creation.clone(), creation);
    assert_ne!(creation, GcrCreationError::ParametersOutOfRange("c".to_string()));
}
