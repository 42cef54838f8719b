//! From what an admission request holds to its outcome.

use crate::pod::PodSpec;
use crate::settings::Settings;
use crate::validation::{pod_validation, validate_pod, RejectionReason};
use vstd::prelude::*;

verus! {

/// What could be read of the object that asks for admission.
#[derive(Debug, PartialEq, Eq)]
pub enum Extraction {
    /// The request could not be parsed.
    Malformed,
    /// The object carries no pod specification: there is nothing to inspect.
    NoPodSpec,
    /// The pod specification that the object carries.
    PodSpec(PodSpec),
}

/// The outcome of an admission request.
#[derive(Debug, PartialEq, Eq)]
pub enum ValidationOutcome {
    /// The object may enter the cluster.
    Accepted,
    /// The object is refused, with the message for whoever submitted it.
    Rejected(String),
}

/// An outcome as the contracts see it.
pub enum OutcomeView {
    /// The object may enter the cluster.
    Accepted,
    /// The object is refused, with the characters of the message.
    Rejected(Seq<char>),
}

impl View for ValidationOutcome {
    type V = OutcomeView;

    open spec fn view(&self) -> OutcomeView {
        match self {
            ValidationOutcome::Accepted => OutcomeView::Accepted,
            ValidationOutcome::Rejected(message) => OutcomeView::Rejected(message@),
        }
    }
}

/// The message of a rejection for a request that could not be parsed.
pub open spec fn malformed_request_text() -> Seq<char> {
    "Cannot parse validation request"@
}

/// The outcome that the validation of a pod stands for.
pub open spec fn outcome_of(validation: Result<bool, RejectionReason>) -> OutcomeView {
    match validation {
        Ok(_) => OutcomeView::Accepted,
        Err(reason) => OutcomeView::Rejected(reason.text()),
    }
}

/// The outcome of an admission request.
///
/// A request that could not be parsed is refused whatever the settings say.
/// An object without a pod specification is accepted. A pod specification
/// is accepted or refused as [`validate_pod`] finds.
pub open spec fn decision(extraction: Extraction, settings: Settings) -> OutcomeView {
    match extraction {
        Extraction::Malformed => OutcomeView::Rejected(malformed_request_text()),
        Extraction::NoPodSpec => OutcomeView::Accepted,
        Extraction::PodSpec(pod) => outcome_of(pod_validation(pod@, settings)),
    }
}

/// Turns the validation of a pod into an outcome, with the reason's message.
pub fn outcome_from_validation(validation: Result<bool, RejectionReason>) -> (outcome:
    ValidationOutcome)
    ensures
        outcome@ == outcome_of(validation),
{
    match validation {
        Ok(_) => ValidationOutcome::Accepted,
        Err(reason) => ValidationOutcome::Rejected(reason.message()),
    }
}

/// Decides on admission from what was read of an object.
pub fn decide(extraction: &Extraction, settings: &Settings) -> (outcome: ValidationOutcome)
    ensures
        outcome@ == decision(*extraction, *settings),
{
    match extraction {
        Extraction::Malformed => ValidationOutcome::Rejected(
            "Cannot parse validation request".to_owned(),
        ),
        Extraction::NoPodSpec => ValidationOutcome::Accepted,
        Extraction::PodSpec(pod) => outcome_from_validation(validate_pod(pod, settings)),
    }
}

} // verus!
