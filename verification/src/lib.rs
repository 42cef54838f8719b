//! Admission policy that refuses privileged containers.
//!
//! A pod is admitted unless one of its containers asks to run privileged.
//! Regular containers are always inspected; init containers and ephemeral
//! containers are inspected unless the [`Settings`] say to skip them.

pub mod decision;
pub mod laws;
pub mod pod;
pub mod response;
pub mod settings;
pub mod validation;

pub use decision::{decide, outcome_from_validation, Extraction, OutcomeView, ValidationOutcome};
pub use pod::{Container, ContainerLike, EphemeralContainer, PodSpec, PodSpecView, SecurityContext};
pub use response::{render, validate, ResponseError};
pub use settings::Settings;
pub use validation::{
    has_privileged, is_privileged, validate_container, validate_ephemeral_container, validate_pod,
    RejectionReason,
};
