//! What holds of the policy for every pod and every configuration.

use crate::decision::{outcome_of, OutcomeView};
use crate::pod::{Container, ContainerLike, EphemeralContainer, PodSpec, PodSpecView, SecurityContext};
use crate::settings::Settings;
use crate::validation::{any_privileged, pod_validation, privileged, RejectionReason};
use vstd::prelude::*;

verus! {

/// A pod without containers is accepted under every configuration: no
/// regular container, and init and ephemeral containers absent or empty.
pub proof fn lemma_empty_pod_is_accepted(pod: PodSpecView, settings: Settings)
    requires
        pod.containers.len() == 0,
        pod.init_containers matches Some(list) ==> list.len() == 0,
        pod.ephemeral_containers matches Some(list) ==> list.len() == 0,
    ensures
        pod_validation(pod, settings) == Ok::<bool, RejectionReason>(true),
        outcome_of(pod_validation(pod, settings)) == OutcomeView::Accepted,
{
}

/// A container is safe by default: it runs privileged exactly when it has
/// a security context whose flag is present and `true`. Without a context,
/// without the flag, or with the flag `false`, it does not.
pub proof fn lemma_privileged_iff_flag_is_true<C: ContainerLike>(container: C)
    ensures
        container.security() is None ==> !privileged(container),
        container.security() == Some(SecurityContext { privileged: None }) ==> !privileged(
            container,
        ),
        container.security() == Some(SecurityContext { privileged: Some(false) }) ==> !privileged(
            container,
        ),
        privileged(container) <==> container.security() == Some(
            SecurityContext { privileged: Some(true) },
        ),
{
}

/// A privileged regular container has the pod refused as such, whatever
/// the other containers are and whatever the configuration skips.
pub proof fn lemma_privileged_container_is_rejected(pod: PodSpecView, settings: Settings)
    requires
        any_privileged(pod.containers),
    ensures
        pod_validation(pod, settings) == Err::<bool, RejectionReason>(
            RejectionReason::PrivilegedContainer,
        ),
        outcome_of(pod_validation(pod, settings)) == OutcomeView::Rejected(
            "Privileged container is not allowed"@,
        ),
{
}

/// Skipped init containers do not count. With any other init containers in
/// their place, or with none, the pod is validated the same.
pub proof fn lemma_skipped_init_containers_are_ignored(
    pod: PodSpecView,
    others: Option<Seq<Container>>,
    settings: Settings,
)
    requires
        settings.skip_init_containers,
    ensures
        pod_validation(PodSpecView { init_containers: others, ..pod }, settings) == pod_validation(
            pod,
            settings,
        ),
{
}

/// Skipped ephemeral containers do not count. With any other ephemeral
/// containers in their place, or with none, the pod is validated the same.
pub proof fn lemma_skipped_ephemeral_containers_are_ignored(
    pod: PodSpecView,
    others: Option<Seq<EphemeralContainer>>,
    settings: Settings,
)
    requires
        settings.skip_ephemeral_containers,
    ensures
        pod_validation(PodSpecView { ephemeral_containers: others, ..pod }, settings) == pod_validation(
            pod,
            settings,
        ),
{
}

/// Validating a pod again gives the same result. The contract of
/// `validate_pod` allows one result for a pod and a configuration, so two
/// calls on pods with the same containers agree.
pub proof fn lemma_validation_is_repeatable(
    first_pod: PodSpec,
    second_pod: PodSpec,
    settings: Settings,
    first: Result<bool, RejectionReason>,
    second: Result<bool, RejectionReason>,
)
    requires
        first_pod@ == second_pod@,
        first == pod_validation(first_pod@, settings),
        second == pod_validation(second_pod@, settings),
    ensures
        first == second,
{
}

} // verus!
