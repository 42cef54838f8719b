//! The rule of the policy: no container of an inspected collection may run
//! privileged.

use crate::pod::{Container, ContainerLike, EphemeralContainer, PodSpec, PodSpecView};
use crate::settings::Settings;
use vstd::prelude::*;

verus! {

/// A container runs privileged when it has a security context whose
/// `privileged` flag is present and set. A missing context and a missing
/// flag both count as not privileged.
pub open spec fn privileged<C: ContainerLike>(container: C) -> bool {
    match container.security() {
        Some(context) => context.privileged == Some(true),
        None => false,
    }
}

/// Some container of the sequence runs privileged.
pub open spec fn any_privileged<C: ContainerLike>(containers: Seq<C>) -> bool {
    exists|i: int| 0 <= i < containers.len() && privileged(#[trigger] containers[i])
}

/// The collection is present and some container of it runs privileged.
pub open spec fn any_privileged_in<C: ContainerLike>(containers: Option<Seq<C>>) -> bool {
    match containers {
        Some(list) => any_privileged(list),
        None => false,
    }
}

/// Why a pod is refused.
#[derive(Clone, Copy, Debug, PartialEq, Eq)]
pub enum RejectionReason {
    /// A regular container runs privileged.
    PrivilegedContainer,
    /// An init container runs privileged and init containers are inspected.
    PrivilegedInitContainer,
    /// An ephemeral container runs privileged and ephemeral containers are
    /// inspected.
    PrivilegedEphemeralContainer,
}

impl RejectionReason {
    /// The text shown to whoever submitted the pod.
    pub open spec fn text(self) -> Seq<char> {
        match self {
            RejectionReason::PrivilegedContainer => "Privileged container is not allowed"@,
            RejectionReason::PrivilegedInitContainer => "Privileged init container is not allowed"@,
            RejectionReason::PrivilegedEphemeralContainer =>
                "Privileged ephemeral container is not allowed"@,
        }
    }

    /// The text shown to whoever submitted the pod.
    pub fn message(&self) -> (message: String)
        ensures
            message@ == self.text(),
    {
        match self {
            RejectionReason::PrivilegedContainer => "Privileged container is not allowed".to_owned(),
            RejectionReason::PrivilegedInitContainer =>
                "Privileged init container is not allowed".to_owned(),
            RejectionReason::PrivilegedEphemeralContainer =>
                "Privileged ephemeral container is not allowed".to_owned(),
        }
    }
}

/// The first rule that a pod breaks, if it breaks any.
///
/// The collections are taken in a fixed order: regular containers, then
/// init containers, then ephemeral containers. A skipped collection and an
/// absent one break no rule.
pub open spec fn first_violation(pod: PodSpecView, settings: Settings) -> Option<RejectionReason> {
    if any_privileged(pod.containers) {
        Some(RejectionReason::PrivilegedContainer)
    } else if !settings.skip_init_containers && any_privileged_in(pod.init_containers) {
        Some(RejectionReason::PrivilegedInitContainer)
    } else if !settings.skip_ephemeral_containers && any_privileged_in(pod.ephemeral_containers) {
        Some(RejectionReason::PrivilegedEphemeralContainer)
    } else {
        None
    }
}

/// What [`validate_pod`] returns for a pod and settings.
pub open spec fn pod_validation(pod: PodSpecView, settings: Settings) -> Result<bool, RejectionReason> {
    match first_violation(pod, settings) {
        Some(reason) => Err(reason),
        None => Ok(true),
    }
}

/// Tells whether a container runs privileged, whichever collection it is of.
pub fn is_privileged<C: ContainerLike>(container: &C) -> (yes: bool)
    ensures
        yes == privileged(*container),
{
    match container.security_context() {
        Some(context) => context.privileged.unwrap_or(false),
        None => false,
    }
}

/// Accepts a regular or init container unless it runs privileged.
pub fn validate_container(container: &Container) -> (valid: bool)
    ensures
        valid == !privileged(*container),
{
    !is_privileged(container)
}

/// Accepts an ephemeral container unless it runs privileged.
pub fn validate_ephemeral_container(container: &EphemeralContainer) -> (valid: bool)
    ensures
        valid == !privileged(*container),
{
    !is_privileged(container)
}

/// Tells whether some container of a collection runs privileged.
pub fn has_privileged<C: ContainerLike>(containers: &Vec<C>) -> (found: bool)
    ensures
        found == any_privileged(containers@),
{
    let mut i: usize = 0;
    while i < containers.len()
        invariant
            i <= containers.len(),
            forall|j: int| 0 <= j < i ==> !privileged(#[trigger] containers@[j]),
        decreases containers.len() - i,
    {
        if is_privileged(&containers[i]) {
            return true;
        }
        i += 1;
    }
    false
}

/// Checks a pod against the policy.
///
/// Returns `Ok(true)` when no inspected container runs privileged, and
/// otherwise the first rule broken, in the order regular, init, ephemeral.
/// Init and ephemeral containers are inspected only where `settings` does
/// not skip them.
pub fn validate_pod(pod: &PodSpec, settings: &Settings) -> (result: Result<bool, RejectionReason>)
    ensures
        result == pod_validation(pod@, *settings),
{
    if has_privileged(&pod.containers) {
        return Err(RejectionReason::PrivilegedContainer);
    }
    if !settings.skip_init_containers {
        if let Some(init_containers) = &pod.init_containers {
            if has_privileged(init_containers) {
                return Err(RejectionReason::PrivilegedInitContainer);
            }
        }
    }
    if !settings.skip_ephemeral_containers {
        if let Some(ephemeral_containers) = &pod.ephemeral_containers {
            if has_privileged(ephemeral_containers) {
                return Err(RejectionReason::PrivilegedEphemeralContainer);
            }
        }
    }
    Ok(true)
}

} // verus!
