//! The part of a pod that the policy reads.
//!
//! Only the `privileged` flag of each container's security context matters
//! here, so the types keep that and nothing else.

use vstd::prelude::*;

verus! {

/// The security options of one container.
#[derive(Clone, Copy, Debug, Default, PartialEq, Eq)]
pub struct SecurityContext {
    /// Whether the container asks to run privileged. `None` when the
    /// manifest leaves the flag out.
    pub privileged: Option<bool>,
}

/// A regular container or an init container.
#[derive(Clone, Copy, Debug, Default, PartialEq, Eq)]
pub struct Container {
    /// `None` when the manifest gives the container no security context.
    pub security_context: Option<SecurityContext>,
}

/// A container attached to a running pod for a short time.
#[derive(Clone, Copy, Debug, Default, PartialEq, Eq)]
pub struct EphemeralContainer {
    /// `None` when the manifest gives the container no security context.
    pub security_context: Option<SecurityContext>,
}

/// The containers of a pod, collection by collection, each in manifest order.
#[derive(Debug, Default, PartialEq, Eq)]
pub struct PodSpec {
    /// The regular containers. May be empty.
    pub containers: Vec<Container>,
    /// The init containers, `None` when the manifest has no such list.
    pub init_containers: Option<Vec<Container>>,
    /// The ephemeral containers, `None` when the manifest has no such list.
    pub ephemeral_containers: Option<Vec<EphemeralContainer>>,
}

/// A pod as the contracts see it: sequences in place of vectors.
pub struct PodSpecView {
    /// The regular containers.
    pub containers: Seq<Container>,
    /// The init containers, `None` when the pod has no such list.
    pub init_containers: Option<Seq<Container>>,
    /// The ephemeral containers, `None` when the pod has no such list.
    pub ephemeral_containers: Option<Seq<EphemeralContainer>>,
}

impl View for PodSpec {
    type V = PodSpecView;

    open spec fn view(&self) -> PodSpecView {
        PodSpecView {
            containers: self.containers@,
            init_containers: match self.init_containers {
                Some(list) => Some(list@),
                None => None,
            },
            ephemeral_containers: match self.ephemeral_containers {
                Some(list) => Some(list@),
                None => None,
            },
        }
    }
}

/// Whatever runs in a pod under an optional security context.
pub trait ContainerLike {
    /// The security context that the contracts speak of.
    spec fn security(&self) -> Option<SecurityContext>;

    /// The security context of this container, if it has one.
    fn security_context(&self) -> (context: Option<SecurityContext>)
        ensures
            context == self.security(),
    ;
}

impl ContainerLike for Container {
    open spec fn security(&self) -> Option<SecurityContext> {
        self.security_context
    }

    fn security_context(&self) -> (context: Option<SecurityContext>) {
        self.security_context
    }
}

impl ContainerLike for EphemeralContainer {
    open spec fn security(&self) -> Option<SecurityContext> {
        self.security_context
    }

    fn security_context(&self) -> (context: Option<SecurityContext>) {
        self.security_context
    }
}

} // verus!
