//! The options of the policy.

use vstd::prelude::*;

verus! {

/// Which container collections the policy leaves uninspected.
///
/// Regular containers cannot be skipped. The two switches are independent,
/// and every combination of them is a valid configuration.
#[derive(Clone, Copy, Debug, PartialEq, Eq)]
pub struct Settings {
    /// Do not inspect the init containers of a pod.
    pub skip_init_containers: bool,
    /// Do not inspect the ephemeral containers of a pod.
    pub skip_ephemeral_containers: bool,
}

impl Settings {
    /// Checks the settings for consistency. There is nothing to enforce
    /// between the two switches, so every value passes.
    pub fn validate(&self) -> (checked: Result<(), String>)
        ensures
            checked == Ok::<(), String>(()),
    {
        Ok(())
    }
}

impl Default for Settings {
    /// Nothing is skipped by default.
    fn default() -> (settings: Settings)
        ensures
            !settings.skip_init_containers,
            !settings.skip_ephemeral_containers,
    {
        Settings { skip_init_containers: false, skip_ephemeral_containers: false }
    }
}

} // verus!
