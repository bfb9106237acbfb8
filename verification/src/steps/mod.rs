//! Provisioning steps.

use vstd::prelude::*;

pub mod file;

verus! {

/// A file that cloud-init writes.
#[derive(Debug)]
pub struct CloudInitFile {
    pub path: String,
    pub content: String,
    pub permissions: Option<String>,
    pub owner: Option<String>,
}

/// What a step adds to a cloud-init configuration.
#[derive(Debug)]
pub struct CloudInitFragment {
    /// The files that are written.
    pub write_files: Vec<CloudInitFile>,
}

impl Default for CloudInitFragment {
    /// A fragment that adds nothing.
    fn default() -> (fragment: CloudInitFragment)
        ensures
            fragment.write_files@.len() == 0,
    {
        CloudInitFragment { write_files: Vec::new() }
    }
}

/// A provisioning step, which can be carried out by cloud-init or by bash.
pub trait Step {
    /// Whether the step is small enough to be written as bash.
    spec fn fits(&self) -> bool;

    /// What the step does, in words.
    fn description(&self) -> &str;

    /// The step as part of a cloud-init configuration.
    fn to_cloud_init(&self) -> CloudInitFragment;

    /// The step as bash commands.
    fn to_bash(&self) -> Vec<String>
        requires
            self.fits(),
    ;

    /// A bash command that succeeds if the step need not be carried out.
    fn check_command(&self) -> Option<String>
        requires
            self.fits(),
    ;
}

} // verus!
