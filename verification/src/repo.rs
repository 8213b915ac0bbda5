//! Validity of the repository the program is pointed at.
//!
//! Probing the path — trying to open it as a repository — is
//! filesystem work done by the repository layer; the decision on the
//! probe's outcome is made here.

use vstd::prelude::*;

verus! {

/// What probing a path reported: whether a repository opened there at
/// all, and whether it is bare.
#[derive(Clone, Copy, Debug, PartialEq, Eq, Structural)]
pub struct RepoProbe {
    pub found: bool,
    pub bare: bool,
}

/// A path is one the program can run inside exactly when the probe
/// found a repository and that repository is not bare.
pub fn valid_path(probe: &RepoProbe) -> (r: bool)
    ensures
        r == (probe.found && !probe.bare),
{
    probe.found && !probe.bare
}

} // verus!
