//! The environment snapshot every check is constructed from.

use vstd::prelude::*;

use crate::version::NixVersion;

verus! {

/// An immutable aggregate of the facts gathered about the environment at
/// one point in time.  It is produced by an external collaborator before
/// the checks run and is treated as a pure input here; it is never mutated
/// and lives for exactly one aggregation run.
#[derive(Clone, Copy, Debug, PartialEq, Eq, Structural)]
pub struct NixInfo {
    /// The installed Nix version.
    pub nix_version: NixVersion,
}

impl NixInfo {
    pub fn new(nix_version: NixVersion) -> (info: NixInfo)
        ensures
            info == (NixInfo { nix_version }),
    {
        NixInfo { nix_version }
    }
}

} // verus!
