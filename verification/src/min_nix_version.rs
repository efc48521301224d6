//! The minimum-version gate: checks that the installed Nix version meets
//! an inclusive lower bound.

use vstd::prelude::*;
use vstd::string::StringExecFns;

use crate::check::Check;
use crate::info::NixInfo;
use crate::report::{Details, DetailsModel, Report, ReportModel};
use crate::version::{version_le, version_lt, version_seq, NixVersion};

verus! {

/// Checks that the Nix version captured from the snapshot is at least a
/// configured minimum.  Equality at the minimum is a pass.
#[derive(Clone, Copy, Debug, PartialEq, Eq, Structural)]
pub struct MinNixVersion {
    /// The version copied out of the snapshot at construction.
    pub version: NixVersion,
    /// The inclusive lower bound the captured version must meet.
    pub min_required: NixVersion,
}

/// The message a failing minimum-version check carries: both the captured
/// and the minimum version appear in `MAJOR.MINOR.PATCH` form.
pub open spec fn too_old_message(v: NixVersion, min: NixVersion) -> Seq<char> {
    "installed version ("@ + version_seq(v) + ") is too old; minimum required is "@ + version_seq(
        min,
    )
}

/// The fixed upgrade pointer suggested when the check fails.
pub open spec fn upgrade_suggestion() -> Seq<char> {
    "See https://nixos.org/manual/nix/stable/command-ref/new-cli/nix3-upgrade-nix.html"@
}

/// The verdict of a minimum-version check: green when the captured version
/// meets the inclusive minimum, else red with a message naming both
/// versions and a fixed upgrade suggestion.
pub open spec fn min_version_report(v: NixVersion, min: NixVersion) -> ReportModel {
    if version_le(min, v) {
        ReportModel::Green
    } else {
        ReportModel::Red(
            DetailsModel { message: too_old_message(v, min), suggestion: Some(upgrade_suggestion()) },
        )
    }
}

impl MinNixVersion {
    /// The default inclusive lower bound of this check.
    pub open spec fn spec_default_minimum() -> NixVersion {
        NixVersion { major: 2, minor: 13, patch: 0 }
    }

    /// The default inclusive lower bound of this check: version 2.13.0.
    pub fn default_minimum() -> (v: NixVersion)
        ensures
            v == MinNixVersion::spec_default_minimum(),
    {
        NixVersion::new(2, 13, 0)
    }

    /// Constructs the check against an explicit minimum, capturing the
    /// version fact from the snapshot.
    pub fn with_minimum(info: &NixInfo, min_required: NixVersion) -> (c: MinNixVersion)
        ensures
            c == (MinNixVersion { version: info.nix_version, min_required }),
    {
        MinNixVersion { version: info.nix_version, min_required }
    }
}

impl Check for MinNixVersion {
    open spec fn spec_name() -> Seq<char> {
        "Minimum Nix Version"@
    }

    open spec fn spec_check(info: NixInfo) -> MinNixVersion {
        MinNixVersion {
            version: info.nix_version,
            min_required: MinNixVersion::spec_default_minimum(),
        }
    }

    open spec fn spec_report(&self) -> ReportModel {
        min_version_report(self.version, self.min_required)
    }

    fn check(info: &NixInfo) -> (c: MinNixVersion) {
        MinNixVersion::with_minimum(info, MinNixVersion::default_minimum())
    }

    fn name(&self) -> (n: &'static str) {
        "Minimum Nix Version"
    }

    fn report(&self) -> (r: Report) {
        if self.min_required.le(&self.version) {
            Report::Green
        } else {
            let mut message = "installed version (".to_owned();
            let captured = self.version.to_text();
            message.append(captured.as_str());
            message.append(") is too old; minimum required is ");
            let minimum = self.min_required.to_text();
            message.append(minimum.as_str());
            let suggestion =
                "See https://nixos.org/manual/nix/stable/command-ref/new-cli/nix3-upgrade-nix.html".to_owned();
            proof {
                assert(message@ =~= too_old_message(self.version, self.min_required));
            }
            Report::Red(Details { message, suggestion: Some(suggestion) })
        }
    }
}

/// A captured version equal to the configured minimum is a pass: the
/// check reports green (the lower bound is inclusive).
pub proof fn lemma_equal_version_is_green(v: NixVersion)
    ensures
        min_version_report(v, v) == ReportModel::Green,
{
}

/// A captured version strictly above the configured minimum reports green.
pub proof fn lemma_greater_version_is_green(v: NixVersion, min: NixVersion)
    requires
        version_lt(min, v),
    ensures
        min_version_report(v, min) == ReportModel::Green,
{
}

/// A captured version strictly below the configured minimum reports red,
/// and the message carries both the captured and the minimum version in
/// `MAJOR.MINOR.PATCH` form, beside the fixed upgrade suggestion.
pub proof fn lemma_older_version_is_red(v: NixVersion, min: NixVersion)
    requires
        version_lt(v, min),
    ensures
        min_version_report(v, min) matches ReportModel::Red(d) && d.message == "installed version ("@
            + version_seq(v) + ") is too old; minimum required is "@ + version_seq(min)
            && d.suggestion == Some(upgrade_suggestion()),
{
    crate::version::lemma_version_trichotomy(v, min);
}

} // verus!
