//! The contract every diagnostic check implements.

use vstd::prelude::*;

use crate::info::NixInfo;
use crate::report::{Report, ReportModel};

verus! {

/// A self-contained diagnostic unit.
///
/// A check is constructed from a snapshot, copies out every fact it needs
/// at construction time, and renders its verdict on demand.  Construction
/// and reporting are total and deterministic: `check` is a pure function
/// of the snapshot, and `report` is a pure function of the captured state,
/// so it may be called arbitrarily many times with the same outcome.
/// Failure is expressed as data (a non-green [`Report`]), never as a panic.
pub trait Check: Sized {
    /// The display name of this check kind; it does not vary across
    /// instances.
    spec fn spec_name() -> Seq<char>;

    /// The value `check` constructs from a given snapshot.
    spec fn spec_check(info: NixInfo) -> Self;

    /// The verdict this check renders from its captured state.
    spec fn spec_report(&self) -> ReportModel;

    /// Constructs the check from a snapshot, capturing the facts it needs.
    fn check(info: &NixInfo) -> (c: Self)
        ensures
            c == Self::spec_check(*info),
    ;

    /// The stable identifier of this check, used for display and matching.
    fn name(&self) -> (n: &'static str)
        ensures
            n@ == Self::spec_name(),
    ;

    /// Renders the verdict; deterministic in the captured state.
    fn report(&self) -> (r: Report)
        ensures
            r@ == self.spec_report(),
    ;
}

} // verus!
