//! The registry of checks and the aggregation of their reports.

use vstd::prelude::*;
use vstd::string::StringExecFns;

use crate::check::Check;
use crate::info::NixInfo;
use crate::min_nix_version::{min_version_report, MinNixVersion};
use crate::report::{report_severity, severity_max, Report, ReportModel, Severity};
use crate::version::NixVersion;

verus! {

/// One registry entry: the recipe for constructing a check from a
/// snapshot.  New check kinds are added as new variants; existing entries
/// are untouched.
#[derive(Clone, Copy, Debug, PartialEq, Eq, Structural)]
pub enum CheckEntry {
    /// Construct a minimum-version check with this inclusive lower bound.
    MinNixVersion { min_required: NixVersion },
}

/// The display name of the check an entry constructs.
pub open spec fn entry_name(e: CheckEntry) -> Seq<char> {
    match e {
        CheckEntry::MinNixVersion { .. } => MinNixVersion::spec_name(),
    }
}

/// The report the check of an entry renders against a snapshot.
pub open spec fn entry_report(e: CheckEntry, info: NixInfo) -> ReportModel {
    match e {
        CheckEntry::MinNixVersion { min_required } => min_version_report(
            info.nix_version,
            min_required,
        ),
    }
}

/// One named outcome of a run: the check's display name paired with its
/// report.
#[derive(Clone, Debug, PartialEq, Eq)]
pub struct NamedResult {
    pub name: String,
    pub report: Report,
}

/// The mathematical value of a [`NamedResult`].
pub struct NamedResultModel {
    pub name: Seq<char>,
    pub report: ReportModel,
}

impl View for NamedResult {
    type V = NamedResultModel;

    open spec fn view(&self) -> NamedResultModel {
        NamedResultModel { name: self.name@, report: self.report@ }
    }
}

/// The values of a sequence of named results.
pub open spec fn results_view(results: Seq<NamedResult>) -> Seq<NamedResultModel> {
    Seq::new(results.len(), |i: int| results[i]@)
}

/// The reports of a sequence of named results.
pub open spec fn reports_of(results: Seq<NamedResultModel>) -> Seq<ReportModel> {
    Seq::new(results.len(), |i: int| results[i].report)
}

/// Whether some report in the sequence is red.
pub open spec fn some_red(rs: Seq<ReportModel>) -> bool {
    exists|i: int| 0 <= i < rs.len() && rs[i] is Red
}

/// Whether some report in the sequence is yellow.
pub open spec fn some_yellow(rs: Seq<ReportModel>) -> bool {
    exists|i: int| 0 <= i < rs.len() && rs[i] is Yellow
}

/// The reduction of many reports to one severity: red if any report is
/// red; else yellow if any report is yellow; else green.  An empty
/// sequence is a vacuous pass.
pub open spec fn overall_of(rs: Seq<ReportModel>) -> Severity {
    if some_red(rs) {
        Severity::Red
    } else if some_yellow(rs) {
        Severity::Yellow
    } else {
        Severity::Green
    }
}

/// The outcome of one aggregation run: the reduced severity beside one
/// named result per registered check, in registration order.
#[derive(Clone, Debug, PartialEq, Eq)]
pub struct AggregateOutcome {
    pub overall_severity: Severity,
    pub results: Vec<NamedResult>,
}

/// The mathematical value of an [`AggregateOutcome`].
pub struct AggregateOutcomeModel {
    pub overall_severity: Severity,
    pub results: Seq<NamedResultModel>,
}

impl View for AggregateOutcome {
    type V = AggregateOutcomeModel;

    open spec fn view(&self) -> AggregateOutcomeModel {
        AggregateOutcomeModel {
            overall_severity: self.overall_severity,
            results: results_view(self.results@),
        }
    }
}

/// The one outcome a run of the given entries against the given snapshot
/// produces: entry `i` yields result `i`, and the overall severity is the
/// reduction of all the reports.
pub open spec fn run_model(entries: Seq<CheckEntry>, info: NixInfo) -> AggregateOutcomeModel {
    let results = Seq::new(
        entries.len(),
        |i: int|
            NamedResultModel { name: entry_name(entries[i]), report: entry_report(entries[i], info) },
    );
    AggregateOutcomeModel { overall_severity: overall_of(reports_of(results)), results }
}

/// An ordered collection of check recipes.  Registration order is
/// significant: `run` reports in this order and never re-sorts.
#[derive(Clone, Debug, PartialEq, Eq)]
pub struct Registry {
    pub entries: Vec<CheckEntry>,
}

/// Constructs the entry's check from the snapshot, renders its report at
/// once, and pairs it with the check's name.
fn run_entry(e: &CheckEntry, info: &NixInfo) -> (nr: NamedResult)
    ensures
        nr@ == (NamedResultModel { name: entry_name(*e), report: entry_report(*e, *info) }),
{
    match e {
        CheckEntry::MinNixVersion { min_required } => {
            let c = MinNixVersion::with_minimum(info, *min_required);
            let name = c.name().to_owned();
            let report = c.report();
            NamedResult { name, report }
        },
    }
}

impl Registry {
    /// An empty registry.
    pub fn new() -> (r: Registry)
        ensures
            r.entries@ == Seq::<CheckEntry>::empty(),
    {
        Registry { entries: Vec::new() }
    }

    /// The registry of this crate's stock checks: the minimum-version
    /// check at its default bound.
    pub fn with_default_checks() -> (r: Registry)
        ensures
            r.entries@ == seq![
                CheckEntry::MinNixVersion { min_required: MinNixVersion::spec_default_minimum() },
            ],
    {
        let mut r = Registry::new();
        r.register(CheckEntry::MinNixVersion { min_required: MinNixVersion::default_minimum() });
        proof {
            assert(r.entries@ =~= seq![
                CheckEntry::MinNixVersion { min_required: MinNixVersion::spec_default_minimum() },
            ]);
        }
        r
    }

    /// Appends one entry; earlier registrations keep their places.
    pub fn register(&mut self, e: CheckEntry)
        ensures
            final(self).entries@ == old(self).entries@.push(e),
    {
        self.entries.push(e);
    }

    /// Runs every registered check against one snapshot: constructs each
    /// check, renders its report, pairs it with the check's name, keeps
    /// registration order, and reduces all reports to one overall
    /// severity.  The run is total and a pure function of the registry
    /// and the snapshot.
    pub fn run(&self, info: &NixInfo) -> (out: AggregateOutcome)
        ensures
            out@ == run_model(self.entries@, *info),
    {
        let ghost model = run_model(self.entries@, *info);
        let mut results: Vec<NamedResult> = Vec::new();
        let mut overall = Severity::Green;
        let n = self.entries.len();
        let mut idx: usize = 0;
        while idx < n
            invariant
                n == self.entries@.len(),
                idx <= n,
                results@.len() == idx,
                forall|i: int| 0 <= i < idx ==> results@[i]@ == model.results[i],
                overall == overall_of(reports_of(results_view(results@))),
                model == run_model(self.entries@, *info),
            decreases n - idx,
        {
            let nr = run_entry(&self.entries[idx], info);
            let sev = nr.report.severity();
            proof {
                let before = results_view(results@);
                let after = results_view(results@.push(nr));
                assert(after =~= before.push(nr@));
                assert(reports_of(after) =~= reports_of(before).push(nr@.report));
                lemma_overall_push(reports_of(before), nr@.report);
            }
            overall = overall.max(sev);
            results.push(nr);
            idx = idx + 1;
        }
        let out = AggregateOutcome { overall_severity: overall, results };
        proof {
            assert(out@.results =~= model.results);
            assert(reports_of(out@.results) =~= reports_of(model.results));
        }
        out
    }
}

/// Appending one report to a sequence raises the reduced severity to the
/// maximum of the old reduction and the new report's severity.
proof fn lemma_overall_push(rs: Seq<ReportModel>, r: ReportModel)
    ensures
        overall_of(rs.push(r)) == severity_max(overall_of(rs), report_severity(r)),
{
    let rs2 = rs.push(r);
    assert(some_red(rs2) <==> (some_red(rs) || r is Red)) by {
        if some_red(rs2) {
            let i = choose|i: int| 0 <= i < rs2.len() && rs2[i] is Red;
            if i < rs.len() {
                assert(rs[i] is Red);
            } else {
                assert(rs2[i] == r);
            }
        }
        if some_red(rs) {
            let i = choose|i: int| 0 <= i < rs.len() && rs[i] is Red;
            assert(rs2[i] is Red);
        }
        if r is Red {
            assert(rs2[rs.len() as int] is Red);
        }
    }
    assert(some_yellow(rs2) <==> (some_yellow(rs) || r is Yellow)) by {
        if some_yellow(rs2) {
            let i = choose|i: int| 0 <= i < rs2.len() && rs2[i] is Yellow;
            if i < rs.len() {
                assert(rs[i] is Yellow);
            } else {
                assert(rs2[i] == r);
            }
        }
        if some_yellow(rs) {
            let i = choose|i: int| 0 <= i < rs.len() && rs[i] is Yellow;
            assert(rs2[i] is Yellow);
        }
        if r is Yellow {
            assert(rs2[rs.len() as int] is Yellow);
        }
    }
}

/// The aggregator preserves registration order in its output, whatever
/// the individual severities are: result `i` of a run carries the name
/// and the report of entry `i`, and there is one result per entry.
pub proof fn lemma_run_preserves_registration_order(entries: Seq<CheckEntry>, info: NixInfo)
    ensures
        run_model(entries, info).results.len() == entries.len(),
        forall|i: int|
            0 <= i < entries.len() ==> run_model(entries, info).results[i]
                == (NamedResultModel {
                name: entry_name(entries[i]),
                report: entry_report(entries[i], info),
            }),
{
}

/// The reduced severity follows the reports exactly: it is red when and
/// only when some report is red; else yellow when and only when some
/// report is yellow; green exactly when no report is red or yellow.
pub proof fn lemma_overall_severity_cases(rs: Seq<ReportModel>)
    ensures
        (overall_of(rs) == Severity::Red <==> some_red(rs)),
        (overall_of(rs) == Severity::Yellow <==> (!some_red(rs) && some_yellow(rs))),
        (overall_of(rs) == Severity::Green <==> (!some_red(rs) && !some_yellow(rs))),
{
}

/// Running the same registry against the same snapshot twice yields
/// identical outcomes: `run`'s contract pins the outcome's whole value,
/// so two runs agree result by result and in the overall severity.
pub proof fn lemma_run_idempotent(
    entries: Seq<CheckEntry>,
    info: NixInfo,
    first: AggregateOutcomeModel,
    second: AggregateOutcomeModel,
)
    requires
        first == run_model(entries, info),
        second == run_model(entries, info),
    ensures
        first == second,
        first.overall_severity == second.overall_severity,
        first.results == second.results,
{
}

/// An empty registry produces an empty result list and the vacuous
/// overall severity green.
pub proof fn lemma_empty_registry_is_green(info: NixInfo)
    ensures
        run_model(Seq::<CheckEntry>::empty(), info).results == Seq::<NamedResultModel>::empty(),
        run_model(Seq::<CheckEntry>::empty(), info).overall_severity == Severity::Green,
{
    let model = run_model(Seq::<CheckEntry>::empty(), info);
    assert(model.results =~= Seq::<NamedResultModel>::empty());
    assert(!some_red(reports_of(model.results)));
    assert(!some_yellow(reports_of(model.results)));
}

} // verus!
