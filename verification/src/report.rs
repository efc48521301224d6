//! Severity-tagged check outcomes.

use vstd::prelude::*;

verus! {

/// The severity of a check outcome, ordered `Green < Yellow < Red`.
#[derive(Clone, Copy, Debug, PartialEq, Eq, Structural, Hash)]
pub enum Severity {
    Green,
    Yellow,
    Red,
}

/// The numeric rank behind the severity order.
pub open spec fn severity_rank(s: Severity) -> nat {
    match s {
        Severity::Green => 0,
        Severity::Yellow => 1,
        Severity::Red => 2,
    }
}

/// The severity order `Green < Yellow < Red`, inclusively.
pub open spec fn severity_le(a: Severity, b: Severity) -> bool {
    severity_rank(a) <= severity_rank(b)
}

/// The larger of two severities under `Green < Yellow < Red`.
pub open spec fn severity_max(a: Severity, b: Severity) -> Severity {
    if severity_rank(a) >= severity_rank(b) {
        a
    } else {
        b
    }
}

impl Severity {
    /// The larger of two severities.
    pub fn max(self, other: Severity) -> (r: Severity)
        ensures
            r == severity_max(self, other),
    {
        match (self, other) {
            (Severity::Red, _) => Severity::Red,
            (_, Severity::Red) => Severity::Red,
            (Severity::Yellow, _) => Severity::Yellow,
            (_, Severity::Yellow) => Severity::Yellow,
            (Severity::Green, Severity::Green) => Severity::Green,
        }
    }
}

/// The diagnostic payload of a non-green report: a human-readable message
/// and an optional remediation suggestion.
#[derive(Clone, Debug, PartialEq, Eq)]
pub struct Details {
    pub message: String,
    pub suggestion: Option<String>,
}

/// The mathematical value of a [`Details`]: its texts as character sequences.
pub struct DetailsModel {
    pub message: Seq<char>,
    pub suggestion: Option<Seq<char>>,
}

impl View for Details {
    type V = DetailsModel;

    open spec fn view(&self) -> DetailsModel {
        DetailsModel {
            message: self.message@,
            suggestion: match self.suggestion {
                Some(s) => Some(s@),
                None => None,
            },
        }
    }
}

/// The verdict of one check: a closed set of severity-tagged outcomes.
/// `Green` carries no payload; `Yellow` and `Red` carry diagnostics.
#[derive(Clone, Debug, PartialEq, Eq)]
pub enum Report {
    Green,
    Yellow(Details),
    Red(Details),
}

/// The mathematical value of a [`Report`].
pub enum ReportModel {
    Green,
    Yellow(DetailsModel),
    Red(DetailsModel),
}

impl View for Report {
    type V = ReportModel;

    open spec fn view(&self) -> ReportModel {
        match self {
            Report::Green => ReportModel::Green,
            Report::Yellow(d) => ReportModel::Yellow(d@),
            Report::Red(d) => ReportModel::Red(d@),
        }
    }
}

/// The severity tag of a report.
pub open spec fn report_severity(r: ReportModel) -> Severity {
    match r {
        ReportModel::Green => Severity::Green,
        ReportModel::Yellow(_) => Severity::Yellow,
        ReportModel::Red(_) => Severity::Red,
    }
}

impl Report {
    /// The severity tag of this report.
    pub fn severity(&self) -> (s: Severity)
        ensures
            s == report_severity(self@),
    {
        match self {
            Report::Green => Severity::Green,
            Report::Yellow(_) => Severity::Yellow,
            Report::Red(_) => Severity::Red,
        }
    }
}

} // verus!
