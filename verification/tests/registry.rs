use nix_health::info::NixInfo;
use nix_health::registry::{CheckEntry, Registry};
use nix_health::report::{Report, Severity};
use nix_health::version::NixVersion;

fn entry(major: u64, minor: u64, patch: u64) -> CheckEntry {
    CheckEntry::MinNixVersion { min_required: NixVersion::new(major, minor, patch) }
}

#[test]
fn empty_registry_is_green_with_no_results() {
    let registry = Registry::new();
    let outcome = registry.run(&NixInfo::new(NixVersion::new(2, 12, 0)));
    assert!(outcome.results.is_empty());
    assert_eq!(outcome.overall_severity, Severity::Green);
}

#[test]
fn default_registry_runs_the_minimum_version_check() {
    let registry = Registry::with_default_checks();
    let outcome = registry.run(&NixInfo::new(NixVersion::new(2, 13, 0)));
    assert_eq!(outcome.results.len(), 1);
    assert_eq!(outcome.results[0].name, "Minimum Nix Version");
    assert_eq!(outcome.results[0].report, Report::Green);
    assert_eq!(outcome.overall_severity, Severity::Green);
}

#[test]
fn mixed_registry_is_red_and_keeps_registration_order() {
    let mut registry = Registry::new();
    registry.register(entry(2, 13, 0));
    registry.register(entry(3, 0, 0));
    let outcome = registry.run(&NixInfo::new(NixVersion::new(2, 15, 2)));
    assert_eq!(outcome.overall_severity, Severity::Red);
    assert_eq!(outcome.results.len(), 2);
    assert_eq!(outcome.results[0].report, Report::Green);
    assert!(matches!(outcome.results[1].report, Report::Red(_)));
}

#[test]
fn order_is_registration_order_not_severity_order() {
    // The red entry is registered first: it must stay first in the output.
    let mut registry = Registry::new();
    registry.register(entry(3, 0, 0));
    registry.register(entry(2, 13, 0));
    let outcome = registry.run(&NixInfo::new(NixVersion::new(2, 15, 2)));
    assert_eq!(outcome.results.len(), 2);
    assert!(matches!(outcome.results[0].report, Report::Red(_)));
    assert_eq!(outcome.results[1].report, Report::Green);
    assert_eq!(outcome.overall_severity, Severity::Red);
}

#[test]
fn all_green_registry_is_green_overall() {
    let mut registry = Registry::new();
    registry.register(entry(2, 0, 0));
    registry.register(entry(2, 13, 0));
    registry.register(entry(2, 15, 2));
    let outcome = registry.run(&NixInfo::new(NixVersion::new(2, 15, 2)));
    assert_eq!(outcome.overall_severity, Severity::Green);
    assert_eq!(outcome.results.len(), 3);
    for result in outcome.results.iter() {
        assert_eq!(result.report, Report::Green);
    }
}

#[test]
fn any_red_makes_the_overall_red() {
    let mut registry = Registry::new();
    registry.register(entry(2, 0, 0));
    registry.register(entry(9, 9, 9));
    registry.register(entry(2, 13, 0));
    let outcome = registry.run(&NixInfo::new(NixVersion::new(2, 15, 2)));
    assert_eq!(outcome.overall_severity, Severity::Red);
}

#[test]
fn run_twice_is_identical() {
    let mut registry = Registry::new();
    registry.register(entry(2, 13, 0));
    registry.register(entry(3, 0, 0));
    let info = NixInfo::new(NixVersion::new(2, 12, 0));
    let first = registry.run(&info);
    let second = registry.run(&info);
    assert_eq!(first, second);
}

#[test]
fn severity_max_table() {
    assert_eq!(Severity::Green.max(Severity::Green), Severity::Green);
    assert_eq!(Severity::Green.max(Severity::Yellow), Severity::Yellow);
    assert_eq!(Severity::Yellow.max(Severity::Green), Severity::Yellow);
    assert_eq!(Severity::Yellow.max(Severity::Red), Severity::Red);
    assert_eq!(Severity::Red.max(Severity::Yellow), Severity::Red);
    assert_eq!(Severity::Red.max(Severity::Green), Severity::Red);
    assert_eq!(Severity::Green.max(Severity::Red), Severity::Red);
}
