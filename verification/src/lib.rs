//! Health-check framework for diagnosing a local Nix installation.
//!
//! The crate models environment facts (such as the installed Nix version),
//! a snapshot of those facts, independent diagnostic checks evaluated
//! against one snapshot, severity-tagged reports, and a registry that runs
//! every registered check and aggregates the reports into one ordered,
//! severity-ranked outcome.  The core is pure: gathering the snapshot and
//! rendering the outcome belong to the callers.
pub mod check;
pub mod info;
pub mod min_nix_version;
pub mod registry;
pub mod report;
pub mod text;
pub mod version;
