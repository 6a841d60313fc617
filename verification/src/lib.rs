//! A test-execution engine for hardware validation suites.
//!
//! A suite is an ordered list of named checks. Each check declares the
//! conclusion its author expects of it; the engine runs the checks one after
//! another, reconciles what happened with what was expected, and collates the
//! results into a report for a terminal or for other tooling.

pub mod cmd;
pub mod json;
pub mod report;
pub mod tester;
pub mod text;
pub mod types;
