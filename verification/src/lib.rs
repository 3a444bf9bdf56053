//! A preflight-validation engine: a fixed catalog of named diagnostic
//! checks, each backed by a shell command, is run and every outcome is
//! classified as a success, a warning, or a failure, then rendered as a
//! stable, human-readable report.
//!
//! The crate holds the pure core: the check catalog, the three-way outcome
//! classifier, the result aggregation that orders a report by the catalog,
//! and the rendering of each report block. Spawning the probe processes and
//! printing the report are left to the surrounding program.

pub mod cli;
pub mod commands;
pub mod probe;
pub mod report;
pub mod validation;
