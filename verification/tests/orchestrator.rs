use dappctl::commands::{cmd_ops, CmdOp};
use dappctl::probe::{DappOutput, ExecutableError};
use dappctl::validation::{validate_all, ValidationResult};

fn ok(success: bool, stderr: &str) -> Result<DappOutput, ExecutableError<'static>> {
    Ok(DappOutput { success, stderr: stderr.to_string() })
}

#[test]
fn report_has_one_pair_per_check() {
    let catalog = cmd_ops();
    let mut results: Vec<(CmdOp, Result<DappOutput, ExecutableError>)> = Vec::new();
    for (i, op) in catalog.iter().enumerate() {
        results.push((*op, ok(i % 2 == 0, "")));
    }
    let report = validate_all(&catalog, &results);
    assert_eq!(report.len(), catalog.len());
    for (i, (op, _)) in report.iter().enumerate() {
        assert_eq!(*op, catalog[i]);
    }
}

#[test]
fn empty_catalog_yields_empty_report() {
    let catalog: Vec<CmdOp> = Vec::new();
    let results: Vec<(CmdOp, Result<DappOutput, ExecutableError>)> = Vec::new();
    let report = validate_all(&catalog, &results);
    assert!(report.is_empty());
}

#[test]
fn report_counts_failures_and_launch_errors_alike() {
    let catalog = vec![CmdOp::DockerInstalled, CmdOp::DockerRunning, CmdOp::KubectlInstalled];
    let results: Vec<(CmdOp, Result<DappOutput, ExecutableError>)> = vec![
        (CmdOp::DockerInstalled, ok(false, "not installed")),
        (CmdOp::DockerRunning, Err(ExecutableError::IOError { msg: "spawn failed" })),
        (CmdOp::KubectlInstalled, ok(true, "")),
    ];
    let report = validate_all(&catalog, &results);
    assert_eq!(report.len(), 3);
}

#[test]
fn completion_order_does_not_change_the_report() {
    let catalog = cmd_ops();
    let mut arrival_one: Vec<(CmdOp, Result<DappOutput, ExecutableError>)> = Vec::new();
    for (i, op) in catalog.iter().enumerate() {
        let stderr = if i % 3 == 0 { "noise" } else { "" };
        arrival_one.push((*op, ok(i % 2 == 0, stderr)));
    }
    let mut arrival_two: Vec<(CmdOp, Result<DappOutput, ExecutableError>)> = Vec::new();
    for (i, op) in catalog.iter().enumerate().rev() {
        let stderr = if i % 3 == 0 { "noise" } else { "" };
        arrival_two.push((*op, ok(i % 2 == 0, stderr)));
    }

    let report_one = validate_all(&catalog, &arrival_one);
    let report_two = validate_all(&catalog, &arrival_two);
    assert_eq!(report_one, report_two);
}

#[test]
fn report_follows_catalog_order_not_arrival_order() {
    let catalog = vec![CmdOp::BubblewrapInstalled, CmdOp::DockerInstalled, CmdOp::BuildxInstalled];
    let results: Vec<(CmdOp, Result<DappOutput, ExecutableError>)> = vec![
        (CmdOp::BuildxInstalled, ok(true, "")),
        (CmdOp::BubblewrapInstalled, ok(false, "missing")),
        (CmdOp::DockerInstalled, ok(true, "old version")),
    ];
    let report = validate_all(&catalog, &results);
    let names: Vec<CmdOp> = report.iter().map(|p| p.0).collect();
    assert_eq!(names, catalog);
    assert_eq!(report[0].1, ValidationResult::Failure { msg: "missing".to_string() });
    assert_eq!(report[1].1, ValidationResult::Warning { msg: "old version".to_string() });
    assert_eq!(report[2].1, ValidationResult::Success);
}
