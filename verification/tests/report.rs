use dappctl::commands::{cmd_op_exec, CmdOp};
use dappctl::probe::{DappOutput, ExecutableError};
use dappctl::report::{pretty_print, render_report};
use dappctl::validation::{classify_output, validate_all, ValidationResult};

fn output(success: bool, stderr: &str) -> DappOutput {
    DappOutput { success, stderr: stderr.to_string() }
}

fn hint_of(op: CmdOp) -> &'static str {
    cmd_op_exec(op).expect("check outside the catalog").1
}

#[test]
fn scenario_clean_success() {
    let op = CmdOp::DockerInstalled;
    let outcome = classify_output(&output(true, ""));
    assert_eq!(outcome, ValidationResult::Success);

    let hint = hint_of(op);
    let lines = pretty_print(op, &outcome, hint);
    assert_eq!(lines.len(), 3);
    assert!(lines[0].contains("DockerInstalled"));
    assert!(lines.iter().all(|l| !l.contains(hint)));
}

#[test]
fn scenario_probe_failure() {
    let op = CmdOp::DockerInstalled;
    let outcome = classify_output(&output(false, "not found"));
    assert_eq!(outcome, ValidationResult::Failure { msg: "not found".to_string() });

    let hint = hint_of(op);
    let lines = pretty_print(op, &outcome, hint);
    assert_eq!(lines.len(), 4);
    assert!(lines[1].contains("not found"));
    assert!(lines.iter().any(|l| l.contains(hint)));
}

#[test]
fn scenario_noisy_success() {
    let op = CmdOp::KubectlInstalled;
    let outcome = classify_output(&output(true, "deprecated flag used"));
    assert_eq!(outcome, ValidationResult::Warning { msg: "deprecated flag used".to_string() });

    let hint = hint_of(op);
    let lines = pretty_print(op, &outcome, hint);
    assert_eq!(lines.len(), 4);
    assert!(lines[1].contains("deprecated flag used"));
    assert!(lines.iter().any(|l| l.contains(hint)));
}

#[test]
fn scenario_one_check_cannot_launch() {
    let catalog = vec![CmdOp::DockerInstalled, CmdOp::DockerRunning, CmdOp::KubectlInstalled];
    let results: Vec<(CmdOp, Result<DappOutput, ExecutableError>)> = vec![
        (CmdOp::DockerInstalled, Ok(output(true, ""))),
        (CmdOp::DockerRunning, Err(ExecutableError::IOError { msg: "interpreter not found" })),
        (CmdOp::KubectlInstalled, Ok(output(true, ""))),
    ];
    let report = validate_all(&catalog, &results);
    assert_eq!(report.len(), 3);

    let blocks = render_report(&report);
    assert_eq!(blocks.len(), 3);
    assert!(blocks[1].iter().any(|l| l.contains("could not execute: interpreter not found")));
}

#[test]
fn exact_success_block() {
    let lines = pretty_print(CmdOp::DockerInstalled, &ValidationResult::Success, "install docker");
    assert_eq!(lines[0], "Validation for DockerInstalled");
    assert_eq!(lines[1], "Successful validations for: DockerInstalled");
    assert_eq!(lines[2], "_".repeat(75));
}

#[test]
fn exact_failure_block() {
    let outcome = ValidationResult::Failure { msg: "no docker".to_string() };
    let lines = pretty_print(CmdOp::DockerInstalled, &outcome, "install docker");
    assert_eq!(lines[0], "Validation for DockerInstalled");
    assert_eq!(lines[1], "An error occurred: no docker");
    assert_eq!(lines[2], "Suggested fix: install docker");
    assert_eq!(lines[3], "_".repeat(75));
}

#[test]
fn exact_warning_block() {
    let outcome = ValidationResult::Warning { msg: "old client".to_string() };
    let lines = pretty_print(CmdOp::DockerRunning, &outcome, "start docker");
    assert_eq!(lines[0], "Validation for DockerRunning");
    assert_eq!(lines[1], "A warning occurred: old client");
    assert_eq!(lines[2], "Suggested fix: start docker");
    assert_eq!(lines[3], "_".repeat(75));
}

#[test]
fn every_block_ends_with_a_separator() {
    let outcomes = [
        ValidationResult::Success,
        ValidationResult::Warning { msg: "w".to_string() },
        ValidationResult::Failure { msg: "f".to_string() },
    ];
    for outcome in &outcomes {
        let lines = pretty_print(CmdOp::DockerRunning, outcome, "start docker");
        let last = lines.last().expect("block is never empty");
        assert!(!last.is_empty());
        assert!(last.chars().all(|c| c == '_'));
    }
}

#[test]
fn blocks_follow_the_report() {
    let report = vec![
        (CmdOp::BubblewrapInstalled, ValidationResult::Failure { msg: "absent".to_string() }),
        (CmdOp::CargoMakeInstalled, ValidationResult::Success),
    ];
    let blocks = render_report(&report);
    assert_eq!(blocks.len(), 2);
    assert!(blocks[0][0].contains("BubblewrapInstalled"));
    assert!(blocks[0].iter().any(|l| l.contains("sudo apt install -y bubblewrap")));
    assert!(blocks[1][0].contains("CargoMakeInstalled"));
}
