use vstd::prelude::*;

use crate::commands::{cmd_op_exec, spec_cmd_op_exec, CmdOp};
use crate::validation::{Outcome, ValidationResult};

verus! {

/// The lines of a rendered block, each as a sequence of characters.
pub open spec fn spec_lines(v: Seq<String>) -> Seq<Seq<char>> {
    v.map_values(|s: String| s@)
}

/// The visual separator that ends every report block.
pub open spec fn spec_separator() -> Seq<char> {
    "___________________________________________________________________________"@
}

/// The lines of the report block for one check: a header naming the check;
/// for a clean success a confirmation line; for a warning or a failure the
/// diagnostic text and the remediation suggestion; and a closing separator.
pub open spec fn spec_report_block(
    name: Seq<char>,
    outcome: Outcome,
    suggestion: Seq<char>,
) -> Seq<Seq<char>> {
    match outcome {
        Outcome::Success => seq![
            "Validation for "@ + name,
            "Successful validations for: "@ + name,
            spec_separator(),
        ],
        Outcome::Failure { msg } => seq![
            "Validation for "@ + name,
            "An error occurred: "@ + msg,
            "Suggested fix: "@ + suggestion,
            spec_separator(),
        ],
        Outcome::Warning { msg } => seq![
            "Validation for "@ + name,
            "A warning occurred: "@ + msg,
            "Suggested fix: "@ + suggestion,
            spec_separator(),
        ],
    }
}

/// Renders the report block for one classified check. A success block names
/// the check and carries no remediation suggestion; a warning or failure
/// block carries the diagnostic message and the suggestion.
pub fn pretty_print(
    cmd_check: CmdOp,
    validation_result: &ValidationResult,
    suggestion: &str,
) -> (lines: Vec<String>)
    ensures
        spec_lines(lines@) == spec_report_block(
            cmd_check.spec_name(),
            validation_result@,
            suggestion@,
        ),
{
    let name = cmd_check.name();
    let mut lines: Vec<String> = Vec::new();
    lines.push(String::from_str("Validation for ").concat(name));
    match validation_result {
        ValidationResult::Success => {
            lines.push(String::from_str("Successful validations for: ").concat(name));
        },
        ValidationResult::Failure { msg } => {
            lines.push(String::from_str("An error occurred: ").concat(msg.as_str()));
            lines.push(String::from_str("Suggested fix: ").concat(suggestion));
        },
        ValidationResult::Warning { msg } => {
            lines.push(String::from_str("A warning occurred: ").concat(msg.as_str()));
            lines.push(String::from_str("Suggested fix: ").concat(suggestion));
        },
    }
    lines.push(
        String::from_str(
            "___________________________________________________________________________",
        ),
    );
    proof {
        assert(spec_lines(lines@) =~~= spec_report_block(
            cmd_check.spec_name(),
            validation_result@,
            suggestion@,
        ));
    }
    lines
}

/// Renders one report block per classified check, in the order the report
/// lists them. Every check must carry a catalog entry, whose suggestion the
/// block quotes on a warning or a failure.
pub fn render_report(report: &Vec<(CmdOp, ValidationResult)>) -> (blocks: Vec<Vec<String>>)
    requires
        forall|i: int|
            0 <= i < report@.len() ==> (#[trigger] spec_cmd_op_exec(report@[i].0)) is Some,
    ensures
        blocks@.len() == report@.len(),
        forall|i: int|
            0 <= i < report@.len() ==> spec_lines(#[trigger] blocks@[i]@) == spec_report_block(
                report@[i].0.spec_name(),
                report@[i].1@,
                spec_cmd_op_exec(report@[i].0)->Some_0.1,
            ),
{
    let mut blocks: Vec<Vec<String>> = Vec::new();
    let n = report.len();
    for i in 0..n
        invariant
            n == report@.len(),
            blocks@.len() == i,
            forall|k: int|
                0 <= k < report@.len() ==> (#[trigger] spec_cmd_op_exec(report@[k].0)) is Some,
            forall|k: int|
                0 <= k < i ==> spec_lines(#[trigger] blocks@[k]@) == spec_report_block(
                    report@[k].0.spec_name(),
                    report@[k].1@,
                    spec_cmd_op_exec(report@[k].0)->Some_0.1,
                ),
    {
        let pair = &report[i];
        let suggestion = match cmd_op_exec(pair.0) {
            Some(exec_pair) => exec_pair.1,
            None => "",
        };
        blocks.push(pretty_print(pair.0, &pair.1, suggestion));
    }
    blocks
}

} // verus!
