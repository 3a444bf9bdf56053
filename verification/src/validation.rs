use vstd::prelude::*;

use crate::commands::CmdOp;
use crate::probe::{spec_run, DappOutput, ExecutableError, OutputModel, RunModel};

verus! {

/// The three-way classification of one check: the probe succeeded cleanly,
/// succeeded but wrote diagnostics to standard error, or reported failure.
#[derive(Debug, Eq, PartialEq, Clone)]
pub enum ValidationResult {
    Success,
    Failure { msg: String },
    Warning { msg: String },
}

/// The mathematical value of a classification: the same three-way split,
/// with each diagnostic message as a sequence of characters.
pub enum Outcome {
    Success,
    Failure { msg: Seq<char> },
    Warning { msg: Seq<char> },
}

impl View for ValidationResult {
    type V = Outcome;

    open spec fn view(&self) -> Outcome {
        match self {
            ValidationResult::Success => Outcome::Success,
            ValidationResult::Failure { msg } => Outcome::Failure { msg: msg@ },
            ValidationResult::Warning { msg } => Outcome::Warning { msg: msg@ },
        }
    }
}

/// The classification rule: a non-success exit status is a failure carrying
/// the captured standard-error text, a success with non-empty standard error
/// is a warning carrying that text, and a success with empty standard error
/// is a clean success.
pub open spec fn classify_model(o: OutputModel) -> Outcome {
    if !o.success {
        Outcome::Failure { msg: o.stderr }
    } else if o.stderr.len() > 0 {
        Outcome::Warning { msg: o.stderr }
    } else {
        Outcome::Success
    }
}

/// The outcome of one attempted probe run: a run whose process finished is
/// classified by `classify_model`; one whose process could not be launched
/// is surfaced as a failure whose message names the launch problem.
pub open spec fn run_outcome(r: RunModel) -> Outcome {
    match r {
        RunModel::Finished(o) => classify_model(o),
        RunModel::NotLaunched(msg) => Outcome::Failure { msg: "could not execute: "@ + msg },
    }
}

/// Classifies the finished output of one probe process: the executable form
/// of `classify_model`.
pub fn classify_output(output: &DappOutput) -> (r: ValidationResult)
    ensures
        r@ == classify_model(output@),
{
    let msg = output.stderr.clone();
    if !output.success {
        ValidationResult::Failure { msg }
    } else {
        if msg.as_str().is_empty() {
            ValidationResult::Success
        } else {
            ValidationResult::Warning { msg }
        }
    }
}

/// Classifies the finished output of one check.
pub struct Validator {
    pub cmd_op: CmdOp,
    pub output: DappOutput,
}

impl Validator {
    /// Pairs a check with the output its probe produced.
    pub fn new(cmd_op: CmdOp, output: DappOutput) -> (r: Self)
        ensures
            r.cmd_op == cmd_op,
            r.output == output,
    {
        Self { cmd_op, output }
    }

    /// Classifies the held output. Classification is a pure function of the
    /// output: the same output always yields the same outcome.
    pub fn validate(&self) -> (r: (CmdOp, ValidationResult))
        ensures
            r.0 == self.cmd_op,
            r.1@ == classify_model(self.output@),
    {
        (self.cmd_op, classify_output(&self.output))
    }
}

/// Classifies one attempted probe run, by reference.
pub fn classify_run<'a>(run: &Result<DappOutput, ExecutableError<'a>>) -> (r: ValidationResult)
    ensures
        r@ == run_outcome(spec_run(*run)),
{
    match run {
        Ok(out) => classify_output(out),
        Err(ExecutableError::IOError { msg }) => ValidationResult::Failure {
            msg: String::from_str("could not execute: ").concat(msg),
        },
    }
}

/// Turns one attempted probe run into the `(check, outcome)` pair the report
/// is built from. A run whose process could not be launched is not dropped:
/// it becomes a failure naming the launch problem.
pub fn check_outcome<'a>(
    cmd_check: CmdOp,
    run: Result<DappOutput, ExecutableError<'a>>,
) -> (r: (CmdOp, ValidationResult))
    ensures
        r.0 == cmd_check,
        r.1@ == run_outcome(spec_run(run)),
{
    let outcome = classify_run(&run);
    (cmd_check, outcome)
}

/// The classification rule, case by case, for every probe result: a
/// non-success exit is a failure carrying the standard-error text — empty
/// or not, and whatever standard output held; a success with non-empty
/// standard error is a warning carrying that text; a success with empty
/// standard error is a clean success.
pub proof fn lemma_classification_cases(o: OutputModel)
    ensures
        !o.success ==> classify_model(o) == (Outcome::Failure { msg: o.stderr }),
        o.success && o.stderr.len() > 0 ==> classify_model(o) == (Outcome::Warning {
            msg: o.stderr,
        }),
        o.success && o.stderr.len() == 0 ==> classify_model(o) == Outcome::Success,
{
}

/// Classification is deterministic: equal probe results are classified to
/// equal outcomes, so classifying the same result twice yields identical
/// outcomes.
pub proof fn lemma_classify_idempotent(a: OutputModel, b: OutputModel)
    requires
        a == b,
    ensures
        classify_model(a) == classify_model(b),
{
}

/// The mathematical value of a collected run list: each check paired with
/// what its probe run came to.
pub open spec fn spec_runs<'a>(
    results: Seq<(CmdOp, Result<DappOutput, ExecutableError<'a>>)>,
) -> Seq<(CmdOp, RunModel)> {
    results.map_values(
        |p: (CmdOp, Result<DappOutput, ExecutableError<'a>>)| (p.0, spec_run(p.1)),
    )
}

/// Whether some collected run belongs to the check `op`.
pub open spec fn has_result(rs: Seq<(CmdOp, RunModel)>, op: CmdOp) -> bool {
    exists|j: int| 0 <= j < rs.len() && (#[trigger] rs[j]).0 == op
}

/// The position of the first collected run that belongs to `op`.
pub open spec fn first_index(rs: Seq<(CmdOp, RunModel)>, op: CmdOp) -> int
    decreases rs.len(),
{
    if rs.len() == 0 {
        0
    } else if rs[0].0 == op {
        0
    } else {
        1 + first_index(rs.drop_first(), op)
    }
}

/// The first collected run that belongs to `op`; unspecified when no run
/// does.
pub open spec fn first_result(rs: Seq<(CmdOp, RunModel)>, op: CmdOp) -> RunModel {
    if has_result(rs, op) {
        rs[first_index(rs, op)].1
    } else {
        arbitrary()
    }
}

/// When some run belongs to `op`, `first_index` points at the earliest one,
/// and `first_result` yields that run.
pub proof fn lemma_first_result_props(rs: Seq<(CmdOp, RunModel)>, op: CmdOp)
    requires
        has_result(rs, op),
    ensures
        ({
            let fi = first_index(rs, op);
            &&& 0 <= fi < rs.len()
            &&& rs[fi].0 == op
            &&& forall|k: int| 0 <= k < fi ==> (#[trigger] rs[k]).0 != op
            &&& first_result(rs, op) == rs[fi].1
        }),
    decreases rs.len(),
{
    if rs.len() == 0 {
    } else if rs[0].0 == op {
    } else {
        let j = choose|j: int| 0 <= j < rs.len() && (#[trigger] rs[j]).0 == op;
        assert(rs.drop_first()[j - 1] == rs[j]);
        assert(has_result(rs.drop_first(), op));
        lemma_first_result_props(rs.drop_first(), op);
        let fi = first_index(rs, op);
        let fip = first_index(rs.drop_first(), op);
        assert(rs[fi] == rs.drop_first()[fip]);
        assert forall|k: int| 0 <= k < fi implies (#[trigger] rs[k]).0 != op by {
            if k > 0 {
                assert(rs.drop_first()[k - 1] == rs[k]);
            }
        }
    }
}

/// No two collected runs belong to the same check: the shape every
/// orchestration pass produces, one task and one run per catalog entry.
pub open spec fn unique_ops(rs: Seq<(CmdOp, RunModel)>) -> bool {
    forall|i: int, j: int|
        0 <= i < rs.len() && 0 <= j < rs.len() && i != j ==> (#[trigger] rs[i]).0 != (
        #[trigger] rs[j]).0
}

/// Membership of a check carries over between run lists that hold the same
/// runs in some order.
proof fn lemma_has_result_transfer(
    rs1: Seq<(CmdOp, RunModel)>,
    rs2: Seq<(CmdOp, RunModel)>,
    op: CmdOp,
)
    requires
        rs1.to_multiset() == rs2.to_multiset(),
        has_result(rs1, op),
    ensures
        has_result(rs2, op),
{
    broadcast use vstd::seq_lib::group_to_multiset_ensures;

    let j = choose|j: int| 0 <= j < rs1.len() && (#[trigger] rs1[j]).0 == op;
    let e = rs1[j];
    assert(rs1.contains(e));
    assert(rs2.to_multiset().count(e) > 0);
    assert(rs2.contains(e));
    let j2 = choose|j2: int| 0 <= j2 < rs2.len() && rs2[j2] == e;
    assert(rs2[j2].0 == op);
}

/// Two run lists that hold the same runs in some order, each with one run
/// per check, agree on which run belongs to every check.
pub proof fn lemma_first_result_agrees(
    rs1: Seq<(CmdOp, RunModel)>,
    rs2: Seq<(CmdOp, RunModel)>,
    op: CmdOp,
)
    requires
        rs1.to_multiset() == rs2.to_multiset(),
        unique_ops(rs1),
        unique_ops(rs2),
    ensures
        first_result(rs1, op) == first_result(rs2, op),
{
    broadcast use vstd::seq_lib::group_to_multiset_ensures;

    if has_result(rs1, op) {
        lemma_has_result_transfer(rs1, rs2, op);
        lemma_first_result_props(rs1, op);
        lemma_first_result_props(rs2, op);
        let fi1 = first_index(rs1, op);
        let e = rs1[fi1];
        assert(rs1.contains(e));
        assert(rs2.to_multiset().count(e) > 0);
        assert(rs2.contains(e));
        let j2 = choose|j: int| 0 <= j < rs2.len() && rs2[j] == e;
        let fi2 = first_index(rs2, op);
        assert(j2 == fi2);
        assert(first_result(rs2, op) == e.1);
    } else if has_result(rs2, op) {
        lemma_has_result_transfer(rs2, rs1, op);
        assert(false);
    } else {
    }
}

/// The report determined by a catalog and a list of collected runs: one
/// `(check, outcome)` pair per catalog entry, in catalog order.
pub open spec fn spec_report(
    catalog: Seq<CmdOp>,
    rs: Seq<(CmdOp, RunModel)>,
) -> Seq<(CmdOp, Outcome)> {
    Seq::new(catalog.len(), |i: int| (catalog[i], run_outcome(first_result(rs, catalog[i]))))
}

/// Order independence: two passes whose runs are the same up to arrival
/// order — each pairing every check with one run — yield the very same
/// report, line for line.
pub proof fn lemma_report_order_independent(
    catalog: Seq<CmdOp>,
    rs1: Seq<(CmdOp, RunModel)>,
    rs2: Seq<(CmdOp, RunModel)>,
)
    requires
        rs1.to_multiset() == rs2.to_multiset(),
        unique_ops(rs1),
        unique_ops(rs2),
    ensures
        spec_report(catalog, rs1) == spec_report(catalog, rs2),
{
    assert forall|i: int| 0 <= i < catalog.len() implies spec_report(catalog, rs1)[i]
        == spec_report(catalog, rs2)[i] by {
        lemma_first_result_agrees(rs1, rs2, catalog[i]);
    }
    assert(spec_report(catalog, rs1) =~= spec_report(catalog, rs2));
}

/// The classified outcome of the first collected run that belongs to `op`.
fn find_outcome<'a>(
    results: &Vec<(CmdOp, Result<DappOutput, ExecutableError<'a>>)>,
    op: CmdOp,
) -> (r: ValidationResult)
    requires
        has_result(spec_runs(results@), op),
    ensures
        r@ == run_outcome(first_result(spec_runs(results@), op)),
{
    let ghost rs = spec_runs(results@);
    let n = results.len();
    let mut j: usize = 0;
    while j < n
        invariant
            has_result(rs, op),
            rs == spec_runs(results@),
            n == results@.len(),
            rs.len() == n,
            j <= n,
            forall|k: int| 0 <= k < j ==> (#[trigger] rs[k]).0 != op,
        decreases n - j,
    {
        let pair = &results[j];
        proof {
            assert(rs[j as int] == (results@[j as int].0, spec_run(results@[j as int].1)));
        }
        if pair.0 == op {
            proof {
                lemma_first_result_props(rs, op);
                let fi = first_index(rs, op);
                if fi < j as int {
                    assert(rs[fi].0 != op);
                }
                if fi > j as int {
                    assert(rs[j as int].0 != op);
                }
                assert(first_result(rs, op) == rs[j as int].1);
            }
            return classify_run(&pair.1);
        }
        j += 1;
    }
    proof {
        lemma_first_result_props(rs, op);
        assert(false);
    }
    ValidationResult::Success
}

/// Builds the full report of one orchestration pass: one `(check, outcome)`
/// pair per catalog entry, in catalog order, whatever order the runs were
/// collected in. A catalog of N checks always yields exactly N pairs; no
/// check is skipped, duplicated, or silently dropped, a run that could not
/// be launched included.
pub fn validate_all<'a>(
    catalog: &Vec<CmdOp>,
    results: &Vec<(CmdOp, Result<DappOutput, ExecutableError<'a>>)>,
) -> (report: Vec<(CmdOp, ValidationResult)>)
    requires
        forall|i: int|
            0 <= i < catalog@.len() ==> has_result(spec_runs(results@), #[trigger] catalog@[i]),
    ensures
        report@.len() == catalog@.len(),
        forall|i: int|
            0 <= i < catalog@.len() ==> (#[trigger] report@[i]).0 == catalog@[i] && report@[i].1@
                == run_outcome(first_result(spec_runs(results@), catalog@[i])),
        report@.map_values(|p: (CmdOp, ValidationResult)| (p.0, p.1@)) == spec_report(
            catalog@,
            spec_runs(results@),
        ),
{
    let mut report: Vec<(CmdOp, ValidationResult)> = Vec::new();
    let n = catalog.len();
    for i in 0..n
        invariant
            n == catalog@.len(),
            report@.len() == i,
            forall|k: int|
                0 <= k < catalog@.len() ==> has_result(spec_runs(results@), #[trigger] catalog@[k]),
            forall|k: int|
                0 <= k < i ==> (#[trigger] report@[k]).0 == catalog@[k] && report@[k].1@
                    == run_outcome(first_result(spec_runs(results@), catalog@[k])),
    {
        let op = catalog[i];
        let outcome = find_outcome(results, op);
        report.push((op, outcome));
    }
    proof {
        assert(report@.map_values(|p: (CmdOp, ValidationResult)| (p.0, p.1@)) =~= spec_report(
            catalog@,
            spec_runs(results@),
        ));
    }
    report
}

} // verus!
