use vstd::prelude::*;

verus! {

/// What one finished probe process left behind: whether its exit status was
/// a success, and the text it wrote to standard error. Standard output plays
/// no part in classification and is not kept.
#[derive(Debug, Clone)]
pub struct DappOutput {
    pub success: bool,
    pub stderr: String,
}

/// The mathematical value of a probe result: the exit flag and the captured
/// standard-error text as a sequence of characters.
pub struct OutputModel {
    pub success: bool,
    pub stderr: Seq<char>,
}

impl View for DappOutput {
    type V = OutputModel;

    open spec fn view(&self) -> OutputModel {
        OutputModel { success: self.success, stderr: self.stderr@ }
    }
}

/// A probe command whose child process could not be started at all: an
/// infrastructure problem, distinct from the probe reporting an unhealthy
/// exit status.
#[derive(Debug)]
pub enum ExecutableError<'a> {
    IOError { msg: &'a str },
}

/// The mathematical value of one attempted probe run: either the process
/// finished and left an output, or it could not be launched and only a
/// diagnostic text remains.
pub enum RunModel {
    Finished(OutputModel),
    NotLaunched(Seq<char>),
}

/// The mathematical value of an attempted probe run.
pub open spec fn spec_run<'a>(run: Result<DappOutput, ExecutableError<'a>>) -> RunModel {
    match run {
        Ok(out) => RunModel::Finished(out@),
        Err(ExecutableError::IOError { msg }) => RunModel::NotLaunched(msg@),
    }
}

} // verus!
