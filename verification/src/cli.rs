use vstd::prelude::*;

verus! {

/// The action that one invocation of the tool carries out.
#[derive(Copy, Clone, PartialEq, Eq, Structural, Debug)]
pub enum DevenvAction {
    Install,
    Check,
}

/// The parsed command line: which action to run.
pub struct Cli {
    pub env: DevenvAction,
}

/// Subcommands that act on a named resource.
pub enum Commands {
    Resource { action: String },
}

} // verus!
