use vstd::prelude::*;

verus! {

/// The parsed command line: the action to perform, and the quiet switch.
pub struct Cli {
    pub action: Actions,
    pub quiet: Option<bool>,
}

/// Action to perform.
pub enum Actions {
    /// Start a new branch locally and remotely.
    Start {
        /// Base name of the new branch; the current branch's name where absent.
        branch: Option<String>,
        /// Skip git hooks when pushing.
        skip_hooks: bool,
        /// Leave the prefix off the branch name.
        remove_prefix: bool,
        /// Do not push the branch to origin.
        no_push: bool,
    },
}

} // verus!
