use vstd::prelude::*;

verus! {

/// The error that a runner reports when a program cannot be launched at all.
#[verifier::external_type_specification]
#[verifier::external_body]
pub struct ExIoError(std::io::Error);

/// What one run of an external program produced: whether it exited with
/// success, and its raw output streams, undecoded.
#[derive(Clone, Debug)]
pub struct RunResult {
    pub success: bool,
    pub stdout: Vec<u8>,
    pub stderr: Vec<u8>,
}

/// Runs an external program with arguments and captures what it produced.
///
/// A program that ran and failed is `Ok` with `success == false`; `Err` is
/// kept for a program that could not be launched.
pub trait CommandRunner {
    /// `r` is a result that this runner, in its present state, may hand back.
    /// A runner that promises nothing leaves every result possible.
    open spec fn permits(&self, r: std::io::Result<RunResult>) -> bool {
        true
    }

    fn run(&mut self, program: &str, args: &[&str]) -> (r: std::io::Result<RunResult>)
        ensures
            old(self).permits(r),
            forall|x: std::io::Result<RunResult>| #[trigger] final(self).permits(x) == old(self).permits(x),
    ;
}

/// A runner that never touches the system: every run hands back a copy of
/// the configured result.
pub struct MockCommandRunner {
    pub result: RunResult,
}

/// `r` is a launched run with the same exit status and output as `expected`.
pub open spec fn same_run(r: std::io::Result<RunResult>, expected: RunResult) -> bool {
    &&& r is Ok
    &&& r->Ok_0.success == expected.success
    &&& r->Ok_0.stdout@ == expected.stdout@
    &&& r->Ok_0.stderr@ == expected.stderr@
}

impl CommandRunner for MockCommandRunner {
    open spec fn permits(&self, r: std::io::Result<RunResult>) -> bool {
        same_run(r, self.result)
    }

    fn run(&mut self, _program: &str, _args: &[&str]) -> (r: std::io::Result<RunResult>)
        ensures
            same_run(r, old(self).result),
            final(self).result == old(self).result,
    {
        let stdout = self.result.stdout.clone();
        let stderr = self.result.stderr.clone();
        assert(stdout@ =~= self.result.stdout@);
        assert(stderr@ =~= self.result.stderr@);
        Ok(RunResult { success: self.result.success, stdout, stderr })
    }
}

} // verus!
