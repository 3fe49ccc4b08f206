use vstd::prelude::*;

use vstd::string::to_string_from_display_ensures;

use crate::command_runner::{CommandRunner, MockCommandRunner, RunResult};
use crate::text::{ascii_text, decode_lossy, is_ascii_bytes, joined, lossy_text, trim_text, trimmed};

verus! {

/// One command issued to a runner: the program, its arguments, and what the
/// runner handed back.
pub type Call = (Seq<char>, Seq<Seq<char>>, std::io::Result<RunResult>);

/// The views of a sequence of string slices.
pub open spec fn str_views(a: Seq<&str>) -> Seq<Seq<char>> {
    a.map_values(|s: &str| s@)
}

/// `c` ran `git` with `args`.
pub open spec fn is_git(c: Call, args: Seq<Seq<char>>) -> bool {
    c.0 == "git"@ && c.1 == args
}

/// `o` is a run that was launched and exited with success.
pub open spec fn run_succeeded(o: std::io::Result<RunResult>) -> bool {
    o is Ok && o->Ok_0.success
}

/// `o` is a run that was launched and exited with failure.
pub open spec fn run_failed(o: std::io::Result<RunResult>) -> bool {
    o is Ok && !o->Ok_0.success
}

/// The calls made after the first `n` of `cs`.
pub open spec fn calls_after(cs: Seq<Call>, n: int) -> Seq<Call> {
    cs.subrange(n, cs.len() as int)
}

/// The arguments that print the name of the branch checked out now.
pub open spec fn rev_parse_args() -> Seq<Seq<char>> {
    seq!["rev-parse"@, "--abbrev-ref"@, "HEAD"@]
}

/// The branch name that a successful `rev-parse` printed.
pub open spec fn branch_of(out: RunResult) -> Seq<char> {
    trimmed(lossy_text(out.stdout@))
}

/// `e` is `prefix` followed by the text of the launch error `err`.
pub open spec fn launch_message(prefix: Seq<char>, err: std::io::Error, e: Seq<char>) -> bool {
    exists|t: String| to_string_from_display_ensures::<std::io::Error>(&err, t) && e == prefix + t@
}

/// `e` is the message for a reading of the current branch that gave `o`
/// and did not succeed.
pub open spec fn current_branch_error(o: std::io::Result<RunResult>, e: Seq<char>) -> bool {
    match o {
        Err(err) => launch_message("Failed: "@, err, e),
        Ok(out) => e == "Error: "@ + lossy_text(out.stderr@),
    }
}

/// What reading the current branch returns, given what `rev-parse` gave.
pub open spec fn current_branch_spec(o: std::io::Result<RunResult>, r: Result<String, String>) -> bool {
    if run_succeeded(o) {
        r is Ok && r->Ok_0@ == branch_of(o->Ok_0)
    } else {
        r is Err && current_branch_error(o, r->Err_0@)
    }
}

/// The arguments that check out an existing branch.
pub open spec fn checkout_args(branch: Seq<char>) -> Seq<Seq<char>> {
    seq!["checkout"@, branch]
}

/// The arguments that create a branch and check it out.
pub open spec fn create_args(branch: Seq<char>) -> Seq<Seq<char>> {
    seq!["checkout"@, "-b"@, branch]
}

/// `cs` are the calls made to check out `branch`, creating it where
/// checking it out fails: `checkout`, then `checkout -b` only where the first
/// ran and failed.
pub open spec fn checkout_calls(cs: Seq<Call>, branch: Seq<char>) -> bool {
    &&& cs.len() >= 1
    &&& is_git(cs[0], checkout_args(branch))
    &&& if run_failed(cs[0].2) {
        cs.len() == 2 && is_git(cs[1], create_args(branch))
    } else {
        cs.len() == 1
    }
}

/// The branch was checked out, or created, by the calls `cs`.
pub open spec fn checkout_done(cs: Seq<Call>) -> bool {
    run_succeeded(cs[0].2) || (run_failed(cs[0].2) && run_succeeded(cs[1].2))
}

/// `e` is the message for calls `cs` that neither checked out nor created
/// the branch.
pub open spec fn checkout_error(cs: Seq<Call>, e: Seq<char>) -> bool {
    match cs[0].2 {
        Err(err) => launch_message("Failed to checkout branch: "@, err, e),
        Ok(first) => match cs[1].2 {
            Err(err) => launch_message("Failed to create branch: "@, err, e),
            Ok(_) => e == "Error creating branch: "@ + lossy_text(first.stderr@),
        },
    }
}

/// `cs` are the calls made to check out `branch`, creating it where it does
/// not exist yet, and `r` is what that returns.
pub open spec fn checkout_or_create_spec(cs: Seq<Call>, branch: Seq<char>, r: Result<String, String>) -> bool {
    &&& checkout_calls(cs, branch)
    &&& if checkout_done(cs) {
        r is Ok && r->Ok_0@ == branch
    } else {
        r is Err && checkout_error(cs, r->Err_0@)
    }
}

/// The prefix that `create_branch` puts before a branch name.
pub open spec fn wip_prefix() -> Seq<char> {
    seq!['w', 'i', 'p', '/']
}

/// `cs` are the calls made by `create_branch(name)`, and `r` is what it returns.
pub open spec fn create_branch_spec(cs: Seq<Call>, name: Option<Seq<char>>, r: Result<String, String>) -> bool {
    match name {
        Some(n) => checkout_or_create_spec(cs, wip_prefix() + n, r),
        None => {
            &&& cs.len() >= 1
            &&& is_git(cs[0], rev_parse_args())
            &&& if run_succeeded(cs[0].2) {
                checkout_or_create_spec(calls_after(cs, 1), wip_prefix() + branch_of(cs[0].2->Ok_0), r)
            } else {
                cs.len() == 1 && r is Err && current_branch_error(cs[0].2, r->Err_0@)
            }
        },
    }
}

/// The view of an optional string slice.
pub open spec fn opt_view(o: Option<&str>) -> Option<Seq<char>> {
    match o {
        Some(s) => Some(s@),
        None => None,
    }
}

/// The arguments that push `branch` to `origin` and set it as upstream,
/// skipping the hooks where `skip_hooks` holds.
pub open spec fn push_args(branch: Seq<char>, skip_hooks: bool) -> Seq<Seq<char>> {
    if skip_hooks {
        seq!["push"@, "--no-verify"@, "-u"@, "origin"@, branch]
    } else {
        seq!["push"@, "-u"@, "origin"@, branch]
    }
}

/// The branch that `delete_current_branch` returns to, and never deletes.
pub open spec fn main_branch() -> Seq<char> {
    seq!['m', 'a', 'i', 'n']
}

/// The arguments that force-delete a branch.
pub open spec fn delete_args(branch: Seq<char>) -> Seq<Seq<char>> {
    seq!["branch"@, "-D"@, branch]
}

/// `cs` are the calls made by `delete_current_branch`, and `r` is what it
/// returns.
pub open spec fn delete_current_branch_spec(cs: Seq<Call>, r: Result<(), String>) -> bool {
    &&& cs.len() >= 1
    &&& is_git(cs[0], rev_parse_args())
    &&& if !run_succeeded(cs[0].2) {
        cs.len() == 1 && r is Err && current_branch_error(cs[0].2, r->Err_0@)
    } else if branch_of(cs[0].2->Ok_0) == main_branch() {
        cs.len() == 1 && r is Err && r->Err_0@ == "Cannot delete the main branch"@
    } else {
        &&& cs.len() >= 2
        &&& is_git(cs[1], checkout_args(main_branch()))
        &&& if cs[1].2 is Err {
            cs.len() == 2 && r is Err && launch_message("Failed to checkout main branch: "@, cs[1].2->Err_0, r->Err_0@)
        } else {
            &&& cs.len() == 3
            &&& is_git(cs[2], delete_args(branch_of(cs[0].2->Ok_0)))
            &&& match cs[2].2 {
                Err(err) => r is Err && launch_message("Failed to delete branch: "@, err, r->Err_0@),
                Ok(out) => if out.success {
                    r is Ok
                } else {
                    r is Err && r->Err_0@ == "Error deleting branch: "@ + lossy_text(out.stderr@)
                },
            }
        }
    }
}

/// Git operations, issued through a runner.
///
/// Every command issued is recorded, with its outcome, in `calls()`.
pub struct Git<R: CommandRunner> {
    runner: R,
    history: Ghost<Seq<Call>>,
}

impl<R: CommandRunner> Git<R> {
    /// Every command issued through this value, in order, with its outcome.
    pub closed spec fn calls(&self) -> Seq<Call> {
        self.history@
    }

    /// The runner that the commands go through.
    pub closed spec fn runner(&self) -> R {
        self.runner
    }

    /// A value that issues its commands through `runner`.
    pub fn with_runner(runner: R) -> (g: Self)
        ensures
            g.calls() == Seq::<Call>::empty(),
            g.runner() == runner,
    {
        Git { runner, history: Ghost(Seq::empty()) }
    }

    fn git(&mut self, args: &[&str]) -> (r: std::io::Result<RunResult>)
        ensures
            final(self).calls() == old(self).calls().push(("git"@, str_views(args@), r)),
            old(self).runner().permits(r),
            forall|x: std::io::Result<RunResult>| #[trigger] final(self).runner().permits(x) == old(self).runner().permits(x),
    {
        let r = self.runner.run("git", args);
        self.history = Ghost(self.history@.push(("git"@, str_views(args@), r)));
        r
    }

    /// The calls issued since `old`, of which this value is a later state.
    pub open spec fn calls_since(&self, old: &Self) -> Seq<Call> {
        calls_after(self.calls(), old.calls().len() as int)
    }

    /// This value's history continues that of `old`.
    pub open spec fn extends(&self, old: &Self) -> bool {
        &&& old.calls().len() <= self.calls().len()
        &&& forall|i: int| 0 <= i < old.calls().len() ==> #[trigger] self.calls()[i] == old.calls()[i]
    }

    /// Every call issued since `old` was answered as the runner permits, and
    /// what the runner permits is unchanged.
    pub open spec fn runner_kept(&self, old: &Self) -> bool {
        &&& forall|i: int|
            0 <= i < self.calls_since(old).len() ==> old.runner().permits(#[trigger] self.calls_since(old)[i].2)
        &&& forall|x: std::io::Result<RunResult>| #[trigger] self.runner().permits(x) == old.runner().permits(x)
    }

    /// Two stretches of calls, each answered as the runner permits, make one
    /// such stretch.
    pub proof fn lemma_kept_chain(a: &Self, b: &Self, c: &Self)
        requires
            b.extends(a),
            c.extends(b),
            b.runner_kept(a),
            c.runner_kept(b),
        ensures
            c.extends(a),
            c.runner_kept(a),
    {
        let n = a.calls().len() as int;
        let m = b.calls().len() as int;
        assert forall|i: int| 0 <= i < c.calls_since(a).len() implies a.runner().permits(
            #[trigger] c.calls_since(a)[i].2,
        ) by {
            if n + i < m {
                assert(c.calls_since(a)[i] == b.calls_since(a)[i]);
            } else {
                assert(c.calls_since(a)[i] == c.calls_since(b)[n + i - m]);
                assert(b.runner().permits(c.calls_since(b)[n + i - m].2));
            }
        }
    }

    /// Reads the name of the branch checked out now, with surrounding
    /// whitespace removed.
    pub fn get_current_branch_name(&mut self) -> (r: Result<String, String>)
        ensures
            final(self).calls() == old(self).calls().push(final(self).calls().last()),
            is_git(final(self).calls().last(), rev_parse_args()),
            current_branch_spec(final(self).calls().last().2, r),
            run_succeeded(final(self).calls().last().2) && is_ascii_bytes(
                final(self).calls().last().2->Ok_0.stdout@,
            ) ==> r->Ok_0@ == trimmed(ascii_text(final(self).calls().last().2->Ok_0.stdout@)),
            final(self).runner_kept(old(self)),
            final(self).extends(old(self)),
    {
        let args: [&str; 3] = ["rev-parse", "--abbrev-ref", "HEAD"];
        let res = self.git(args.as_slice());
        assert(str_views(args@) =~= rev_parse_args());
        match res {
            Err(e) => {
                let t = e.to_string();
                Err(joined("Failed: ", t.as_str()))
            },
            Ok(out) => {
                if out.success {
                    let text = decode_lossy(&out.stdout);
                    Ok(trim_text(text.as_str()))
                } else {
                    let text = decode_lossy(&out.stderr);
                    let msg = joined("Error: ", text.as_str());
                    proof { reveal_strlit("Error: "); }
                    Err(msg)
                }
            },
        }
    }

    /// Checks out the branch `wip/<name>`, creating it where it does not exist
    /// yet; without a name, the current branch's name stands for it.
    pub fn create_branch(&mut self, branch_name: Option<&str>) -> (r: Result<String, String>)
        ensures
            final(self).extends(old(self)),
            create_branch_spec(final(self).calls_since(old(self)), opt_view(branch_name), r),
            final(self).runner_kept(old(self)),
    {
        let base = match branch_name {
            Some(name) => String::from_str(name),
            None => {
                match self.get_current_branch_name() {
                    Ok(current) => current,
                    Err(e) => {
                        assert(self.calls_since(old(self)) =~= seq![self.calls().last()]);
                        return Err(e);
                    },
                }
            },
        };
        let ghost m = self.calls().len();
        let ghost mid = self.calls();
        let ghost s1 = *self;
        let branch = joined("wip/", base.as_str());
        proof { reveal_strlit("wip/"); }
        assert("wip/"@ =~= wip_prefix());
        let r = self.checkout_or_create(branch);
        proof {
            Self::lemma_kept_chain(old(self), &s1, self);
            if branch_name is None {
                assert(calls_after(self.calls_since(old(self)), 1) =~= calls_after(self.calls(), m as int));
                assert(self.calls_since(old(self))[0] == mid.last());
            } else {
                assert(self.calls_since(old(self)) =~= calls_after(self.calls(), m as int));
            }
        }
        r
    }

    /// Deletes the branch checked out now, after checking out `main`; refuses
    /// to delete `main` itself.
    pub fn delete_current_branch(&mut self) -> (r: Result<(), String>)
        ensures
            final(self).extends(old(self)),
            delete_current_branch_spec(final(self).calls_since(old(self)), r),
            final(self).runner_kept(old(self)),
    {
        let current = match self.get_current_branch_name() {
            Ok(current) => current,
            Err(e) => {
                assert(self.calls_since(old(self)) =~= seq![self.calls().last()]);
                return Err(e);
            },
        };
        let ghost first = self.calls().last();
        assert(self.calls_since(old(self)) =~= seq![first]);
        assert(old(self).runner().permits(self.calls_since(old(self))[0].2));
        let main = String::from_str("main");
        proof { reveal_strlit("main"); }
        assert("main"@ =~= main_branch());
        if current == main {
            assert(self.calls_since(old(self)) =~= seq![first]);
            return Err(String::from_str("Cannot delete the main branch"));
        }
        let to_main = {
            let args: [&str; 2] = ["checkout", main.as_str()];
            let res = self.git(args.as_slice());
            assert(str_views(args@) =~= checkout_args(main_branch()));
            res
        };
        let ghost second = self.calls().last();
        assert(old(self).runner().permits(first.2));
        assert(old(self).runner().permits(second.2));
        if let Err(e) = to_main {
            assert(self.calls_since(old(self)) =~= seq![first, second]);
            let t = e.to_string();
            return Err(joined("Failed to checkout main branch: ", t.as_str()));
        }
        let deleted = {
            let args: [&str; 3] = ["branch", "-D", current.as_str()];
            let res = self.git(args.as_slice());
            assert(str_views(args@) =~= delete_args(current@));
            res
        };
        assert(self.calls_since(old(self)) =~= seq![first, second, self.calls().last()]);
        assert(old(self).runner().permits(self.calls().last().2));
        match deleted {
            Err(e) => {
                let t = e.to_string();
                Err(joined("Failed to delete branch: ", t.as_str()))
            },
            Ok(out) => {
                if out.success {
                    Ok(())
                } else {
                    let text = decode_lossy(&out.stderr);
                    proof { reveal_strlit("Error deleting branch: "); }
                    Err(joined("Error deleting branch: ", text.as_str()))
                }
            },
        }
    }

    /// Pushes `branch` to `origin`, setting it as upstream.
    pub(crate) fn push_origin(&mut self, branch: &str, skip_hooks: bool) -> (r: std::io::Result<RunResult>)
        ensures
            final(self).calls() == old(self).calls().push(("git"@, push_args(branch@, skip_hooks), r)),
            final(self).runner_kept(old(self)),
            final(self).extends(old(self)),
    {
        if skip_hooks {
            let args: [&str; 5] = ["push", "--no-verify", "-u", "origin", branch];
            let res = self.git(args.as_slice());
            assert(str_views(args@) =~= push_args(branch@, skip_hooks));
            res
        } else {
            let args: [&str; 4] = ["push", "-u", "origin", branch];
            let res = self.git(args.as_slice());
            assert(str_views(args@) =~= push_args(branch@, skip_hooks));
            res
        }
    }

    /// Checks out `branch`, and creates it where checking it out fails.
    pub(crate) fn checkout_or_create(&mut self, branch: String) -> (r: Result<String, String>)
        ensures
            final(self).extends(old(self)),
            checkout_or_create_spec(final(self).calls_since(old(self)), branch@, r),
            final(self).runner_kept(old(self)),
    {
        let ghost n = self.calls().len();
        let first = {
            let args: [&str; 2] = ["checkout", branch.as_str()];
            let res = self.git(args.as_slice());
            assert(str_views(args@) =~= checkout_args(branch@));
            res
        };
        assert(calls_after(self.calls(), n as int) =~= seq![self.calls().last()]);
        match first {
            Err(e) => {
                let t = e.to_string();
                Err(joined("Failed to checkout branch: ", t.as_str()))
            },
            Ok(first_out) => {
                if first_out.success {
                    return Ok(branch);
                }
                let second = {
                    let args: [&str; 3] = ["checkout", "-b", branch.as_str()];
                    let res = self.git(args.as_slice());
                    assert(str_views(args@) =~= create_args(branch@));
                    res
                };
                assert(calls_after(self.calls(), n as int) =~= seq![
                    self.calls()[n as int],
                    self.calls().last(),
                ]);
                match second {
                    Err(e) => {
                        let t = e.to_string();
                        Err(joined("Failed to create branch: ", t.as_str()))
                    },
                    Ok(second_out) => {
                        if second_out.success {
                            Ok(branch)
                        } else {
                            let text = decode_lossy(&first_out.stderr);
                            proof { reveal_strlit("Error creating branch: "); }
                            Err(joined("Error creating branch: ", text.as_str()))
                        }
                    },
                }
            },
        }
    }
}

impl Git<MockCommandRunner> {
    /// A value whose every command gives `result`, without touching the
    /// system.
    pub fn with_mock(result: RunResult) -> (g: Self)
        ensures
            g.calls() == Seq::<Call>::empty(),
            g.runner().result == result,
    {
        Git::with_runner(MockCommandRunner { result })
    }
}

} // verus!
