use vstd::prelude::*;

use crate::command_runner::CommandRunner;
use crate::git::{
    branch_of, calls_after, checkout_args, checkout_calls, checkout_done, checkout_error, create_args, current_branch_error, is_git, launch_message,
    opt_view, push_args, rev_parse_args, run_failed, run_succeeded, wip_prefix, Call, Git,
};
use crate::text::{decode_lossy, joined, lossy_text};

verus! {

/// How a branch is started: the prefix put before its name, and the three
/// switches of the command line.
pub struct Config {
    pub prefix: String,
    pub skip_hooks: bool,
    pub remove_prefix: bool,
    pub no_push: bool,
}

impl Config {
    /// A configuration whose prefix is `prefix_override` where one is given,
    /// and `wip/` otherwise.
    pub fn new(prefix_override: Option<String>, skip_hooks: bool, remove_prefix: bool, no_push: bool) -> (c: Config)
        ensures
            c.prefix@ == match prefix_override {
                Some(p) => p@,
                None => wip_prefix(),
            },
            c.skip_hooks == skip_hooks,
            c.remove_prefix == remove_prefix,
            c.no_push == no_push,
    {
        let prefix = match prefix_override {
            Some(p) => p,
            None => {
                proof { reveal_strlit("wip/"); }
                assert("wip/"@ =~= wip_prefix());
                String::from_str("wip/")
            },
        };
        Config { prefix, skip_hooks, remove_prefix, no_push }
    }
}

/// What became of the push that follows a started branch.
pub enum PushStatus {
    Skipped,
    Pushed,
    /// The push ran and failed; its standard error, decoded.
    Failed(String),
}

/// A branch that was started: its name, and what became of the push.
pub struct StartOutcome {
    pub branch: String,
    pub push: PushStatus,
}

/// Why starting a branch halted.
pub enum StartError {
    /// The current branch could not be read.
    CurrentBranch(String),
    /// The target branch is the one checked out now.
    AlreadyOnBranch(String),
    /// The target branch's name is empty.
    EmptyBranchName,
    /// The target branch could be neither checked out nor created: its name,
    /// and why.
    CreateFailed { branch: String, reason: String },
    /// The push could not be launched.
    PushNotLaunched(String),
}

/// The name of the branch to start from `base`.
pub open spec fn target_name(base: Seq<char>, prefix: Seq<char>, remove_prefix: bool) -> Seq<char> {
    if remove_prefix {
        base
    } else {
        prefix + base
    }
}

/// The name of the branch to start from `base`: `base` with the configured
/// prefix before it, or `base` alone where the prefix is switched off.
pub fn target_branch_name(base: &str, config: &Config) -> (r: String)
    ensures
        r@ == target_name(base@, config.prefix@, config.remove_prefix),
{
    if config.remove_prefix {
        String::from_str(base)
    } else {
        joined(config.prefix.as_str(), base)
    }
}

/// `c` pushes something.
pub open spec fn is_push(c: Call) -> bool {
    c.1.len() > 0 && c.1[0] == "push"@
}

/// The branch that a start aims at, once `rev-parse` gave `current`.
pub open spec fn start_target(current: Seq<char>, explicit: Option<Seq<char>>, config: Config) -> Seq<char> {
    let base = match explicit {
        Some(b) => b,
        None => current,
    };
    target_name(base, config.prefix@, config.remove_prefix)
}

/// The number of calls that checking out or creating a branch makes, given
/// the calls from its first one on.
pub open spec fn checkout_len(cs: Seq<Call>) -> int {
    if run_failed(cs[0].2) {
        2
    } else {
        1
    }
}

/// `cs` are the calls made after the branch `branch` was checked out, and
/// `r` is what the start returns.
pub open spec fn push_spec(cs: Seq<Call>, branch: Seq<char>, config: Config, r: Result<StartOutcome, StartError>) -> bool {
    if config.no_push {
        cs.len() == 0 && r is Ok && r->Ok_0.branch@ == branch && r->Ok_0.push is Skipped
    } else {
        &&& cs.len() == 1
        &&& is_git(cs[0], push_args(branch, config.skip_hooks))
        &&& match cs[0].2 {
            Err(err) => r is Err && r->Err_0 is PushNotLaunched
                && launch_message("Failed to push branch: "@, err, r->Err_0->PushNotLaunched_0@),
            Ok(out) => {
                &&& r is Ok
                &&& r->Ok_0.branch@ == branch
                &&& if out.success {
                    r->Ok_0.push is Pushed
                } else {
                    r->Ok_0.push is Failed && r->Ok_0.push->Failed_0@ == lossy_text(out.stderr@)
                }
            },
        }
    }
}

/// `cs` are the calls made by starting a branch, and `r` is what the start
/// returns.
pub open spec fn start_spec(
    cs: Seq<Call>,
    explicit: Option<Seq<char>>,
    config: Config,
    r: Result<StartOutcome, StartError>,
) -> bool {
    &&& cs.len() >= 1
    &&& is_git(cs[0], rev_parse_args())
    &&& if !run_succeeded(cs[0].2) {
        &&& cs.len() == 1
        &&& r is Err && r->Err_0 is CurrentBranch
        &&& current_branch_error(cs[0].2, r->Err_0->CurrentBranch_0@)
    } else {
        let current = branch_of(cs[0].2->Ok_0);
        let target = start_target(current, explicit, config);
        if target.len() == 0 {
            &&& cs.len() == 1
            &&& r is Err && r->Err_0 is EmptyBranchName
        } else if target == current {
            &&& cs.len() == 1
            &&& r is Err && r->Err_0 is AlreadyOnBranch
            &&& r->Err_0->AlreadyOnBranch_0@ == target
        } else {
            let rest = calls_after(cs, 1);
            let n = checkout_len(rest);
            &&& rest.len() >= n
            &&& checkout_calls(rest.subrange(0, n), target)
            &&& if checkout_done(rest) {
                push_spec(calls_after(rest, n), target, config, r)
            } else {
                &&& cs.len() == 1 + n
                &&& match r {
                    Err(StartError::CreateFailed { branch, reason }) => branch@ == target && checkout_error(
                        rest,
                        reason@,
                    ),
                    _ => false,
                }
            }
        }
    }
}

/// Starts a branch: reads the current branch, works out the target name,
/// halts where that is the current branch, checks the target out (creating
/// it where needed), and pushes it to `origin` unless pushing is switched
/// off. `branch` is the base name; without it, the current branch's name
/// stands for it.
pub fn run_start<R: CommandRunner>(git: &mut Git<R>, branch: Option<&str>, config: &Config) -> (r: Result<StartOutcome, StartError>)
    ensures
        final(git).extends(old(git)),
        start_spec(final(git).calls_since(old(git)), opt_view(branch), *config, r),
        final(git).runner_kept(old(git)),
{
    let ghost g0 = *git;
    let current = match git.get_current_branch_name() {
        Ok(current) => current,
        Err(e) => {
            assert(git.calls_since(old(git)) =~= seq![git.calls().last()]);
            return Err(StartError::CurrentBranch(e));
        },
    };
    let ghost first = git.calls().last();
    let ghost g1 = *git;
    let target = match branch {
        Some(name) => target_branch_name(name, config),
        None => target_branch_name(current.as_str(), config),
    };
    if target.as_str().is_empty() {
        assert(git.calls_since(old(git)) =~= seq![first]);
        return Err(StartError::EmptyBranchName);
    }
    if target == current {
        assert(git.calls_since(old(git)) =~= seq![first]);
        return Err(StartError::AlreadyOnBranch(target));
    }
    let ghost m = git.calls().len();
    let target_name = target.clone();
    let checked = git.checkout_or_create(target);
    let ghost k = git.calls().len();
    let ghost g2 = *git;
    proof {
        Git::lemma_kept_chain(&g0, &g1, &g2);
        let cs = git.calls_since(old(git));
        assert(cs[0] == first);
        assert(calls_after(cs, 1) =~= calls_after(git.calls(), m as int));
    }
    let target = match checked {
        Ok(b) => b,
        Err(e) => {
            return Err(StartError::CreateFailed { branch: target_name, reason: e });
        },
    };
    if config.no_push {
        return Ok(StartOutcome { branch: target, push: PushStatus::Skipped });
    }
    let pushed = git.push_origin(target.as_str(), config.skip_hooks);
    proof {
        Git::lemma_kept_chain(&g0, &g2, git);
        let cs = git.calls_since(old(git));
        let rest = calls_after(cs, 1);
        assert(rest.subrange(0, k - m) =~= calls_after(git.calls().drop_last(), m as int));
        assert(calls_after(rest, k - m) =~= seq![git.calls().last()]);
    }
    match pushed {
        Err(e) => {
            let t = e.to_string();
            Err(StartError::PushNotLaunched(joined("Failed to push branch: ", t.as_str())))
        },
        Ok(out) => {
            let push = if out.success {
                PushStatus::Pushed
            } else {
                PushStatus::Failed(decode_lossy(&out.stderr))
            };
            Ok(StartOutcome { branch: target, push })
        },
    }
}

proof fn lemma_words_differ()
    ensures
        "push"@ != "rev-parse"@,
        "push"@ != "checkout"@,
        "--no-verify"@ != "push"@,
        "--no-verify"@ != "-u"@,
        "--no-verify"@ != "origin"@,
{
    reveal_strlit("push");
    reveal_strlit("rev-parse");
    reveal_strlit("checkout");
    reveal_strlit("--no-verify");
    reveal_strlit("-u");
    reveal_strlit("origin");
    assert("push"@[0] != "rev-parse"@[0]);
    assert("push"@[0] != "checkout"@[0]);
    assert("--no-verify"@[0] != "push"@[0]);
    assert("--no-verify"@.len() != "-u"@.len());
    assert("--no-verify"@[0] != "origin"@[0]);
}

/// Where the target branch is the branch checked out now, a start halts
/// after reading the current branch: it checks nothing out and pushes
/// nothing.
pub proof fn lemma_halts_on_current_branch(
    cs: Seq<Call>,
    explicit: Option<Seq<char>>,
    config: Config,
    r: Result<StartOutcome, StartError>,
)
    requires
        start_spec(cs, explicit, config, r),
        run_succeeded(cs[0].2),
        start_target(branch_of(cs[0].2->Ok_0), explicit, config) == branch_of(cs[0].2->Ok_0),
    ensures
        cs == seq![cs[0]],
        is_git(cs[0], rev_parse_args()),
        r is Err && (r->Err_0 is AlreadyOnBranch || r->Err_0 is EmptyBranchName),
{
    assert(cs =~= seq![cs[0]]);
}

/// Without a prefix, the target branch is the name given, or the current
/// branch's name, whatever prefix is configured.
pub proof fn lemma_unprefixed_target(current: Seq<char>, explicit: Option<Seq<char>>, config: Config)
    requires
        config.remove_prefix,
    ensures
        start_target(current, explicit, config) == match explicit {
            Some(b) => b,
            None => current,
        },
{
}

/// With the default prefix and no name given, the target branch is `wip/`
/// followed by the current branch's name.
pub proof fn lemma_default_target(current: Seq<char>, config: Config)
    requires
        config.prefix@ == wip_prefix(),
        !config.remove_prefix,
    ensures
        start_target(current, None, config) == wip_prefix() + current,
{
}

/// Where checking out the target fails and creating it succeeds, a start
/// goes on to push the branch it created, unless pushing is switched off.
pub proof fn lemma_created_branch_is_pushed(
    cs: Seq<Call>,
    explicit: Option<Seq<char>>,
    config: Config,
    r: Result<StartOutcome, StartError>,
)
    requires
        start_spec(cs, explicit, config, r),
        cs.len() >= 3,
        run_failed(cs[1].2),
        run_succeeded(cs[2].2),
        !config.no_push,
    ensures
        run_succeeded(cs[0].2),
        ({
            let t = start_target(branch_of(cs[0].2->Ok_0), explicit, config);
            &&& is_git(cs[1], checkout_args(t))
            &&& is_git(cs[2], create_args(t))
            &&& cs.len() == 4
            &&& is_git(cs[3], push_args(t, config.skip_hooks))
            &&& cs[3].2 is Ok ==> r is Ok && r->Ok_0.branch@ == t
        }),
{
    let rest = calls_after(cs, 1);
    assert(rest[0] == cs[1]);
    assert(rest[1] == cs[2]);
    assert(calls_after(rest, 2)[0] == cs[3]);
}

/// With pushing switched off, a start issues no push.
pub proof fn lemma_no_push_when_switched_off(
    cs: Seq<Call>,
    explicit: Option<Seq<char>>,
    config: Config,
    r: Result<StartOutcome, StartError>,
)
    requires
        start_spec(cs, explicit, config, r),
        config.no_push,
    ensures
        forall|i: int| 0 <= i < cs.len() ==> !is_push(#[trigger] cs[i]),
{
    lemma_words_differ();
    if cs.len() > 1 {
        let rest = calls_after(cs, 1);
        assert forall|i: int| 0 <= i < cs.len() implies !is_push(#[trigger] cs[i]) by {
            if i > 0 {
                assert(cs[i] == rest[i - 1]);
            }
        }
    }
}

/// A push that a start issues carries `--no-verify` exactly where hooks are
/// skipped (for any branch not itself named `--no-verify`).
pub proof fn lemma_push_flag_follows_skip_hooks(
    cs: Seq<Call>,
    explicit: Option<Seq<char>>,
    config: Config,
    r: Result<StartOutcome, StartError>,
    i: int,
)
    requires
        start_spec(cs, explicit, config, r),
        0 <= i < cs.len(),
        is_push(cs[i]),
        cs[i].1.last() != "--no-verify"@,
    ensures
        cs[i].1.contains("--no-verify"@) <==> config.skip_hooks,
{
    lemma_words_differ();
    let rest = calls_after(cs, 1);
    assert(i > 0);
    assert(cs[i] == rest[i - 1]);
    let a = cs[i].1;
    if config.skip_hooks {
        assert(a[1] == "--no-verify"@);
    } else {
        assert(!a.contains("--no-verify"@)) by {
            if a.contains("--no-verify"@) {
                let j = choose|j: int| 0 <= j < a.len() && a[j] == "--no-verify"@;
                assert(0 <= j < 4);
            }
        }
    }
}

} // verus!
