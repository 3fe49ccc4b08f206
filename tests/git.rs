use std::cell::RefCell;
use std::rc::Rc;

use quati::command_runner::{CommandRunner, RunResult};
use quati::git::Git;

fn ok(stdout: &[u8]) -> std::io::Result<RunResult> {
    Ok(RunResult { success: true, stdout: stdout.to_vec(), stderr: vec![] })
}

fn failed(stderr: &[u8]) -> std::io::Result<RunResult> {
    Ok(RunResult { success: false, stdout: vec![], stderr: stderr.to_vec() })
}

fn not_found() -> std::io::Result<RunResult> {
    Err(std::io::Error::new(std::io::ErrorKind::NotFound, "no git here"))
}

/// Hands out queued results in order and records every command it is given.
struct ScriptedRunner {
    results: Vec<std::io::Result<RunResult>>,
    seen: Rc<RefCell<Vec<Vec<String>>>>,
}

impl CommandRunner for ScriptedRunner {
    fn run(&mut self, program: &str, args: &[&str]) -> std::io::Result<RunResult> {
        assert_eq!(program, "git");
        self.seen.borrow_mut().push(args.iter().map(|a| a.to_string()).collect());
        self.results.remove(0)
    }
}

fn scripted(results: Vec<std::io::Result<RunResult>>) -> (Git<ScriptedRunner>, Rc<RefCell<Vec<Vec<String>>>>) {
    let seen = Rc::new(RefCell::new(Vec::new()));
    let git = Git::with_runner(ScriptedRunner { results, seen: seen.clone() });
    (git, seen)
}

fn words(args: &[&str]) -> Vec<String> {
    args.iter().map(|a| a.to_string()).collect()
}

#[test]
fn should_return_branch_name() {
    let mut git = Git::with_mock(RunResult {
        success: true,
        stdout: b"feature/test\n".to_vec(),
        stderr: vec![],
    });

    let result = git.get_current_branch_name().unwrap();
    assert_eq!(result, "feature/test");
}

#[test]
fn should_create_default_branch_when_no_branch_name_sent() {
    let mut git = Git::with_mock(RunResult {
        success: true,
        stdout: b"main\n".to_vec(),
        stderr: vec![],
    });
    let result = git.create_branch(None).unwrap();
    assert_eq!(result, "wip/main");
}

#[test]
fn current_branch_is_read_with_rev_parse_and_trimmed() {
    let (mut git, seen) = scripted(vec![ok(b"  topic/one \r\n")]);
    assert_eq!(git.get_current_branch_name().unwrap(), "topic/one");
    assert_eq!(*seen.borrow(), vec![words(&["rev-parse", "--abbrev-ref", "HEAD"])]);
}

#[test]
fn current_branch_failure_reports_decoded_stderr() {
    let (mut git, _) = scripted(vec![failed(b"fatal: not a repo \xff")]);
    let e = git.get_current_branch_name().unwrap_err();
    assert_eq!(e, "Error: fatal: not a repo \u{FFFD}");
}

#[test]
fn current_branch_launch_failure_is_an_error() {
    let (mut git, _) = scripted(vec![not_found()]);
    let e = git.get_current_branch_name().unwrap_err();
    assert_eq!(e, "Failed: no git here");
}

#[test]
fn create_branch_with_name_checks_out_existing_branch() {
    let (mut git, seen) = scripted(vec![ok(b"")]);
    assert_eq!(git.create_branch(Some("feature/test")).unwrap(), "wip/feature/test");
    assert_eq!(*seen.borrow(), vec![words(&["checkout", "wip/feature/test"])]);
}

#[test]
fn create_branch_creates_when_checkout_fails() {
    let (mut git, seen) = scripted(vec![failed(b"no such branch"), ok(b"")]);
    assert_eq!(git.create_branch(Some("x")).unwrap(), "wip/x");
    assert_eq!(
        *seen.borrow(),
        vec![words(&["checkout", "wip/x"]), words(&["checkout", "-b", "wip/x"])]
    );
}

#[test]
fn create_branch_reports_checkout_stderr_when_both_fail() {
    let (mut git, _) = scripted(vec![failed(b"no such branch"), failed(b"cannot create")]);
    let e = git.create_branch(Some("x")).unwrap_err();
    assert_eq!(e, "Error creating branch: no such branch");
}

#[test]
fn create_branch_without_name_stops_when_current_branch_unknown() {
    let (mut git, seen) = scripted(vec![failed(b"bad")]);
    assert_eq!(git.create_branch(None).unwrap_err(), "Error: bad");
    assert_eq!(seen.borrow().len(), 1);
}

#[test]
fn delete_refuses_main() {
    let (mut git, seen) = scripted(vec![ok(b"main\n")]);
    assert_eq!(git.delete_current_branch().unwrap_err(), "Cannot delete the main branch");
    assert_eq!(seen.borrow().len(), 1);
}

#[test]
fn delete_checks_out_main_then_deletes() {
    let (mut git, seen) = scripted(vec![ok(b"wip/x\n"), ok(b""), ok(b"")]);
    assert!(git.delete_current_branch().is_ok());
    assert_eq!(
        *seen.borrow(),
        vec![
            words(&["rev-parse", "--abbrev-ref", "HEAD"]),
            words(&["checkout", "main"]),
            words(&["branch", "-D", "wip/x"]),
        ]
    );
}

#[test]
fn delete_reports_stderr_of_failed_delete() {
    let (mut git, _) = scripted(vec![ok(b"wip/x\n"), ok(b""), failed(b"not merged")]);
    assert_eq!(git.delete_current_branch().unwrap_err(), "Error deleting branch: not merged");
}

use quati::start::{run_start, target_branch_name, Config, PushStatus, StartError};

fn config(prefix: Option<&str>, skip_hooks: bool, remove_prefix: bool, no_push: bool) -> Config {
    Config::new(prefix.map(|p| p.to_string()), skip_hooks, remove_prefix, no_push)
}

#[test]
fn default_prefix_is_wip() {
    assert_eq!(config(None, false, false, false).prefix, "wip/");
    assert_eq!(config(Some(""), false, false, false).prefix, "");
    assert_eq!(config(Some("tmp-"), false, false, false).prefix, "tmp-");
}

#[test]
fn target_name_puts_prefix_before_base() {
    assert_eq!(target_branch_name("main", &config(None, false, false, false)), "wip/main");
    assert_eq!(target_branch_name("main", &config(Some("me/"), false, false, false)), "me/main");
}

#[test]
fn target_name_without_prefix_ignores_override() {
    assert_eq!(target_branch_name("topic", &config(Some("me/"), false, true, false)), "topic");
    assert_eq!(target_branch_name("topic", &config(None, false, true, false)), "topic");
}

#[test]
fn start_without_name_uses_wip_and_current_branch() {
    let (mut git, seen) = scripted(vec![ok(b"main\n"), ok(b""), ok(b"")]);
    let out = run_start(&mut git, None, &config(None, false, false, false)).ok().unwrap();
    assert_eq!(out.branch, "wip/main");
    assert!(matches!(out.push, PushStatus::Pushed));
    assert_eq!(
        *seen.borrow(),
        vec![
            words(&["rev-parse", "--abbrev-ref", "HEAD"]),
            words(&["checkout", "wip/main"]),
            words(&["push", "-u", "origin", "wip/main"]),
        ]
    );
}

#[test]
fn start_without_prefix_uses_explicit_name() {
    let (mut git, seen) = scripted(vec![ok(b"main\n"), ok(b"")]);
    let out = run_start(&mut git, Some("topic"), &config(Some("me/"), false, true, true)).ok().unwrap();
    assert_eq!(out.branch, "topic");
    assert_eq!(seen.borrow()[1], words(&["checkout", "topic"]));
}

#[test]
fn start_halts_when_already_on_target() {
    let (mut git, seen) = scripted(vec![ok(b"wip/main\n")]);
    let e = run_start(&mut git, Some("main"), &config(None, false, false, false)).err().unwrap();
    assert!(matches!(e, StartError::AlreadyOnBranch(ref b) if b == "wip/main"));
    assert_eq!(*seen.borrow(), vec![words(&["rev-parse", "--abbrev-ref", "HEAD"])]);
}

#[test]
fn start_halts_when_unprefixed_current_branch_is_target() {
    let (mut git, seen) = scripted(vec![ok(b"topic\n")]);
    let e = run_start(&mut git, None, &config(None, true, true, false)).err().unwrap();
    assert!(matches!(e, StartError::AlreadyOnBranch(ref b) if b == "topic"));
    assert_eq!(seen.borrow().len(), 1);
}

#[test]
fn start_reports_unreadable_current_branch() {
    let (mut git, seen) = scripted(vec![failed(b"not a repo")]);
    let e = run_start(&mut git, Some("x"), &config(None, false, false, false)).err().unwrap();
    assert!(matches!(e, StartError::CurrentBranch(ref m) if m == "Error: not a repo"));
    assert_eq!(seen.borrow().len(), 1);
}

#[test]
fn start_creates_branch_and_pushes_it() {
    let (mut git, seen) = scripted(vec![ok(b"main\n"), failed(b"no branch"), ok(b""), ok(b"")]);
    let out = run_start(&mut git, Some("feat"), &config(None, false, false, false)).ok().unwrap();
    assert_eq!(out.branch, "wip/feat");
    assert_eq!(
        *seen.borrow(),
        vec![
            words(&["rev-parse", "--abbrev-ref", "HEAD"]),
            words(&["checkout", "wip/feat"]),
            words(&["checkout", "-b", "wip/feat"]),
            words(&["push", "-u", "origin", "wip/feat"]),
        ]
    );
}

#[test]
fn start_reports_failed_creation() {
    let (mut git, seen) = scripted(vec![ok(b"main\n"), failed(b"bad name"), failed(b"still bad")]);
    let e = run_start(&mut git, Some("feat"), &config(None, false, false, false)).err().unwrap();
    assert!(matches!(
        e,
        StartError::CreateFailed { ref branch, ref reason }
            if branch == "wip/feat" && reason == "Error creating branch: bad name"
    ));
    assert_eq!(seen.borrow().len(), 3);
}

#[test]
fn start_without_push_issues_no_push() {
    for skip_hooks in [false, true] {
        let (mut git, seen) = scripted(vec![ok(b"main\n"), ok(b"")]);
        let out = run_start(&mut git, None, &config(None, skip_hooks, false, true)).ok().unwrap();
        assert!(matches!(out.push, PushStatus::Skipped));
        assert!(seen.borrow().iter().all(|c| c[0] != "push"));
        assert_eq!(seen.borrow().len(), 2);
    }
}

#[test]
fn start_push_carries_no_verify_only_when_skipping_hooks() {
    let (mut git, seen) = scripted(vec![ok(b"main\n"), ok(b""), ok(b"")]);
    run_start(&mut git, None, &config(None, true, false, false)).ok().unwrap();
    assert_eq!(seen.borrow()[2], words(&["push", "--no-verify", "-u", "origin", "wip/main"]));

    let (mut git, seen) = scripted(vec![ok(b"main\n"), ok(b""), ok(b"")]);
    run_start(&mut git, None, &config(None, false, false, false)).ok().unwrap();
    assert!(!seen.borrow()[2].contains(&"--no-verify".to_string()));
}

#[test]
fn start_push_failure_is_not_fatal() {
    let (mut git, _) = scripted(vec![ok(b"main\n"), ok(b""), failed(b"rejected")]);
    let out = run_start(&mut git, None, &config(None, false, false, false)).ok().unwrap();
    assert_eq!(out.branch, "wip/main");
    assert!(matches!(out.push, PushStatus::Failed(ref m) if m == "rejected"));
}

#[test]
fn start_push_launch_failure_is_fatal() {
    let (mut git, _) = scripted(vec![ok(b"main\n"), ok(b""), not_found()]);
    let e = run_start(&mut git, None, &config(None, false, false, false)).err().unwrap();
    assert!(matches!(e, StartError::PushNotLaunched(ref m) if m == "Failed to push branch: no git here"));
}

#[test]
fn current_branch_trims_ascii_whitespace_only() {
    let (mut git, _) = scripted(vec![ok("\t\u{A0}topic\u{A0}\x0B\n".as_bytes())]);
    assert_eq!(git.get_current_branch_name().unwrap(), "\u{A0}topic\u{A0}\x0B");
}

#[test]
fn current_branch_of_only_whitespace_is_empty() {
    let (mut git, _) = scripted(vec![ok(b" \r\n\x0C\t")]);
    assert_eq!(git.get_current_branch_name().unwrap(), "");
}

#[test]
fn mocked_git_reads_configured_branch_for_every_call() {
    let mut git = Git::with_mock(RunResult {
        success: true,
        stdout: b"  Feature/My_Branch\r\n".to_vec(),
        stderr: vec![],
    });
    assert_eq!(git.get_current_branch_name().unwrap(), "Feature/My_Branch");
    assert_eq!(git.get_current_branch_name().unwrap(), "Feature/My_Branch");
}

#[test]
fn mocked_failure_is_an_error_even_with_output() {
    let mut git = Git::with_mock(RunResult {
        success: false,
        stdout: b"main\n".to_vec(),
        stderr: b"fatal: not a git repository".to_vec(),
    });
    assert_eq!(git.get_current_branch_name().unwrap_err(), "Error: fatal: not a git repository");
}

#[test]
fn checkout_launch_failure_is_fatal() {
    let (mut git, seen) = scripted(vec![not_found()]);
    assert_eq!(git.create_branch(Some("x")).unwrap_err(), "Failed to checkout branch: no git here");
    assert_eq!(seen.borrow().len(), 1);
}

#[test]
fn delete_reports_launch_failure_of_checkout_main() {
    let (mut git, seen) = scripted(vec![ok(b"wip/x\n"), not_found()]);
    assert_eq!(git.delete_current_branch().unwrap_err(), "Failed to checkout main branch: no git here");
    assert_eq!(seen.borrow().len(), 2);
}

#[test]
fn start_refuses_empty_branch_name() {
    let (mut git, seen) = scripted(vec![ok(b"main\n")]);
    let e = run_start(&mut git, Some(""), &config(None, false, true, false)).err().unwrap();
    assert!(matches!(e, StartError::EmptyBranchName));
    assert_eq!(seen.borrow().len(), 1);
}

#[test]
fn start_reports_both_checkouts_failing_without_push() {
    for (skip_hooks, no_push) in [(false, false), (true, false), (false, true), (true, true)] {
        let (mut git, seen) = scripted(vec![ok(b"main\n"), failed(b"e1"), failed(b"e2")]);
        let e = run_start(&mut git, Some("t"), &config(None, skip_hooks, false, no_push)).err().unwrap();
        assert!(matches!(e, StartError::CreateFailed { ref branch, .. } if branch == "wip/t"));
        assert!(seen.borrow().iter().all(|c| c[0] != "push"));
    }
}
