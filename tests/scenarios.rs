use shell_test_harness::builder::{Fixture, TestBuilder};
use shell_test_harness::env::EnvVars;
use shell_test_harness::verdict::{AssertionResult, PathObservation, RunOutcome};

fn builder() -> TestBuilder {
    TestBuilder::new(EnvVars::new())
}

fn outcome(exit_code: i32, stdout: &str, stderr: &str, observations: Vec<PathObservation>) -> RunOutcome {
    RunOutcome {
        exit_code,
        stdout: stdout.to_string(),
        stderr: stderr.to_string(),
        observations,
    }
}

fn seen(exists: bool, text: Option<&str>) -> PathObservation {
    PathObservation {
        exists,
        text: text.map(|t| t.to_string()),
    }
}

#[test]
fn echo_foo_passes() {
    let mut b = builder();
    b.command("echo foo");
    b.assert_stdout("foo\n");
    b.assert_exit_code(0);
    assert!(b.temp_dir.is_none());
    assert!(!b.needs_temp_dir());
    let v = b.evaluate(&outcome(0, "foo\n", "", vec![]));
    assert!(v.stdout_ok && v.stderr_ok && v.exit_code_ok);
    assert!(v.passed());
}

#[test]
fn echo_foo_wrong_output_fails() {
    let mut b = builder();
    b.command("echo foo");
    b.assert_stdout("foo\n");
    let v = b.evaluate(&outcome(0, "bar\n", "", vec![]));
    assert!(!v.stdout_ok);
    assert!(v.stderr_ok && v.exit_code_ok);
    assert!(!v.passed());
}

#[test]
fn mkdir_and_write_checks_pass() {
    let mut b = builder();
    b.command("mkdir sub && echo hi > sub/out.txt");
    b.assert_exists("sub/out.txt");
    b.assert_file_equals("sub/out.txt", "hi\n");
    assert!(b.needs_temp_dir());
    let cwd = b.acquire_temp_dir("/tmp/sandbox-1");
    assert_eq!(cwd, "/tmp/sandbox-1");
    assert!(!b.needs_temp_dir());
    let v = b.evaluate(&outcome(
        0,
        "",
        "",
        vec![seen(true, None), seen(true, Some("hi\n"))],
    ));
    assert_eq!(v.assertions, vec![AssertionResult::Passed, AssertionResult::Passed]);
    assert!(v.passed());
}

#[test]
fn placeholder_takes_sandbox_path() {
    let mut b = builder();
    b.command("pwd");
    b.ensure_temp_dir();
    b.acquire_temp_dir("/private/tmp/abc");
    b.assert_stdout("$TEMP_DIR\n");
    let v = b.evaluate(&outcome(0, "/private/tmp/abc\n", "", vec![]));
    assert!(v.passed());
    let v = b.evaluate(&outcome(0, "$TEMP_DIR\n", "", vec![]));
    assert!(!v.stdout_ok);
}

#[test]
fn placeholder_without_sandbox_is_marker() {
    let mut b = builder();
    b.assert_stderr("$TEMP_DIR");
    assert_eq!(b.temp_dir_label(), "NO_TEMP_DIR");
    let v = b.evaluate(&outcome(0, "", "NO_TEMP_DIR", vec![]));
    assert!(v.passed());
}

#[test]
fn exit_code_and_stderr_expected() {
    let mut b = builder();
    b.command("bad-command --x");
    b.assert_exit_code(1);
    b.assert_stderr("error: bad arg\n");
    let run = outcome(1, "", "error: bad arg\n", vec![]);
    assert!(b.evaluate(&run).passed());

    b.assert_exit_code(0);
    let v = b.evaluate(&run);
    assert!(!v.exit_code_ok);
    assert!(v.stdout_ok && v.stderr_ok);
    assert!(!v.passed());
    assert_eq!(b.command, "bad-command --x");
}

#[test]
fn every_check_is_judged() {
    let mut b = builder();
    b.assert_exists("a");
    b.assert_not_exists("b");
    b.assert_file_equals("c", "x");
    b.assert_file_equals("d", "y");
    b.assert_exists("e");
    let v = b.evaluate(&outcome(
        3,
        "out",
        "",
        vec![
            seen(false, None),
            seen(true, None),
            seen(true, None),
            seen(true, Some("z")),
        ],
    ));
    assert!(!v.exit_code_ok);
    assert!(!v.stdout_ok);
    assert_eq!(
        v.assertions,
        vec![
            AssertionResult::MissingPath,
            AssertionResult::UnexpectedPath,
            AssertionResult::Unreadable,
            AssertionResult::TextMismatch,
            AssertionResult::NotObserved,
        ]
    );
}

#[test]
fn no_stdin_means_empty_input() {
    let mut b = builder();
    b.command("cat");
    b.assert_stdout("");
    b.env_var("A", "1");
    b.file("f.txt", "x");
    assert!(b.stdin.is_empty());
    b.stdin("héllo");
    assert_eq!(b.stdin, "héllo".as_bytes().to_vec());
}

#[test]
fn sandbox_is_acquired_once() {
    let mut b = builder();
    let first = b.acquire_temp_dir("/tmp/one");
    let second = b.acquire_temp_dir("/tmp/two");
    assert_eq!(first, "/tmp/one");
    assert_eq!(second, "/tmp/one");
    assert_eq!(b.temp_dir.as_deref(), Some("/tmp/one"));
    assert_eq!(b.working_dir("/tmp"), "/tmp/one");
}

#[test]
fn working_dir_defaults_without_sandbox() {
    let b = builder();
    assert_eq!(b.working_dir("/var/tmp"), "/var/tmp");
}

#[test]
fn expectations_accumulate() {
    let mut b = builder();
    b.assert_stdout("a");
    b.assert_stdout("b\n");
    b.assert_stderr("x");
    b.assert_stderr("y");
    assert_eq!(b.expected_stdout, "ab\n");
    assert_eq!(b.expected_stderr, "xy");
    assert_eq!(b.expected_exit_code, 0);
}

#[test]
fn fixtures_are_recorded_in_order() {
    let mut b = builder();
    b.directory("sub");
    b.file("sub/a.txt", "text");
    assert!(b.sandbox_requested);
    assert_eq!(b.fixtures.len(), 2);
    assert!(matches!(&b.fixtures[0], Fixture::Directory(p) if p == "sub"));
    assert!(matches!(&b.fixtures[1], Fixture::File(p, t) if p == "sub/a.txt" && t == "text"));
}

#[test]
fn assertion_paths_are_kept() {
    let mut b = builder();
    b.assert_file_equals("x/y.txt", "t");
    assert_eq!(b.assertions[0].path(), "x/y.txt");
}

#[test]
fn plan_hands_over_configuration() {
    let base = vec![("HOME".to_string(), "/h".to_string())];
    let mut b = TestBuilder::new(EnvVars::capture(&base, false));
    b.command("echo $HOME");
    b.env_var("HOME", "/other");
    b.env_var("EXTRA", "1");
    let p = b.plan("/tmp");
    assert_eq!(p.command, "echo $HOME");
    assert_eq!(p.cwd, "/tmp");
    assert!(p.stdin.is_empty());
    assert_eq!(
        p.env_vars,
        vec![
            ("HOME".to_string(), "/other".to_string()),
            ("EXTRA".to_string(), "1".to_string())
        ]
    );
    b.stdin("in\n");
    b.acquire_temp_dir("/sandbox");
    let p = b.plan("/tmp");
    assert_eq!(p.cwd, "/sandbox");
    assert_eq!(p.stdin, b"in\n".to_vec());
}
