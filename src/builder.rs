//! The scenario builder: what to run, in which environment, with which
//! fixtures and input, and what to expect of the run.
use vstd::prelude::*;
use vstd::string::*;
use crate::env::{pair_views, EnvVars};
use crate::text::{expectation_met, no_sandbox_marker, no_sandbox_str, output_matches};
use crate::verdict::{
    assertion_result, judge_assertion, AssertionResult, PathObservation, RunOutcome,
    TestAssertion, Verdict,
};

verus! {

/// Something to create in the sandbox before the run, at a relative path.
pub enum Fixture {
    /// A directory, with any missing parents.
    Directory(String),
    /// A file holding the text.
    File(String, String),
}

/// The sandbox path after a get-or-create: the one already there, else the
/// fresh one offered.
pub open spec fn acquired(slot: Option<Seq<char>>, fresh: Seq<char>) -> Seq<char> {
    match slot {
        Some(p) => p,
        None => fresh,
    }
}

/// Getting the sandbox a second time gives the path of the first time,
/// whatever fresh path is offered.
pub proof fn lemma_acquire_idempotent(slot: Option<Seq<char>>, first: Seq<char>, second: Seq<char>)
    ensures
        acquired(Some(acquired(slot, first)), second) == acquired(slot, first),
{
}

/// What the placeholder in expected output stands for.
pub open spec fn sandbox_label(slot: Option<Seq<char>>) -> Seq<char> {
    match slot {
        Some(p) => p,
        None => no_sandbox_marker(),
    }
}

/// The result of check `i` of `assertions`, given the observations.
pub open spec fn result_at(assertions: Seq<TestAssertion>, observations: Seq<PathObservation>, i: int) -> AssertionResult {
    if i < observations.len() {
        assertion_result(assertions[i], observations[i])
    } else {
        AssertionResult::NotObserved
    }
}

/// What the executor is handed for one run.
pub struct RunPlan {
    /// The command text, parsed only now.
    pub command: String,
    /// The environment, with the scenario's overrides applied.
    pub env_vars: Vec<(String, String)>,
    /// The working directory.
    pub cwd: String,
    /// Every byte the executor may read on its input; the stream ends after them.
    pub stdin: Vec<u8>,
}

/// One configured scenario.
pub struct TestBuilder {
    /// The sandbox's canonical path, once it has been provisioned.
    pub temp_dir: Option<String>,
    /// A fixture or a filesystem check has asked for a sandbox.
    pub sandbox_requested: bool,
    pub env_vars: EnvVars,
    pub command: String,
    pub stdin: Vec<u8>,
    pub expected_exit_code: i32,
    pub expected_stderr: String,
    pub expected_stdout: String,
    /// Checks on the sandbox after the run, in declaration order.
    pub assertions: Vec<TestAssertion>,
    /// What to create in the sandbox before the run, in declaration order.
    pub fixtures: Vec<Fixture>,
}

impl TestBuilder {
    pub open spec fn wf(&self) -> bool {
        self.env_vars.wf()
    }

    /// The sandbox's path, where there is one.
    pub open spec fn sandbox(&self) -> Option<Seq<char>> {
        match self.temp_dir {
            Some(p) => Some(p@),
            None => None,
        }
    }

    /// Nothing but the sandbox fields differs between `self` and `other`.
    pub open spec fn same_but_sandbox(&self, other: &TestBuilder) -> bool {
        &&& self.env_vars == other.env_vars
        &&& self.command == other.command
        &&& self.stdin == other.stdin
        &&& self.expected_exit_code == other.expected_exit_code
        &&& self.expected_stderr == other.expected_stderr
        &&& self.expected_stdout == other.expected_stdout
        &&& self.assertions == other.assertions
        &&& self.fixtures == other.fixtures
    }

    /// What runs, and where, is as in `other`.
    pub open spec fn same_setup(&self, other: &TestBuilder) -> bool {
        &&& self.temp_dir == other.temp_dir
        &&& self.sandbox_requested == other.sandbox_requested
        &&& self.env_vars == other.env_vars
        &&& self.command == other.command
        &&& self.stdin == other.stdin
        &&& self.fixtures == other.fixtures
    }

    /// A scenario with the given environment, an empty command, no input,
    /// no sandbox, and exit code 0, empty output and no checks expected.
    pub fn new(env_vars: EnvVars) -> (r: TestBuilder)
        requires
            env_vars.wf(),
        ensures
            r.wf(),
            r.temp_dir is None,
            !r.sandbox_requested,
            r.env_vars == env_vars,
            r.command@ == Seq::<char>::empty(),
            r.stdin@ == Seq::<u8>::empty(),
            r.expected_exit_code == 0,
            r.expected_stderr@ == Seq::<char>::empty(),
            r.expected_stdout@ == Seq::<char>::empty(),
            r.assertions@ == Seq::<TestAssertion>::empty(),
            r.fixtures@ == Seq::<Fixture>::empty(),
    {
        TestBuilder {
            temp_dir: None,
            sandbox_requested: false,
            env_vars,
            command: String::new(),
            stdin: Vec::new(),
            expected_exit_code: 0,
            expected_stderr: String::new(),
            expected_stdout: String::new(),
            assertions: Vec::new(),
            fixtures: Vec::new(),
        }
    }

    /// Asks for a sandbox even where no fixture or check needs one.
    pub fn ensure_temp_dir(&mut self)
        ensures
            final(self).sandbox_requested,
            final(self).temp_dir == old(self).temp_dir,
            final(self).same_but_sandbox(old(self)),
    {
        self.sandbox_requested = true;
    }

    /// A sandbox has been asked for and is not there yet.
    pub fn needs_temp_dir(&self) -> (r: bool)
        ensures
            r == (self.sandbox_requested && self.temp_dir is None),
    {
        self.sandbox_requested && self.temp_dir.is_none()
    }

    /// Gets the sandbox, taking `fresh` as its path only where there is none yet.
    pub fn acquire_temp_dir(&mut self, fresh: &str) -> (r: String)
        ensures
            r@ == acquired(old(self).sandbox(), fresh@),
            final(self).sandbox() == Some(r@),
            final(self).sandbox_requested,
            final(self).same_but_sandbox(old(self)),
    {
        self.sandbox_requested = true;
        match &self.temp_dir {
            Some(p) => p.clone(),
            None => {
                let p = fresh.to_owned();
                self.temp_dir = Some(p.clone());
                p
            },
        }
    }

    /// Sets the command text.
    pub fn command(&mut self, command: &str)
        ensures
            final(self).command@ == command@,
            final(self).temp_dir == old(self).temp_dir,
            final(self).sandbox_requested == old(self).sandbox_requested,
            final(self).env_vars == old(self).env_vars,
            final(self).stdin == old(self).stdin,
            final(self).expected_exit_code == old(self).expected_exit_code,
            final(self).expected_stderr == old(self).expected_stderr,
            final(self).expected_stdout == old(self).expected_stdout,
            final(self).assertions == old(self).assertions,
            final(self).fixtures == old(self).fixtures,
    {
        self.command = command.to_owned();
    }

    /// Sets the bytes the executor reads on its input: those of `stdin`.
    pub fn stdin(&mut self, stdin: &str)
        ensures
            final(self).stdin@ == stdin.spec_bytes(),
            final(self).temp_dir == old(self).temp_dir,
            final(self).sandbox_requested == old(self).sandbox_requested,
            final(self).env_vars == old(self).env_vars,
            final(self).command == old(self).command,
            final(self).expected_exit_code == old(self).expected_exit_code,
            final(self).expected_stderr == old(self).expected_stderr,
            final(self).expected_stdout == old(self).expected_stdout,
            final(self).assertions == old(self).assertions,
            final(self).fixtures == old(self).fixtures,
    {
        self.stdin = stdin.as_bytes_vec();
    }

    /// Adds a directory to create in the sandbox, asking for the sandbox.
    pub fn directory(&mut self, path: &str)
        ensures
            final(self).fixtures@.len() == old(self).fixtures@.len() + 1,
            final(self).fixtures@.drop_last() == old(self).fixtures@,
            final(self).fixtures@.last() matches Fixture::Directory(p) && p@ == path@,
            final(self).sandbox_requested,
            final(self).temp_dir == old(self).temp_dir,
            final(self).env_vars == old(self).env_vars,
            final(self).command == old(self).command,
            final(self).stdin == old(self).stdin,
            final(self).expected_exit_code == old(self).expected_exit_code,
            final(self).expected_stderr == old(self).expected_stderr,
            final(self).expected_stdout == old(self).expected_stdout,
            final(self).assertions == old(self).assertions,
    {
        self.sandbox_requested = true;
        self.fixtures.push(Fixture::Directory(path.to_owned()));
        assert(self.fixtures@.drop_last() =~= old(self).fixtures@);
    }

    /// Sets variable `name` to `value` for this scenario alone.
    pub fn env_var(&mut self, name: &str, value: &str)
        requires
            old(self).wf(),
        ensures
            final(self).wf(),
            final(self).env_vars@ == old(self).env_vars@.insert(name@, value@),
            final(self).temp_dir == old(self).temp_dir,
            final(self).sandbox_requested == old(self).sandbox_requested,
            final(self).command == old(self).command,
            final(self).stdin == old(self).stdin,
            final(self).expected_exit_code == old(self).expected_exit_code,
            final(self).expected_stderr == old(self).expected_stderr,
            final(self).expected_stdout == old(self).expected_stdout,
            final(self).assertions == old(self).assertions,
            final(self).fixtures == old(self).fixtures,
    {
        self.env_vars.insert(name.to_owned(), value.to_owned());
    }

    /// Adds a file holding `text` to create in the sandbox, asking for the
    /// sandbox.
    pub fn file(&mut self, path: &str, text: &str)
        ensures
            final(self).fixtures@.len() == old(self).fixtures@.len() + 1,
            final(self).fixtures@.drop_last() == old(self).fixtures@,
            final(self).fixtures@.last() matches Fixture::File(p, t) && p@ == path@ && t@ == text@,
            final(self).sandbox_requested,
            final(self).temp_dir == old(self).temp_dir,
            final(self).env_vars == old(self).env_vars,
            final(self).command == old(self).command,
            final(self).stdin == old(self).stdin,
            final(self).expected_exit_code == old(self).expected_exit_code,
            final(self).expected_stderr == old(self).expected_stderr,
            final(self).expected_stdout == old(self).expected_stdout,
            final(self).assertions == old(self).assertions,
    {
        self.sandbox_requested = true;
        self.fixtures.push(Fixture::File(path.to_owned(), text.to_owned()));
        assert(self.fixtures@.drop_last() =~= old(self).fixtures@);
    }

    /// Sets the exit code expected of the run.
    pub fn assert_exit_code(&mut self, code: i32)
        ensures
            final(self).expected_exit_code == code,
            final(self).same_setup(old(self)),
            final(self).expected_stderr == old(self).expected_stderr,
            final(self).expected_stdout == old(self).expected_stdout,
            final(self).assertions == old(self).assertions,
    {
        self.expected_exit_code = code;
    }

    /// Appends to the text expected on the error stream.
    pub fn assert_stderr(&mut self, output: &str)
        ensures
            final(self).expected_stderr@ == old(self).expected_stderr@ + output@,
            final(self).same_setup(old(self)),
            final(self).expected_exit_code == old(self).expected_exit_code,
            final(self).expected_stdout == old(self).expected_stdout,
            final(self).assertions == old(self).assertions,
    {
        self.expected_stderr.append(output);
    }

    /// Appends to the text expected on the output stream.
    pub fn assert_stdout(&mut self, output: &str)
        ensures
            final(self).expected_stdout@ == old(self).expected_stdout@ + output@,
            final(self).same_setup(old(self)),
            final(self).expected_exit_code == old(self).expected_exit_code,
            final(self).expected_stderr == old(self).expected_stderr,
            final(self).assertions == old(self).assertions,
    {
        self.expected_stdout.append(output);
    }

    fn add_assertion(&mut self, assertion: TestAssertion)
        ensures
            final(self).assertions@ == old(self).assertions@.push(assertion),
            final(self).sandbox_requested,
            final(self).same_but_sandbox_and_checks(old(self)),
            final(self).temp_dir == old(self).temp_dir,
    {
        self.sandbox_requested = true;
        self.assertions.push(assertion);
    }

    /// Everything but the sandbox request and the filesystem checks is as in `other`.
    pub open spec fn same_but_sandbox_and_checks(&self, other: &TestBuilder) -> bool {
        &&& self.env_vars == other.env_vars
        &&& self.command == other.command
        &&& self.stdin == other.stdin
        &&& self.fixtures == other.fixtures
        &&& self.expected_exit_code == other.expected_exit_code
        &&& self.expected_stderr == other.expected_stderr
        &&& self.expected_stdout == other.expected_stdout
    }

    /// Adds a check that something exists at `path` after the run, asking
    /// for the sandbox.
    pub fn assert_exists(&mut self, path: &str)
        ensures
            final(self).assertions@.len() == old(self).assertions@.len() + 1,
            final(self).assertions@.drop_last() == old(self).assertions@,
            final(self).assertions@.last() matches TestAssertion::FileExists(p) && p@ == path@,
            final(self).sandbox_requested,
            final(self).temp_dir == old(self).temp_dir,
            final(self).same_but_sandbox_and_checks(old(self)),
    {
        self.add_assertion(TestAssertion::FileExists(path.to_owned()));
        assert(self.assertions@.drop_last() =~= old(self).assertions@);
    }

    /// Adds a check that nothing exists at `path` after the run, asking for
    /// the sandbox.
    pub fn assert_not_exists(&mut self, path: &str)
        ensures
            final(self).assertions@.len() == old(self).assertions@.len() + 1,
            final(self).assertions@.drop_last() == old(self).assertions@,
            final(self).assertions@.last() matches TestAssertion::FileNotExists(p) && p@ == path@,
            final(self).sandbox_requested,
            final(self).temp_dir == old(self).temp_dir,
            final(self).same_but_sandbox_and_checks(old(self)),
    {
        self.add_assertion(TestAssertion::FileNotExists(path.to_owned()));
        assert(self.assertions@.drop_last() =~= old(self).assertions@);
    }

    /// Adds a check that the file at `path` holds exactly `file_text` after
    /// the run, asking for the sandbox.
    pub fn assert_file_equals(&mut self, path: &str, file_text: &str)
        ensures
            final(self).assertions@.len() == old(self).assertions@.len() + 1,
            final(self).assertions@.drop_last() == old(self).assertions@,
            final(self).assertions@.last() matches TestAssertion::FileTextEquals(p, t) && p@ == path@
                && t@ == file_text@,
            final(self).sandbox_requested,
            final(self).temp_dir == old(self).temp_dir,
            final(self).same_but_sandbox_and_checks(old(self)),
    {
        self.add_assertion(TestAssertion::FileTextEquals(path.to_owned(), file_text.to_owned()));
        assert(self.assertions@.drop_last() =~= old(self).assertions@);
    }

    /// What the placeholder in expected output stands for: the sandbox's
    /// path, or a fixed marker where there is no sandbox.
    pub fn temp_dir_label(&self) -> (r: String)
        ensures
            r@ == sandbox_label(self.sandbox()),
    {
        match &self.temp_dir {
            Some(p) => p.clone(),
            None => no_sandbox_str().to_owned(),
        }
    }

    /// Where the command runs: the sandbox, else `default_dir`.
    pub fn working_dir(&self, default_dir: &str) -> (r: String)
        ensures
            r@ == acquired(self.sandbox(), default_dir@),
    {
        match &self.temp_dir {
            Some(p) => p.clone(),
            None => default_dir.to_owned(),
        }
    }

    /// Judges a finished run against every expectation: the exit code, both
    /// streams with the placeholder given the sandbox's path, and each
    /// filesystem check in order.
    pub fn evaluate(&self, outcome: &RunOutcome) -> (r: Verdict)
        ensures
            r.stdout_ok == expectation_met(self.expected_stdout@, outcome.stdout@, sandbox_label(self.sandbox())),
            r.stderr_ok == expectation_met(self.expected_stderr@, outcome.stderr@, sandbox_label(self.sandbox())),
            r.exit_code_ok == (outcome.exit_code == self.expected_exit_code),
            r.assertions@.len() == self.assertions@.len(),
            forall|i: int| 0 <= i < self.assertions@.len() ==> r.assertions@[i] == result_at(
                self.assertions@, outcome.observations@, i),
    {
        let label = self.temp_dir_label();
        let stderr_ok = output_matches(self.expected_stderr.as_str(), outcome.stderr.as_str(), label.as_str());
        let stdout_ok = output_matches(self.expected_stdout.as_str(), outcome.stdout.as_str(), label.as_str());
        let exit_code_ok = outcome.exit_code == self.expected_exit_code;
        let mut results: Vec<AssertionResult> = Vec::new();
        let mut i: usize = 0;
        while i < self.assertions.len()
            invariant
                i <= self.assertions@.len(),
                results@.len() == i,
                forall|j: int| 0 <= j < i ==> results@[j] == result_at(
                    self.assertions@, outcome.observations@, j),
            decreases self.assertions@.len() - i,
        {
            let res = if i < outcome.observations.len() {
                judge_assertion(&self.assertions[i], &outcome.observations[i])
            } else {
                AssertionResult::NotObserved
            };
            results.push(res);
            i = i + 1;
        }
        Verdict { stdout_ok, stderr_ok, exit_code_ok, assertions: results }
    }

    /// What to hand the executor: the command, the environment with the
    /// overrides, the sandbox or else `default_dir` as working directory,
    /// and the input bytes, after which the input stream ends.
    pub fn plan(&self, default_dir: &str) -> (r: RunPlan)
        ensures
            r.command@ == self.command@,
            pair_views(r.env_vars@) == pair_views(self.env_vars.pairs@),
            r.cwd@ == acquired(self.sandbox(), default_dir@),
            r.stdin@ == self.stdin@,
    {
        let stdin = self.stdin.clone();
        assert(stdin@ =~= self.stdin@);
        RunPlan {
            command: self.command.clone(),
            env_vars: self.env_vars.to_pairs(),
            cwd: self.working_dir(default_dir),
            stdin,
        }
    }
}

} // verus!
