//! What a finished run produced, and the verdict on it.
use vstd::prelude::*;

verus! {

/// A check on the sandbox after the run, over a path relative to it.
pub enum TestAssertion {
    /// Something exists at the path.
    FileExists(String),
    /// Nothing exists at the path.
    FileNotExists(String),
    /// The file at the path holds exactly this text.
    FileTextEquals(String, String),
}

impl TestAssertion {
    /// The path the check is about.
    pub open spec fn path_of(&self) -> String {
        match self {
            TestAssertion::FileExists(p) => *p,
            TestAssertion::FileNotExists(p) => *p,
            TestAssertion::FileTextEquals(p, _) => *p,
        }
    }

    /// The path the check is about.
    pub fn path(&self) -> (r: &String)
        ensures
            *r == self.path_of(),
    {
        match self {
            TestAssertion::FileExists(p) => p,
            TestAssertion::FileNotExists(p) => p,
            TestAssertion::FileTextEquals(p, _) => p,
        }
    }
}

/// What was found at an asserted path after the run.
pub struct PathObservation {
    /// Some entry exists there.
    pub exists: bool,
    /// The file's text, where it was read; `None` where it could not be.
    pub text: Option<String>,
}

/// The result of one filesystem check.
#[derive(Clone, Copy, Debug, PartialEq, Eq, Structural)]
pub enum AssertionResult {
    Passed,
    /// An entry was expected and none exists.
    MissingPath,
    /// No entry was expected and one exists.
    UnexpectedPath,
    /// The file whose text was checked could not be read.
    Unreadable,
    /// The file's text differs from the expected text.
    TextMismatch,
    /// Nothing was observed for the check.
    NotObserved,
}

/// The result of a check against what was observed for it.
pub open spec fn assertion_result(a: TestAssertion, o: PathObservation) -> AssertionResult {
    match a {
        TestAssertion::FileExists(_) => if o.exists {
            AssertionResult::Passed
        } else {
            AssertionResult::MissingPath
        },
        TestAssertion::FileNotExists(_) => if o.exists {
            AssertionResult::UnexpectedPath
        } else {
            AssertionResult::Passed
        },
        TestAssertion::FileTextEquals(_, want) => match o.text {
            None => AssertionResult::Unreadable,
            Some(got) => if got@ == want@ {
                AssertionResult::Passed
            } else {
                AssertionResult::TextMismatch
            },
        },
    }
}

/// Judges one check by what was observed for it.
pub fn judge_assertion(a: &TestAssertion, o: &PathObservation) -> (r: AssertionResult)
    ensures
        r == assertion_result(*a, *o),
{
    match a {
        TestAssertion::FileExists(_) => if o.exists {
            AssertionResult::Passed
        } else {
            AssertionResult::MissingPath
        },
        TestAssertion::FileNotExists(_) => if o.exists {
            AssertionResult::UnexpectedPath
        } else {
            AssertionResult::Passed
        },
        TestAssertion::FileTextEquals(_, want) => match &o.text {
            None => AssertionResult::Unreadable,
            Some(got) => if *got == *want {
                AssertionResult::Passed
            } else {
                AssertionResult::TextMismatch
            },
        },
    }
}

/// What the executor produced, and what was found at each asserted path,
/// in the order of the checks.
pub struct RunOutcome {
    pub exit_code: i32,
    pub stdout: String,
    pub stderr: String,
    pub observations: Vec<PathObservation>,
}

/// The verdict on a run: every check is judged, also after one has failed.
pub struct Verdict {
    pub stdout_ok: bool,
    pub stderr_ok: bool,
    pub exit_code_ok: bool,
    /// One result for each filesystem check, in the order they were declared.
    pub assertions: Vec<AssertionResult>,
}

impl Verdict {
    /// Every check passed.
    pub open spec fn all_passed(&self) -> bool {
        &&& self.stdout_ok
        &&& self.stderr_ok
        &&& self.exit_code_ok
        &&& forall|i: int| 0 <= i < self.assertions@.len() ==> self.assertions@[i] == AssertionResult::Passed
    }

    /// Whether every check passed.
    pub fn passed(&self) -> (r: bool)
        ensures
            r == self.all_passed(),
    {
        if !(self.stdout_ok && self.stderr_ok && self.exit_code_ok) {
            return false;
        }
        let mut i: usize = 0;
        while i < self.assertions.len()
            invariant
                i <= self.assertions@.len(),
                forall|j: int| 0 <= j < i ==> self.assertions@[j] == AssertionResult::Passed,
            decreases self.assertions@.len() - i,
        {
            if self.assertions[i] != AssertionResult::Passed {
                return false;
            }
            i = i + 1;
        }
        true
    }
}

} // verus!
