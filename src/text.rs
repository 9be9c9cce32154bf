//! Expected-output text: the sandbox placeholder and its substitution, and
//! the lossy decoding of captured bytes.
use vstd::prelude::*;
use vstd::string::*;

verus! {

/// The placeholder that expected output may hold in place of the sandbox path.
pub open spec fn placeholder() -> Seq<char> {
    seq!['$', 'T', 'E', 'M', 'P', '_', 'D', 'I', 'R']
}

/// What the placeholder stands for when a scenario has no sandbox.
pub open spec fn no_sandbox_marker() -> Seq<char> {
    seq!['N', 'O', '_', 'T', 'E', 'M', 'P', '_', 'D', 'I', 'R']
}

/// `pat` occurs in `s` at position `i`.
pub open spec fn occurs_at(s: Seq<char>, pat: Seq<char>, i: int) -> bool {
    0 <= i && i + pat.len() <= s.len() && s.subrange(i, i + pat.len()) == pat
}

/// `s` with every occurrence of the non-empty `pat` replaced by `rep`,
/// scanning left to right and never reusing replaced characters.
pub open spec fn replaced(s: Seq<char>, pat: Seq<char>, rep: Seq<char>) -> Seq<char>
    decreases s.len(),
{
    if pat.len() == 0 || s.len() < pat.len() {
        s
    } else if occurs_at(s, pat, 0) {
        rep + replaced(s.subrange(pat.len() as int, s.len() as int), pat, rep)
    } else {
        seq![s[0]] + replaced(s.subrange(1, s.len() as int), pat, rep)
    }
}

/// Expected text after the placeholder has been given the sandbox path.
pub open spec fn with_sandbox(expected: Seq<char>, sandbox: Seq<char>) -> Seq<char> {
    replaced(expected, placeholder(), sandbox)
}

/// A captured text meets an expectation that may hold the placeholder.
pub open spec fn expectation_met(expected: Seq<char>, actual: Seq<char>, sandbox: Seq<char>) -> bool {
    with_sandbox(expected, sandbox) == actual
}

/// `pat` occurs nowhere in `s`.
pub open spec fn free_of(s: Seq<char>, pat: Seq<char>) -> bool {
    forall|i: int| !occurs_at(s, pat, i)
}

proof fn lemma_replaced_free(s: Seq<char>, pat: Seq<char>, rep: Seq<char>)
    requires
        free_of(s, pat),
    ensures
        replaced(s, pat, rep) == s,
    decreases s.len(),
{
    if pat.len() > 0 && s.len() >= pat.len() {
        let tail = s.subrange(1, s.len() as int);
        assert(!occurs_at(s, pat, 0));
        assert forall|i: int| !occurs_at(tail, pat, i) by {
            if occurs_at(tail, pat, i) {
                assert(s.subrange(i + 1, i + 1 + pat.len()) =~= tail.subrange(i, i + pat.len()));
                assert(occurs_at(s, pat, i + 1));
            }
        }
        lemma_replaced_free(tail, pat, rep);
        assert(s =~= seq![s[0]] + tail);
    }
}

/// Substituting the sandbox path into an expectation and then comparing is
/// the same as comparing the captured text with an expectation that was
/// given the path beforehand; and an expectation without the placeholder is
/// compared as it stands.
pub proof fn lemma_substitution_commutes(expected: Seq<char>, actual: Seq<char>, sandbox: Seq<char>)
    ensures
        expectation_met(expected, actual, sandbox) == (with_sandbox(expected, sandbox) == actual),
        free_of(expected, placeholder()) ==> (expectation_met(expected, actual, sandbox) == (expected == actual)),
{
    if free_of(expected, placeholder()) {
        lemma_replaced_free(expected, placeholder(), sandbox);
    }
}

/// The placeholder as a string.
pub fn placeholder_str() -> (r: &'static str)
    ensures
        r@ == placeholder(),
{
    proof {
        reveal_strlit("$TEMP_DIR");
    }
    let r = "$TEMP_DIR";
    assert(r@ =~= placeholder());
    r
}

/// The no-sandbox marker as a string.
pub fn no_sandbox_str() -> (r: &'static str)
    ensures
        r@ == no_sandbox_marker(),
{
    proof {
        reveal_strlit("NO_TEMP_DIR");
    }
    let r = "NO_TEMP_DIR";
    assert(r@ =~= no_sandbox_marker());
    r
}

/// Whether `pat` (of `m` characters) occurs in `s` (of `n` characters) at `i`.
fn occurs_at_exec(s: &str, n: usize, pat: &str, m: usize, i: usize) -> (r: bool)
    requires
        n == s@.len(),
        m == pat@.len(),
        i <= n,
    ensures
        r == occurs_at(s@, pat@, i as int),
{
    if m > n - i {
        return false;
    }
    let mut j: usize = 0;
    while j < m
        invariant
            i + m <= n,
            n == s@.len(),
            m == pat@.len(),
            j <= m,
            forall|k: int| 0 <= k < j ==> s@[i + k] == pat@[k],
        decreases m - j,
    {
        if s.get_char(i + j) != pat.get_char(j) {
            assert(s@.subrange(i as int, i + m)[j as int] != pat@[j as int]);
            return false;
        }
        j = j + 1;
    }
    assert(s@.subrange(i as int, i + m) =~= pat@);
    true
}

/// `s` with every occurrence of the non-empty `pat` replaced by `rep`.
pub fn replace_all(s: &str, pat: &str, rep: &str) -> (r: String)
    requires
        pat@.len() > 0,
    ensures
        r@ == replaced(s@, pat@, rep@),
{
    let n = s.unicode_len();
    let m = pat.unicode_len();
    let mut out = String::new();
    let mut i: usize = 0;
    assert(s@.subrange(0, n as int) =~= s@);
    assert(out@ + replaced(s@, pat@, rep@) =~= replaced(s@, pat@, rep@));
    while i < n
        invariant
            n == s@.len(),
            m == pat@.len(),
            m > 0,
            i <= n,
            out@ + replaced(s@.subrange(i as int, n as int), pat@, rep@) == replaced(s@, pat@, rep@),
        decreases n - i,
    {
        let ghost rest = s@.subrange(i as int, n as int);
        if occurs_at_exec(s, n, pat, m, i) {
            assert(rest.subrange(0, m as int) =~= s@.subrange(i as int, i + m));
            assert(rest.subrange(m as int, rest.len() as int) =~= s@.subrange(i + m, n as int));
            let ghost before = out@;
            out.append(rep);
            assert(replaced(rest, pat@, rep@) == rep@ + replaced(s@.subrange(i + m, n as int), pat@, rep@));
            assert(out@ + replaced(s@.subrange(i + m, n as int), pat@, rep@)
                =~= before + replaced(rest, pat@, rep@));
            i = i + m;
        } else {
            let ghost before = out@;
            out.append(s.substring_char(i, i + 1));
            assert(rest.subrange(1, rest.len() as int) =~= s@.subrange(i + 1, n as int));
            proof {
                if rest.len() >= m {
                    assert(rest.subrange(0, m as int) =~= s@.subrange(i as int, i + m));
                    assert(replaced(rest, pat@, rep@) == seq![rest[0]] + replaced(
                        s@.subrange(i + 1, n as int), pat@, rep@));
                } else {
                    assert(replaced(rest, pat@, rep@) == rest);
                    assert(replaced(s@.subrange(i + 1, n as int), pat@, rep@) == s@.subrange(
                        i + 1, n as int));
                }
            }
            assert(s@.subrange(i as int, i + 1) =~= seq![rest[0]]);
            assert(out@ + replaced(s@.subrange(i + 1, n as int), pat@, rep@)
                =~= before + replaced(rest, pat@, rep@));
            i = i + 1;
        }
    }
    assert(s@.subrange(n as int, n as int) =~= Seq::<char>::empty());
    assert(out@ =~= out@ + replaced(s@.subrange(n as int, n as int), pat@, rep@));
    out
}

/// Gives the sandbox path to every placeholder in `expected`.
pub fn substitute_sandbox(expected: &str, sandbox: &str) -> (r: String)
    ensures
        r@ == with_sandbox(expected@, sandbox@),
{
    replace_all(expected, placeholder_str(), sandbox)
}

/// Compares captured text with an expectation that may hold the placeholder.
pub fn output_matches(expected: &str, actual: &str, sandbox: &str) -> (r: bool)
    ensures
        r == expectation_met(expected@, actual@, sandbox@),
{
    let want = substitute_sandbox(expected, sandbox);
    let got = actual.to_owned();
    want == got
}

} // verus!
