use shell_test_harness::capture::{capture_chunks, OutputCollector};
use shell_test_harness::env::EnvVars;
use shell_test_harness::text::{output_matches, replace_all, substitute_sandbox};

fn pairs(v: &[(&str, &str)]) -> Vec<(String, String)> {
    v.iter().map(|(k, x)| (k.to_string(), x.to_string())).collect()
}

#[test]
fn substitution_replaces_every_placeholder() {
    assert_eq!(substitute_sandbox("a$TEMP_DIR/b$TEMP_DIR", "/t"), "a/t/b/t");
    assert_eq!(substitute_sandbox("$TEMP_DI", "/t"), "$TEMP_DI");
    assert_eq!(substitute_sandbox("", "/t"), "");
    assert_eq!(substitute_sandbox("$$TEMP_DIR", "X"), "$X");
}

#[test]
fn replace_all_is_left_to_right() {
    assert_eq!(replace_all("aaa", "aa", "b"), "ba");
    assert_eq!(replace_all("héé", "é", "e"), "hee");
    assert_eq!(replace_all("none", "x", "y"), "none");
}

#[test]
fn substitution_then_compare_equals_manual() {
    let expected = "cwd: $TEMP_DIR\n";
    let actual = "cwd: /s/x\n";
    let manual = substitute_sandbox(expected, "/s/x");
    assert_eq!(output_matches(expected, actual, "/s/x"), manual == actual);
    assert!(output_matches(expected, actual, "/s/x"));
    assert!(!output_matches(expected, actual, "/s/y"));
    assert!(output_matches("plain\n", "plain\n", "/s/x"));
}

#[test]
fn capture_keeps_bytes_in_order() {
    let chunks = vec![b"fo".to_vec(), Vec::new(), b"o\nbar".to_vec()];
    assert_eq!(capture_chunks(&chunks), "foo\nbar");
    assert_eq!(capture_chunks(&Vec::new()), "");
}

#[test]
fn capture_replaces_invalid_bytes() {
    let mut c = OutputCollector::new();
    c.push_chunk(&[0x66, 0xff]);
    c.push_chunk(&[0xc3]);
    c.push_chunk(&[0xa9]);
    assert_eq!(c.finish(), "f\u{FFFD}é");
}

#[test]
fn capture_without_normalising_keeps_case() {
    let env = EnvVars::capture(&pairs(&[("Path", "a"), ("PATH", "b"), ("x", "1")]), false);
    let got = env.to_pairs();
    assert_eq!(got, pairs(&[("Path", "a"), ("PATH", "b"), ("x", "1")]));
}

#[test]
fn capture_normalising_merges_names() {
    let env = EnvVars::capture(&pairs(&[("Path", "a"), ("PATH", "b"), ("x", "1")]), true);
    let got = env.to_pairs();
    assert_eq!(got, pairs(&[("PATH", "b"), ("X", "1")]));
}

#[test]
fn override_is_local_copy() {
    let base = pairs(&[("HOME", "/h"), ("A", "1")]);
    let mut env = EnvVars::capture(&base, false);
    env.insert("A".to_string(), "2".to_string());
    env.insert("B".to_string(), "3".to_string());
    assert_eq!(env.to_pairs(), pairs(&[("HOME", "/h"), ("A", "2"), ("B", "3")]));
    assert_eq!(base, pairs(&[("HOME", "/h"), ("A", "1")]));
}
