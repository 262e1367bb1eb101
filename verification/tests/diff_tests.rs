use purs::diff::parse_diffs;
use purs::diff::parse_only_file_name;
use purs::diff::split_lines;
use purs::model::PursError;

#[test]
fn parses_minimal_single_file_diff() {
    let diff = parse_diffs("--- a/x.txt\n+++ b/x.txt\n@@ ...\n").unwrap();
    assert_eq!(diff.0.len(), 1);
    assert_eq!(diff.0[0].file_name, "x.txt");
    assert_eq!(diff.0[0].contents, "--- a/x.txt\n+++ b/x.txt\n@@ ...\n");
}

#[test]
fn parses_two_file_diff_with_git_preamble() {
    let text = "diff --git a/src/lib.rs b/src/lib.rs\nindex 111..222 100644\n--- a/src/lib.rs\n+++ b/src/lib.rs\n@@ -1,2 +1,3 @@\n kept\n+added\ndiff --git a/README.md b/README.md\n--- a/README.md\n+++ b/README.md\n@@ -5 +5 @@\n-old\n+new\n";
    let diff = parse_diffs(text).unwrap();
    assert_eq!(diff.0.len(), 2);
    assert_eq!(diff.0[0].file_name, "src/lib.rs");
    assert_eq!(diff.0[1].file_name, "README.md");
    assert_eq!(
        diff.0[0].contents,
        "--- a/src/lib.rs\n+++ b/src/lib.rs\n@@ -1,2 +1,3 @@\n kept\n+added\ndiff --git a/README.md b/README.md\n"
    );
    assert_eq!(diff.0[1].contents, "--- a/README.md\n+++ b/README.md\n@@ -5 +5 @@\n-old\n+new\n");
}

#[test]
fn removed_file_is_named_after_its_source() {
    let text = "--- a/gone.txt\n+++ /dev/null\n@@ -1 +0,0 @@\n-bye\n";
    let diff = parse_diffs(text).unwrap();
    assert_eq!(diff.0.len(), 1);
    assert_eq!(diff.0[0].file_name, "gone.txt");
}

#[test]
fn added_file_is_named_after_its_target() {
    let text = "--- /dev/null\n+++ b/fresh.txt\n@@ -0,0 +1 @@\n+hi\n";
    let diff = parse_diffs(text).unwrap();
    assert_eq!(diff.0.len(), 1);
    assert_eq!(diff.0[0].file_name, "fresh.txt");
}

#[test]
fn header_timestamps_are_cut_at_the_tab() {
    let text = "--- a/x.txt\t2024-01-01 10:00:00\n+++ b/x.txt\t2024-01-02 10:00:00\n@@ -1 +1 @@\n-a\n+b\n";
    let diff = parse_diffs(text).unwrap();
    assert_eq!(diff.0.len(), 1);
    assert_eq!(diff.0[0].file_name, "x.txt");
}

#[test]
fn empty_text_has_no_entries() {
    let diff = parse_diffs("").unwrap();
    assert!(diff.0.is_empty());
}

#[test]
fn path_without_separator_is_a_parse_error() {
    let result = parse_diffs("--- before\n+++ after\n@@ -1 +1 @@\n");
    match result {
        Err(PursError::DiffParseError(_)) => {},
        _ => panic!("expected a DiffParseError"),
    }
}

#[test]
fn file_names_lose_their_vcs_prefix() {
    let text = "--- a/one.txt\n+++ b/one.txt\n@@\n--- a/two.txt\n+++ b/two.txt\n@@\n";
    let diff = parse_diffs(text).unwrap();
    assert_eq!(diff.0.len(), 2);
    for d in &diff.0 {
        assert!(!d.file_name.starts_with("a/"));
        assert!(!d.file_name.starts_with("b/"));
    }
}

#[test]
fn parse_only_file_name_strips_through_first_separator() {
    assert_eq!(parse_only_file_name("a/src/main.rs").unwrap(), "src/main.rs");
    assert_eq!(parse_only_file_name("b/x.txt").unwrap(), "x.txt");
    assert_eq!(parse_only_file_name("noslash"), None);
}

#[test]
fn split_lines_drops_only_the_trailing_newline() {
    assert_eq!(split_lines("a\nb\n"), vec!["a".to_owned(), "b".to_owned()]);
    assert_eq!(split_lines("a\n\nb"), vec!["a".to_owned(), "".to_owned(), "b".to_owned()]);
    assert_eq!(split_lines(""), Vec::<String>::new());
}
