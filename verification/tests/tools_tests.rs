use purs::file_tools::get_extract_path;
use purs::file_tools::to_file_error;
use purs::file_writer::comment_file_entries;
use purs::file_writer::diff_file_entries;
use purs::file_writer::diff_file_list_contents;
use purs::model::AvatarCacheDirectory;
use purs::model::Config;
use purs::model::FileCommentsJson;
use purs::model::GitDiff;
use purs::model::GitHubToken;
use purs::model::NestedError;
use purs::model::NonEmptyVec;
use purs::model::Owner;
use purs::model::OwnerRepo;
use purs::model::PullRequestDiff;
use purs::model::PursError;
use purs::model::Repo;
use purs::model::WorkingDirectory;
use purs::strings::u64_to_dec_string;
use purs::tools::flatten_results;
use purs::tools::partition;
use purs::tools::separate_by;

#[test]
fn partition_splits_and_keeps_order() {
    let input: Vec<Result<u32, String>> = vec![
        Ok(1),
        Err("one".to_owned()),
        Ok(2),
        Err("two".to_owned()),
        Ok(3),
    ];
    let (successes, failures) = partition(input);
    assert_eq!(successes, vec![1, 2, 3]);
    assert_eq!(failures, vec!["one".to_owned(), "two".to_owned()]);
    assert_eq!(successes.len() + failures.len(), 5);
}

#[test]
fn partition_of_empty_input_is_two_empty_halves() {
    let input: Vec<Result<u32, String>> = vec![];
    let (successes, failures) = partition(input);
    assert!(successes.is_empty());
    assert!(failures.is_empty());
}

#[test]
fn partition_is_total_on_all_failures() {
    let input: Vec<Result<u32, String>> = vec![Err("a".to_owned()), Err("b".to_owned())];
    let (successes, failures) = partition(input);
    assert_eq!(successes.len() + failures.len(), 2);
    assert!(successes.is_empty());
}

#[test]
fn flatten_results_collapses_both_layers() {
    let ok: Result<Result<u32, String>, u8> = Ok(Ok(5));
    assert_eq!(flatten_results(ok, |e: u8| format!("outer {}", e)), Ok(5));
    let inner_err: Result<Result<u32, String>, u8> = Ok(Err("inner".to_owned()));
    assert_eq!(flatten_results(inner_err, |e: u8| format!("outer {}", e)), Err("inner".to_owned()));
    let outer_err: Result<Result<u32, String>, u8> = Err(3);
    assert_eq!(flatten_results(outer_err, |e: u8| format!("outer {}", e)), Err("outer 3".to_owned()));
}

#[test]
fn separate_by_interleaves_a_separator() {
    assert_eq!(separate_by(vec![1, 2, 3], 0), vec![1, 0, 2, 0, 3]);
    assert_eq!(separate_by(vec![7], 0), vec![7]);
    assert_eq!(separate_by(Vec::<i32>::new(), 0), Vec::<i32>::new());
}

#[test]
fn to_file_error_carries_message_and_cause() {
    let err = to_file_error("could not write", NestedError::new("disk full".to_owned()));
    match err {
        PursError::FileError(msg, nested) => {
            assert_eq!(msg, "could not write");
            assert_eq!(nested.0, "disk full");
        },
        _ => panic!("expected FileError"),
    }
}

#[test]
fn extract_path_joins_all_checkout_parts() {
    let config = Config {
        working_dir: WorkingDirectory::new("/home/u/.purs".to_owned()),
        avatar_cache_dir: AvatarCacheDirectory::new("/home/u/.purs/.assets/.avatars".to_owned()),
        repositories: NonEmptyVec::one(OwnerRepo(
            Owner("acme".to_owned()),
            Repo("widgets".to_owned()),
        )),
        token: GitHubToken::new("token"),
        script: None,
    };
    let pr = purs::github::assemble_pull_request(
        OwnerRepo(Owner("acme".to_owned()), Repo("widgets".to_owned())),
        purs::github::PullStub {
            pr_number: 42,
            title: Some("t".to_owned()),
            ssh_url: Some("git@sample:acme/widgets.git".to_owned()),
            repo_name: Some("widgets".to_owned()),
            branch_name: "feature".to_owned(),
            head_sha: "abc123".to_owned(),
            base_sha: "def".to_owned(),
            author: None,
            draft: Some(false),
            created_at: None,
            updated_at: None,
        },
        Ok(purs::model::Reviews { reviews: vec![] }),
        Ok(purs::model::Comments { comments: vec![] }),
        Ok(String::new()),
    )
    .unwrap();
    let validated = purs::github::validate_pull_requests(vec![pr]);
    let path = get_extract_path(&config, &validated[0]).unwrap();
    assert_eq!(path, "/home/u/.purs/widgets/feature/42/abc123");
}

#[test]
fn decimal_rendering_matches_standard_formatting() {
    assert_eq!(u64_to_dec_string(0), "0");
    assert_eq!(u64_to_dec_string(7), "7");
    assert_eq!(u64_to_dec_string(10), "10");
    assert_eq!(u64_to_dec_string(90210), "90210");
    assert_eq!(u64_to_dec_string(u64::MAX), u64::MAX.to_string());
}

#[test]
fn diff_write_plan_names_and_index() {
    let diffs = PullRequestDiff(vec![
        GitDiff {
            file_name: "src/lib.rs".to_owned(),
            contents: "--- a/src/lib.rs\n+++ b/src/lib.rs\n@@\n".to_owned(),
        },
        GitDiff {
            file_name: "README.md".to_owned(),
            contents: "--- a/README.md\n+++ b/README.md\n@@\n".to_owned(),
        },
    ]);
    let entries = diff_file_entries(&diffs);
    assert_eq!(entries.len(), 2);
    assert_eq!(entries[0].0, "src/lib.rs.diff");
    assert_eq!(entries[0].1, "--- a/src/lib.rs\n+++ b/src/lib.rs\n@@\n");
    assert_eq!(entries[1].0, "README.md.diff");
    assert_eq!(diff_file_list_contents(&diffs), "src/lib.rs.diff\nREADME.md.diff\n");
}

#[test]
fn comment_write_plan_names_files() {
    let files = vec![
        FileCommentsJson { file_name: "a.rs".to_owned(), file_comments: vec![] },
        FileCommentsJson { file_name: "b/c.rs".to_owned(), file_comments: vec![] },
    ];
    let entries = comment_file_entries(files);
    assert_eq!(entries.len(), 2);
    assert_eq!(entries[0].0, "a.rs.comment");
    assert_eq!(entries[1].0, "b/c.rs.comment");
    assert_eq!(entries[1].1.file_name, "b/c.rs");
}
