use purs::github::PullStub;
use purs::github::assemble_pull_request;
use purs::github::flatten_page_results;
use purs::github::merge_rendered_comments;
use purs::github::validate_pull_requests;
use purs::model::Comment;
use purs::model::CommentId;
use purs::model::CommentJson;
use purs::model::Comments;
use purs::model::FileName;
use purs::model::LineNumber;
use purs::model::NestedError;
use purs::model::Owner;
use purs::model::OwnerRepo;
use purs::model::PursError;
use purs::model::Repo;
use purs::model::Review;
use purs::model::ReviewState;
use purs::model::Reviews;
use purs::model::Url;
use purs::model::User;
use purs::model::UserId;

fn stub(pr_number: u64, ssh_url: Option<&str>, repo_name: Option<&str>) -> PullStub {
    PullStub {
        pr_number,
        title: Some(format!("PR {}", pr_number)),
        ssh_url: ssh_url.map(|s| s.to_owned()),
        repo_name: repo_name.map(|s| s.to_owned()),
        branch_name: "feature".to_owned(),
        head_sha: "abc123".to_owned(),
        base_sha: "def456".to_owned(),
        author: Some(User::new(
            "author1".to_owned(),
            Url::new("https://avatars.sample/u/1".to_owned()),
            UserId::new(1),
        )),
        draft: None,
        created_at: Some(1_700_000_000),
        updated_at: Some(1_700_000_100),
    }
}

fn line_comment(id: u64, user: u64, file: &str, line: Option<u64>) -> Comment {
    Comment {
        comment_id: CommentId::new(id),
        diff_hunk: "@@ -1 +1 @@".to_owned(),
        body: format!("body{}", id),
        markdown_body: None,
        author: User::new(
            format!("user{}", user),
            Url::new(format!("https://avatars.sample/u/{}", user)),
            UserId::new(user),
        ),
        comment_url: Url::new(format!("https://sample.data/comment{}", id)),
        line: line.map(LineNumber::new),
        file_name: FileName::new(file.to_owned()),
        in_reply_to_id: None,
    }
}

fn acme_widgets() -> OwnerRepo {
    OwnerRepo(Owner("acme".to_owned()), Repo("widgets".to_owned()))
}

#[test]
fn enrichment_scenario_yields_one_validated_pr_with_grouped_comments() {
    // One repository, one open PR #42 with an SSH URL and a repo name.
    let page = vec![stub(42, Some("git@sample:acme/widgets.git"), Some("acme/widgets"))];
    let pages = vec![Ok((page, acme_widgets()))];
    let pairs = flatten_page_results(pages).unwrap();
    assert_eq!(pairs.len(), 1);

    let reviews = Reviews {
        reviews: vec![
            Review {
                user: "reviewer1".to_owned(),
                comment: None,
                state: ReviewState::Approved,
            },
            Review {
                user: "reviewer2".to_owned(),
                comment: Some("needs work".to_owned()),
                state: ReviewState::ChangesRequested,
            },
        ],
    };
    // Three comments: two with line numbers on src/lib.rs, one without.
    let comments = Comments {
        comments: vec![
            line_comment(1, 10, "src/lib.rs", Some(5)),
            line_comment(2, 11, "src/lib.rs", Some(9)),
            line_comment(3, 10, "src/lib.rs", None),
        ],
    };
    let diff_text = "--- a/src/lib.rs\n+++ b/src/lib.rs\n@@ -1 +1 @@\n-a\n+b\n".to_owned();

    let (stub42, owner_repo) = {
        let mut pairs = pairs;
        pairs.remove(0)
    };
    let pr = assemble_pull_request(owner_repo, stub42, Ok(reviews), Ok(comments), Ok(diff_text))
        .unwrap();
    assert_eq!(pr.pr_number, 42);
    assert_eq!(pr.diffs.0.len(), 1);
    assert_eq!(pr.diffs.0[0].file_name, "src/lib.rs");

    let validated = validate_pull_requests(vec![pr]);
    assert_eq!(validated.len(), 1);
    let valid = &validated[0];
    assert_eq!(valid.ssh_url.0, "git@sample:acme/widgets.git");
    assert_eq!(valid.repo_name.0, "acme/widgets");
    assert!(!valid.draft);

    let grouped = CommentJson::grouped_by_line_2(
        Comments { comments: valid.comments.comments.clone() },
        vec![],
    );
    assert_eq!(grouped.len(), 1);
    assert_eq!(grouped[0].file_name, "src/lib.rs");
    assert_eq!(grouped[0].file_comments.len(), 2);
    let total: usize = grouped[0]
        .file_comments
        .iter()
        .map(|l| l.file_line_comments.len())
        .sum();
    assert_eq!(total, 2);
}

#[test]
fn pr_without_clone_fields_is_filtered_not_an_error() {
    let raw_ok = assemble_pull_request(
        acme_widgets(),
        stub(1, Some("git@sample:acme/widgets.git"), Some("acme/widgets")),
        Ok(Reviews { reviews: vec![] }),
        Ok(Comments { comments: vec![] }),
        Ok(String::new()),
    )
    .unwrap();
    let raw_bare = assemble_pull_request(
        acme_widgets(),
        stub(2, None, None),
        Ok(Reviews { reviews: vec![] }),
        Ok(Comments { comments: vec![] }),
        Ok(String::new()),
    )
    .unwrap();

    let raw = vec![raw_ok, raw_bare];
    assert_eq!(raw.len(), 2);
    assert!(raw[1].ssh_url.is_none() && raw[1].repo_name.is_none());

    let validated = validate_pull_requests(raw);
    assert_eq!(validated.len(), 1);
    assert_eq!(validated[0].pr_number, 1);
}

#[test]
fn assemble_returns_the_first_fetch_failure() {
    let result = assemble_pull_request(
        acme_widgets(),
        stub(3, None, None),
        Err(PursError::Octocrab(NestedError::new("boom".to_owned()))),
        Ok(Comments { comments: vec![] }),
        Ok(String::new()),
    );
    match result {
        Err(PursError::Octocrab(e)) => assert_eq!(e.0, "boom"),
        _ => panic!("expected the reviews failure"),
    }
}

#[test]
fn assemble_fails_on_unparseable_diff() {
    let result = assemble_pull_request(
        acme_widgets(),
        stub(4, Some("git@x:y.git"), Some("y")),
        Ok(Reviews { reviews: vec![] }),
        Ok(Comments { comments: vec![] }),
        Ok("--- noslash\n+++ other\n@@\n".to_owned()),
    );
    match result {
        Err(PursError::DiffParseError(_)) => {},
        _ => panic!("expected a DiffParseError"),
    }
}

#[test]
fn missing_title_defaults_to_dash() {
    let mut s = stub(5, Some("git@x:y.git"), Some("y"));
    s.title = None;
    let pr = assemble_pull_request(
        acme_widgets(),
        s,
        Ok(Reviews { reviews: vec![] }),
        Ok(Comments { comments: vec![] }),
        Ok(String::new()),
    )
    .unwrap();
    assert_eq!(pr.title, "-");
}

#[test]
fn listing_fails_only_when_every_repository_fails() {
    let all_failed: Vec<Result<(Vec<PullStub>, OwnerRepo), PursError>> = vec![
        Err(PursError::Octocrab(NestedError::new("first".to_owned()))),
        Err(PursError::Octocrab(NestedError::new("second".to_owned()))),
    ];
    match flatten_page_results(all_failed) {
        Err(PursError::MultipleErrors(errors)) => assert_eq!(errors.len(), 2),
        _ => panic!("expected MultipleErrors"),
    }

    let partial: Vec<Result<(Vec<PullStub>, OwnerRepo), PursError>> = vec![
        Err(PursError::Octocrab(NestedError::new("first".to_owned()))),
        Ok((vec![stub(8, None, None), stub(9, None, None)], acme_widgets())),
    ];
    let pairs = flatten_page_results(partial).unwrap();
    assert_eq!(pairs.len(), 2);
    assert_eq!(pairs[0].0.pr_number, 8);
    assert_eq!(pairs[1].0.pr_number, 9);
    let OwnerRepo(_, repo) = &pairs[1].1;
    assert_eq!(repo.0, "widgets");

    let empty: Vec<Result<(Vec<PullStub>, OwnerRepo), PursError>> = vec![];
    assert!(flatten_page_results(empty).unwrap().is_empty());
}

#[test]
fn merge_rendered_comments_is_best_effort() {
    let comments = Comments {
        comments: vec![
            line_comment(1, 10, "a.rs", Some(1)),
            line_comment(2, 11, "a.rs", Some(2)),
            line_comment(3, 12, "a.rs", Some(3)),
        ],
    };
    let rendered = vec![
        Ok((CommentId::new(1), "<p>body1</p>".to_owned())),
        Err(PursError::Octocrab(NestedError::new("render failed".to_owned()))),
        Ok((CommentId::new(3), "<p>body3</p>".to_owned())),
    ];
    let merged = merge_rendered_comments(comments, rendered);
    assert_eq!(merged.comments.len(), 3);
    assert_eq!(merged.comments[0].markdown_body.as_ref().unwrap().0, "<p>body1</p>");
    assert!(merged.comments[1].markdown_body.is_none());
    assert_eq!(merged.comments[1].body, "body2");
    assert_eq!(merged.comments[2].markdown_body.as_ref().unwrap().0, "<p>body3</p>");
    assert_eq!(merged.comments[0].comment_id, CommentId::new(1));
    assert_eq!(merged.comments[2].comment_id, CommentId::new(3));
}
