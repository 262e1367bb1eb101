use purs::model::AvatarCacheDirectory;
use purs::model::AvatarCacheFile;
use purs::model::Comment;
use purs::model::CommentId;
use purs::model::CommentJson;
use purs::model::Comments;
use purs::model::FileCommentsJson;
use purs::model::FileName;
use purs::model::FileUrl;
use purs::model::LineCommentsJson;
use purs::model::LineNumber;
use purs::model::Markdown;
use purs::model::NonEmptyVec;
use purs::model::Review;
use purs::model::ReviewState;
use purs::model::Reviews;
use purs::model::Url;
use purs::model::User;
use purs::model::UserId;
use purs::model::WorkingDirectory;
use purs::model::get_pr_owner;

#[test]
fn comment_json_grouped_by_line() {
    let comment1 = Comment {
        comment_id: CommentId::new(1000),
        diff_hunk: "diff hunk1".to_owned(),
        body: "body1".to_owned(),
        markdown_body: None,
        author: User::new(
            "user1".to_owned(),
            Url::new("https://sample.data/user1".to_owned()),
            UserId::new(1),
        ),
        comment_url: Url::new("https://sample.data/comment1".to_owned()),
        line: Some(LineNumber::new(100)),
        file_name: FileName::new("filename1".to_owned()),
        in_reply_to_id: None,
    };

    let comment2 = Comment {
        comment_id: CommentId::new(1002),
        diff_hunk: "diff hunk2".to_owned(),
        body: "body2".to_owned(),
        markdown_body: None,
        author: User::new(
            "user2".to_owned(),
            Url::new("https://sample.data/user2".to_owned()),
            UserId::new(2),
        ),
        comment_url: Url::new("https://sample.data/comment2".to_owned()),
        line: Some(LineNumber::new(150)),
        file_name: FileName::new("filename2".to_owned()),
        in_reply_to_id: None,
    };

    let comment3 = Comment {
        comment_id: CommentId::new(1003),
        diff_hunk: "diff hunk3".to_owned(),
        body: "body3".to_owned(),
        markdown_body: None,
        author: User::new(
            "user3".to_owned(),
            Url::new("https://sample.data/user3".to_owned()),
            UserId::new(3),
        ),
        comment_url: Url::new("https://sample.data/comment3".to_owned()),
        line: Some(LineNumber::new(100)),
        file_name: FileName::new("filename1".to_owned()),
        in_reply_to_id: Some(CommentId::new(1000)),
    };

    let comment4 = Comment {
        comment_id: CommentId::new(1004),
        diff_hunk: "diff hunk4".to_owned(),
        body: "body4".to_owned(),
        markdown_body: None,
        author: User::new(
            "user4".to_owned(),
            Url::new("https://sample.data/user4".to_owned()),
            UserId::new(4),
        ),
        comment_url: Url::new("https://sample.data/comment4".to_owned()),
        line: None,
        file_name: FileName::new("filename1".to_owned()),
        in_reply_to_id: Some(CommentId::new(1000)),
    };

    let comment5 = Comment {
        comment_id: CommentId::new(1005),
        diff_hunk: "diff hunk5".to_owned(),
        body: "body5".to_owned(),
        markdown_body: Some(Markdown::new("**markdown**".to_owned())),
        author: User::new(
            "user5".to_owned(),
            Url::new("https://sample.data/user5".to_owned()),
            UserId::new(5),
        ),
        comment_url: Url::new("https://sample.data/comment5".to_owned()),
        line: Some(LineNumber::new(30)),
        file_name: FileName::new("filename3".to_owned()),
        in_reply_to_id: None,
    };

    let comments = Comments {
        comments: vec![comment1, comment2, comment3, comment4, comment5],
    };

    let avatar_hash = vec![
        (
            Url::new("https://sample.data/user1".to_owned()),
            FileUrl::new(Url::new("https://sample.data/user1".to_owned())),
        ),
        (
            Url::new("https://sample.data/user2".to_owned()),
            FileUrl::new(Url::new("https://sample.data/user2".to_owned())),
        ),
        (
            Url::new("https://sample.data/user5".to_owned()),
            FileUrl::new(Url::new("https://sample.data/user5".to_owned())),
        ),
    ];

    let mut actual_result = CommentJson::grouped_by_line_2(comments, avatar_hash);

    let expected_comment_json1 = CommentJson {
        user_name: "user1".to_owned(),
        user_icon: "https://sample.data/user1".to_owned(),
        link: "https://sample.data/comment1".to_owned(),
        line: 100,
        body: "body1".to_owned(),
        body_md: None,
        file_name: "filename1".to_owned(),
    };

    let expected_comment_json2 = CommentJson {
        user_name: "user2".to_owned(),
        user_icon: "https://sample.data/user2".to_owned(),
        link: "https://sample.data/comment2".to_owned(),
        line: 150,
        body: "body2".to_owned(),
        body_md: None,
        file_name: "filename2".to_owned(),
    };

    let expected_comment_json3 = CommentJson {
        user_name: "user3".to_owned(),
        user_icon: "-".to_owned(), // since this is not in the cache we get the default
        link: "https://sample.data/comment3".to_owned(),
        line: 100,
        body: "body3".to_owned(),
        body_md: None,
        file_name: "filename1".to_owned(),
    };

    // comment4 should be filtered out

    let expected_comment_json5 = CommentJson {
        user_name: "user5".to_owned(),
        user_icon: "https://sample.data/user5".to_owned(),
        link: "https://sample.data/comment5".to_owned(),
        line: 30,
        body: "body5".to_owned(),
        body_md: Some("**markdown**".to_owned()),
        file_name: "filename3".to_owned(),
    };

    let expected_line_comments_file1 = LineCommentsJson {
        line: 100,
        file_name: "filename1".to_owned(),
        file_line_comments: vec![expected_comment_json1, expected_comment_json3],
    };

    let expected_line_comments_file2 = LineCommentsJson {
        line: 150,
        file_name: "filename2".to_owned(),
        file_line_comments: vec![expected_comment_json2],
    };

    let expected_line_comments_file3 = LineCommentsJson {
        line: 30,
        file_name: "filename3".to_owned(),
        file_line_comments: vec![expected_comment_json5],
    };

    let expected_results = vec![
        FileCommentsJson {
            file_name: "filename1".to_owned(),
            file_comments: vec![expected_line_comments_file1],
        },
        FileCommentsJson {
            file_name: "filename2".to_owned(),
            file_comments: vec![expected_line_comments_file2],
        },
        FileCommentsJson {
            file_name: "filename3".to_owned(),
            file_comments: vec![expected_line_comments_file3],
        },
    ];

    // Sort so we have a predictable ordering
    actual_result.sort_by(|a, b| a.file_name.partial_cmp(&b.file_name).unwrap());
    assert_eq!(expected_results, actual_result);
}

#[test]
fn grouped_by_line_empty_comments() {
    let comments = Comments { comments: vec![] };
    let result = CommentJson::grouped_by_line_2(comments, vec![]);
    assert!(result.is_empty());
}

#[test]
fn grouped_by_line_same_line_keeps_input_order() {
    let mk = |id: u64, user: u64, body: &str| Comment {
        comment_id: CommentId::new(id),
        diff_hunk: String::new(),
        body: body.to_owned(),
        markdown_body: None,
        author: User::new(
            format!("user{}", user),
            Url::new(format!("https://sample.data/user{}", user)),
            UserId::new(user),
        ),
        comment_url: Url::new(format!("https://sample.data/comment{}", id)),
        line: Some(LineNumber::new(7)),
        file_name: FileName::new("same.rs".to_owned()),
        in_reply_to_id: None,
    };
    let comments = Comments {
        comments: vec![mk(1, 10, "first"), mk(2, 11, "second"), mk(3, 10, "third")],
    };
    let result = CommentJson::grouped_by_line_2(comments, vec![]);
    assert_eq!(result.len(), 1);
    assert_eq!(result[0].file_name, "same.rs");
    assert_eq!(result[0].file_comments.len(), 1);
    let line_group = &result[0].file_comments[0];
    assert_eq!(line_group.line, 7);
    let bodies: Vec<&str> = line_group
        .file_line_comments
        .iter()
        .map(|c| c.body.as_str())
        .collect();
    assert_eq!(bodies, vec!["first", "second", "third"]);
}

#[test]
fn avatar_cache_file_paths() {
    let dir = AvatarCacheDirectory::new("/tmp/cache".to_owned());
    let file = AvatarCacheFile::new(&UserId::new(12345), dir);
    assert_eq!(file.avatar_file_name(), "12345.png");
    assert_eq!(file.path(), "/tmp/cache/12345.png");
    assert_eq!(file.cache_file_path(), "/tmp/cache/12345.png");
    assert_eq!(file.cache_path_as_string(), "/tmp/cache");
}

#[test]
fn working_directory_avatar_cache_dir() {
    let wd = WorkingDirectory::new("/home/someone/.purs".to_owned());
    let cache = wd.avatar_cache_dir();
    assert_eq!(cache.cache_path_as_string(), "/home/someone/.purs/.assets/.avatars");
}

#[test]
fn reviews_count_and_reviewer_names() {
    let reviews = Reviews {
        reviews: vec![
            Review {
                user: "alpha".to_owned(),
                comment: Some("looks good".to_owned()),
                state: ReviewState::Approved,
            },
            Review {
                user: "beta".to_owned(),
                comment: None,
                state: ReviewState::Commented,
            },
            Review {
                user: "alpha".to_owned(),
                comment: None,
                state: ReviewState::Dismissed,
            },
        ],
    };
    assert_eq!(reviews.count(), 3);
    assert_eq!(reviews.reviewer_names(), vec!["alpha".to_owned(), "beta".to_owned()]);
}

#[test]
fn non_empty_vec_round_trip() {
    assert!(NonEmptyVec::<u32>::from_vec(vec![]).is_none());
    let nev = NonEmptyVec::from_vec(vec![5u32, 6, 7]).unwrap();
    assert_eq!(nev.head(), 5);
    assert_eq!(nev.to_vec(), vec![5, 6, 7]);
    let one = NonEmptyVec::one(9u32);
    assert_eq!(one.to_vec(), vec![9]);
}

#[test]
fn update_markdown_body_sets_only_markdown() {
    let comment = Comment {
        comment_id: CommentId::new(7),
        diff_hunk: "hunk".to_owned(),
        body: "plain".to_owned(),
        markdown_body: None,
        author: User::new(
            "someone".to_owned(),
            Url::new("https://sample.data/someone".to_owned()),
            UserId::new(77),
        ),
        comment_url: Url::new("https://sample.data/comment7".to_owned()),
        line: Some(LineNumber::new(3)),
        file_name: FileName::new("f.rs".to_owned()),
        in_reply_to_id: None,
    };
    let updated = comment.update_markdown_body("<b>plain</b>".to_owned());
    assert_eq!(updated.markdown_body.unwrap().0, "<b>plain</b>");
    assert_eq!(updated.body, "plain");
    assert_eq!(updated.comment_id, CommentId::new(7));
}

#[test]
fn pr_owner_display_name() {
    let user = User::new(
        "someone".to_owned(),
        Url::new("https://sample.data/someone".to_owned()),
        UserId::new(1),
    );
    assert_eq!(get_pr_owner(Some(user)), "someone");
    assert_eq!(get_pr_owner(None), "-");
}
