use purs::avatar::AvatarEvent;
use purs::avatar::AvatarResolution;
use purs::avatar::avatar_step;
use purs::avatar::unique_avatar_infos;
use purs::model::AvatarCacheDirectory;
use purs::model::AvatarCreationErrorType;
use purs::model::AvatarInfo;
use purs::model::CacheFileStatus;
use purs::model::Comment;
use purs::model::CommentId;
use purs::model::Comments;
use purs::model::FileName;
use purs::model::LineNumber;
use purs::model::NestedError;
use purs::model::PursError;
use purs::model::Url;
use purs::model::User;
use purs::model::UserId;

fn info_for(user_id: u64, dir: &str) -> AvatarInfo {
    AvatarInfo::new(
        UserId::new(user_id),
        Url::new(format!("https://avatars.sample/u/{}", user_id)),
        AvatarCacheDirectory::new(dir.to_owned()),
    )
}

fn comment_by(id: u64, user: u64) -> Comment {
    Comment {
        comment_id: CommentId::new(id),
        diff_hunk: String::new(),
        body: format!("body{}", id),
        markdown_body: None,
        author: User::new(
            format!("user{}", user),
            Url::new(format!("https://avatars.sample/u/{}", user)),
            UserId::new(user),
        ),
        comment_url: Url::new(format!("https://sample.data/comment{}", id)),
        line: Some(LineNumber::new(1)),
        file_name: FileName::new("file.rs".to_owned()),
        in_reply_to_id: None,
    }
}

#[test]
fn cold_cache_walks_download_save_and_recheck() {
    let info = info_for(42, "/tmp/purs-avatars");

    let state = avatar_step(
        &info,
        AvatarResolution::CheckCache,
        AvatarEvent::CacheChecked(Ok(CacheFileStatus::DoesNotExist)),
    );
    assert!(matches!(state, AvatarResolution::DownloadAvatar));

    let state = avatar_step(
        &info,
        state,
        AvatarEvent::AvatarDownloaded(Ok(vec![1, 2, 3, 4])),
    );
    match &state {
        AvatarResolution::SaveAvatar(bytes) => assert_eq!(bytes, &vec![1, 2, 3, 4]),
        _ => panic!("expected SaveAvatar"),
    }

    let state = avatar_step(&info, state, AvatarEvent::AvatarSaved(Ok(())));
    assert!(matches!(state, AvatarResolution::RecheckCache));

    let state = avatar_step(
        &info,
        state,
        AvatarEvent::CacheChecked(Ok(CacheFileStatus::Exists)),
    );
    match state {
        AvatarResolution::Done(Ok(file_url)) => {
            assert_eq!(file_url.url_string(), "file:///tmp/purs-avatars/42.png");
        },
        _ => panic!("expected a resolved file reference"),
    }
}

#[test]
fn resolving_twice_yields_the_same_reference_without_a_second_download() {
    let info = info_for(7, "/tmp/purs avatars");

    // First resolution: full download path.
    let mut state = avatar_step(
        &info,
        AvatarResolution::CheckCache,
        AvatarEvent::CacheChecked(Ok(CacheFileStatus::DoesNotExist)),
    );
    state = avatar_step(&info, state, AvatarEvent::AvatarDownloaded(Ok(vec![9])));
    state = avatar_step(&info, state, AvatarEvent::AvatarSaved(Ok(())));
    state = avatar_step(
        &info,
        state,
        AvatarEvent::CacheChecked(Ok(CacheFileStatus::Exists)),
    );
    let first = match state {
        AvatarResolution::Done(Ok(file_url)) => file_url.url_string(),
        _ => panic!("expected a resolved file reference"),
    };

    // Second resolution: the cache file now exists, so one step resolves it.
    let second_state = avatar_step(
        &info,
        AvatarResolution::CheckCache,
        AvatarEvent::CacheChecked(Ok(CacheFileStatus::Exists)),
    );
    let second = match second_state {
        AvatarResolution::Done(Ok(file_url)) => file_url.url_string(),
        _ => panic!("expected an immediately resolved file reference"),
    };
    assert_eq!(first, second);
    // The path holds a space, so the file:// reference is the normalized URL,
    // not the raw path text.
    assert_eq!(second, "file:///tmp/purs%20avatars/7.png");
}

#[test]
fn failed_download_surfaces_as_could_not_download() {
    let info = info_for(1, "/tmp/purs-avatars");
    let state = avatar_step(
        &info,
        AvatarResolution::DownloadAvatar,
        AvatarEvent::AvatarDownloaded(Err("connection refused".to_owned())),
    );
    match state {
        AvatarResolution::Done(Err(PursError::AvatarCreationError(
            AvatarCreationErrorType::CouldNotDownloadAvatar(msg),
        ))) => assert_eq!(msg, "connection refused"),
        _ => panic!("expected CouldNotDownloadAvatar"),
    }
}

#[test]
fn missing_file_after_save_surfaces_as_could_not_save() {
    let info = info_for(5, "/tmp/purs-avatars");
    let state = avatar_step(
        &info,
        AvatarResolution::RecheckCache,
        AvatarEvent::CacheChecked(Ok(CacheFileStatus::DoesNotExist)),
    );
    match state {
        AvatarResolution::Done(Err(PursError::AvatarCreationError(
            AvatarCreationErrorType::CouldNotSaveAvatar(msg),
        ))) => {
            assert_eq!(
                msg,
                "Could not save avatar: user_id:5, avatar_url:https://avatars.sample/u/5, avatar_cache_dir:/tmp/purs-avatars"
            );
        },
        _ => panic!("expected CouldNotSaveAvatar"),
    }
}

#[test]
fn probe_failure_propagates_as_is() {
    let info = info_for(6, "/tmp/purs-avatars");
    let probe_error = PursError::FileError(
        "cache_dir: /tmp/purs-avatars".to_owned(),
        NestedError::new("permission denied".to_owned()),
    );
    let state = avatar_step(
        &info,
        AvatarResolution::CheckCache,
        AvatarEvent::CacheChecked(Err(probe_error)),
    );
    match state {
        AvatarResolution::Done(Err(PursError::FileError(prefix, nested))) => {
            assert_eq!(prefix, "cache_dir: /tmp/purs-avatars");
            assert_eq!(nested.0, "permission denied");
        },
        _ => panic!("expected the probe failure to pass through"),
    }
}

#[test]
fn unusable_cache_path_surfaces_as_url_parse_error() {
    // A relative cache directory with a space cannot form a valid file://
    // URL: the text before the first slash would be the URL's host.
    let info = info_for(7, "no such dir");
    let state = avatar_step(
        &info,
        AvatarResolution::CheckCache,
        AvatarEvent::CacheChecked(Ok(CacheFileStatus::Exists)),
    );
    match state {
        AvatarResolution::Done(Err(PursError::UrlParseError(_))) => {},
        _ => panic!("expected a UrlParseError"),
    }
}

#[test]
fn five_comments_from_two_authors_need_two_fetches() {
    let comments = Comments {
        comments: vec![
            comment_by(1, 10),
            comment_by(2, 20),
            comment_by(3, 10),
            comment_by(4, 20),
            comment_by(5, 10),
        ],
    };
    let dir = AvatarCacheDirectory::new("/tmp/purs-avatars".to_owned());
    let infos = unique_avatar_infos(&comments, &dir);
    assert_eq!(infos.len(), 2);
    assert_eq!(infos[0].user_id(), UserId::new(10));
    assert_eq!(infos[1].user_id(), UserId::new(20));
    assert_eq!(infos[0].avatar_url(), Url::new("https://avatars.sample/u/10".to_owned()));
    assert_eq!(infos[0].cache_path(), dir);
}

#[test]
fn no_comments_need_no_fetches() {
    let comments = Comments { comments: vec![] };
    let dir = AvatarCacheDirectory::new("/tmp/purs-avatars".to_owned());
    assert!(unique_avatar_infos(&comments, &dir).is_empty());
}
