//! The avatar cache: a per-avatar resolution state machine with a
//! download / save / re-verify path, and the deduplication of avatar
//! requests across a comment collection.
//!
//! The filesystem probes and the HTTP download happen outside the library;
//! `avatar_step` takes each outcome as an event and decides the next state.
//! A resolution starts at `CheckCache`; when the cache file already exists it
//! finishes at once, with the same file reference that any earlier successful
//! resolution of the same avatar produced, and without a download.

use vstd::prelude::*;

use crate::model::AvatarCacheDirectory;
use crate::model::AvatarCacheFile;
use crate::model::AvatarCreationErrorType;
use crate::model::AvatarInfo;
use crate::model::AvatarInfoView;
use crate::model::CacheFileStatus;
use crate::model::Comments;
use crate::model::CommentView;
use crate::model::FileUrl;
use crate::model::NestedError;
use crate::model::PursError;
use crate::model::R;
use crate::model::Url;
use crate::model::UserId;
use crate::model::cache_file_path_spec;
use crate::strings::dec_str;
use crate::tools::distinct_of;
use crate::tools::lemma_distinct_of_props;

verus! {

// ---------------------------------------------------------------------------
// The file:// reference of a cached avatar
// ---------------------------------------------------------------------------
/// The normalized serialization that the URL parser yields for a string,
/// `None` where the string is not a valid absolute URL. A function of the
/// input string alone.
pub uninterp spec fn parsed_url(s: Seq<char>) -> Option<Seq<char>>;

/// Relies on url::Url::parse, the WHATWG URL parser, whose result depends on
/// the input string alone, and on the url crate's String conversion, which
/// returns the parsed URL's serialization. A parse error is rendered to
/// text.
#[verifier::external_body]
fn parse_url_string(s: &str) -> (r: Result<String, String>)
    ensures
        r matches Ok(t) ==> parsed_url(s@) == Some(t@),
        r is Err ==> parsed_url(s@) is None,
{
    match url::Url::parse(s) {
        Ok(u) => Ok(String::from(u)),
        Err(e) => Err(e.to_string()),
    }
}

/// The `file://` URL text over a cached avatar's path.
pub open spec fn cache_file_url_string(dir: Seq<char>, user_id: u64) -> Seq<char> {
    "file://"@ + cache_file_path_spec(dir, user_id)
}

/// Whether `res` is the outcome of turning the cache file of avatar `v` into
/// a `file://` reference: the parsed, normalized URL on success, and a
/// `UrlParseError` exactly when that text does not parse as a URL.
pub open spec fn url_outcome(v: crate::model::AvatarCacheFileView, res: R<FileUrl>) -> bool {
    match res {
        Ok(f) => parsed_url(cache_file_url_string(v.dir, v.user_id)) == Some(f@),
        Err(e) => parsed_url(cache_file_url_string(v.dir, v.user_id)) is None && e matches
            PursError::UrlParseError(_),
    }
}

impl AvatarCacheFile {
    /// The cache file as a `file://` URL.
    pub fn url(&self) -> (r: R<FileUrl>)
        ensures
            url_outcome(self@, r),
    {
        let mut url_file = "file://".to_owned();
        let path = self.path();
        url_file.append(path.as_str());
        match parse_url_string(url_file.as_str()) {
            Ok(u) => Ok(FileUrl::new(Url::new(u))),
            Err(e) => Err(PursError::UrlParseError(NestedError::new(e))),
        }
    }
}

// ---------------------------------------------------------------------------
// The resolution state machine
// ---------------------------------------------------------------------------
/// The states of one avatar's resolution. `Done` is terminal and carries the
/// result of the whole resolution.
pub enum AvatarResolution {
    CheckCache,
    DownloadAvatar,
    SaveAvatar(Vec<u8>),
    RecheckCache,
    Done(R<FileUrl>),
}

/// The outcome of the outside work one state asked for.
pub enum AvatarEvent {
    CacheChecked(R<CacheFileStatus>),
    AvatarDownloaded(Result<Vec<u8>, String>),
    AvatarSaved(Result<(), String>),
}

/// Whether an event answers what the state asked for.
pub open spec fn event_fits(state: AvatarResolution, event: AvatarEvent) -> bool {
    match state {
        AvatarResolution::CheckCache => event is CacheChecked,
        AvatarResolution::RecheckCache => event is CacheChecked,
        AvatarResolution::DownloadAvatar => event is AvatarDownloaded,
        AvatarResolution::SaveAvatar(_) => event is AvatarSaved,
        AvatarResolution::Done(_) => false,
    }
}

/// The display text of an avatar description, used in error messages.
pub open spec fn avatar_info_text(v: AvatarInfoView) -> Seq<char> {
    "user_id:"@ + dec_str(v.user_id as nat) + ", avatar_url:"@ + v.url + ", avatar_cache_dir:"@
        + v.dir
}

/// The message reported when a saved avatar is still not observably present.
pub open spec fn could_not_save_text(v: AvatarInfoView) -> Seq<char> {
    "Could not save avatar: "@ + avatar_info_text(v)
}

/// One transition of the avatar resolution state machine.
///
/// An existing cache file resolves at once, and every successful resolution
/// of the same avatar yields the same `file://` reference (the last ensures
/// clause), so resolving an avatar a second time, after a completed first
/// resolution, returns the first resolution's reference without reaching
/// `DownloadAvatar`. A failed existence probe surfaces as is; a failed
/// download or save surfaces as `CouldNotDownloadAvatar`; a save after which
/// the re-check still does not observe the file fails with
/// `CouldNotSaveAvatar` — the re-check is deliberate verification, not an
/// optimization.
pub fn avatar_step(info: &AvatarInfo, state: AvatarResolution, event: AvatarEvent) -> (r:
    AvatarResolution)
    requires
        event_fits(state, event),
    ensures
        state is CheckCache ==> (event matches AvatarEvent::CacheChecked(
            Ok(CacheFileStatus::Exists),
        ) ==> r matches AvatarResolution::Done(res) && url_outcome(
            crate::model::AvatarCacheFileView { user_id: info@.user_id, dir: info@.dir },
            res,
        )),
        state is CheckCache ==> (event matches AvatarEvent::CacheChecked(
            Ok(CacheFileStatus::DoesNotExist),
        ) ==> r is DownloadAvatar),
        event matches AvatarEvent::CacheChecked(Err(e)) ==> r == AvatarResolution::Done(
            Err::<FileUrl, PursError>(e),
        ),
        event matches AvatarEvent::AvatarDownloaded(Ok(bytes)) ==> r
            == AvatarResolution::SaveAvatar(bytes),
        event matches AvatarEvent::AvatarDownloaded(Err(msg)) ==> r == AvatarResolution::Done(
            Err::<FileUrl, PursError>(
                PursError::AvatarCreationError(
                    AvatarCreationErrorType::CouldNotDownloadAvatar(msg),
                ),
            ),
        ),
        event matches AvatarEvent::AvatarSaved(Ok(_)) ==> r is RecheckCache,
        event matches AvatarEvent::AvatarSaved(Err(msg)) ==> r == AvatarResolution::Done(
            Err::<FileUrl, PursError>(
                PursError::AvatarCreationError(
                    AvatarCreationErrorType::CouldNotDownloadAvatar(msg),
                ),
            ),
        ),
        state is RecheckCache ==> (event matches AvatarEvent::CacheChecked(
            Ok(CacheFileStatus::Exists),
        ) ==> r matches AvatarResolution::Done(res) && url_outcome(
            crate::model::AvatarCacheFileView { user_id: info@.user_id, dir: info@.dir },
            res,
        )),
        state is RecheckCache ==> (event matches AvatarEvent::CacheChecked(
            Ok(CacheFileStatus::DoesNotExist),
        ) ==> r matches AvatarResolution::Done(res) && res matches Err(
            PursError::AvatarCreationError(AvatarCreationErrorType::CouldNotSaveAvatar(m)),
        ) && m@ == could_not_save_text(info@)),
        r matches AvatarResolution::Done(Ok(u)) ==> parsed_url(
            cache_file_url_string(info@.dir, info@.user_id),
        ) == Some(u@),
{
    match (state, event) {
        (AvatarResolution::CheckCache, AvatarEvent::CacheChecked(Ok(status))) => match status {
            CacheFileStatus::Exists => {
                let cache_file = AvatarCacheFile::new(&info.0, info.cache_path());
                AvatarResolution::Done(cache_file.url())
            },
            CacheFileStatus::DoesNotExist => AvatarResolution::DownloadAvatar,
        },
        (AvatarResolution::RecheckCache, AvatarEvent::CacheChecked(Ok(status))) => match status {
            CacheFileStatus::Exists => {
                let cache_file = AvatarCacheFile::new(&info.0, info.cache_path());
                AvatarResolution::Done(cache_file.url())
            },
            CacheFileStatus::DoesNotExist => {
                let mut msg = "Could not save avatar: user_id:".to_owned();
                let num = crate::strings::u64_to_dec_string(info.0.0);
                msg.append(num.as_str());
                msg.append(", avatar_url:");
                msg.append(info.1.0.as_str());
                msg.append(", avatar_cache_dir:");
                msg.append(info.2.0.as_str());
                proof {
                    reveal_strlit("Could not save avatar: ");
                    reveal_strlit("Could not save avatar: user_id:");
                    reveal_strlit("user_id:");
                    reveal_strlit(", avatar_url:");
                    reveal_strlit(", avatar_cache_dir:");
                    assert(msg@ =~= could_not_save_text(info@));
                }
                AvatarResolution::Done(
                    Err(
                        PursError::AvatarCreationError(
                            AvatarCreationErrorType::CouldNotSaveAvatar(msg),
                        ),
                    ),
                )
            },
        },
        (_, AvatarEvent::CacheChecked(Err(e))) => AvatarResolution::Done(Err(e)),
        (_, AvatarEvent::AvatarDownloaded(Ok(bytes))) => AvatarResolution::SaveAvatar(bytes),
        (_, AvatarEvent::AvatarDownloaded(Err(msg))) => AvatarResolution::Done(
            Err(
                PursError::AvatarCreationError(
                    AvatarCreationErrorType::CouldNotDownloadAvatar(msg),
                ),
            ),
        ),
        (_, AvatarEvent::AvatarSaved(Ok(_))) => AvatarResolution::RecheckCache,
        (_, AvatarEvent::AvatarSaved(Err(msg))) => AvatarResolution::Done(
            Err(
                PursError::AvatarCreationError(
                    AvatarCreationErrorType::CouldNotDownloadAvatar(msg),
                ),
            ),
        ),
        (_, AvatarEvent::CacheChecked(Ok(_))) => AvatarResolution::DownloadAvatar,
    }
}

// ---------------------------------------------------------------------------
// Deduplication
// ---------------------------------------------------------------------------
/// The avatar description of each comment's author, against one cache
/// directory.
pub open spec fn avatar_infos_of(cs: Seq<CommentView>, dir: Seq<char>) -> Seq<AvatarInfoView> {
    cs.map_values(
        |c: CommentView| AvatarInfoView { user_id: c.author.user_id, url: c.author.gravatar, dir },
    )
}

/// The distinct avatar descriptions of a comment collection's authors, each
/// at its first appearance: the set of fetches the avatar cache will issue.
pub fn unique_avatar_infos(comments: &Comments, avatar_cache_directory: &AvatarCacheDirectory) -> (r:
    Vec<AvatarInfo>)
    ensures
        r@.map_values(|a: AvatarInfo| a@) == distinct_of(
            avatar_infos_of(comments@, avatar_cache_directory@),
        ),
{
    let ghost infos = avatar_infos_of(comments@, avatar_cache_directory@);
    let n = comments.comments.len();
    let mut out: Vec<AvatarInfo> = Vec::new();
    let mut i: usize = 0;
    while i < n
        invariant
            n == comments.comments@.len(),
            infos == avatar_infos_of(comments@, avatar_cache_directory@),
            infos.len() == n,
            i <= n,
            out@.map_values(|a: AvatarInfo| a@) == distinct_of(infos.take(i as int)),
        decreases n - i,
    {
        let c = &comments.comments[i];
        proof {
            assert(comments@[i as int] == comments.comments@[i as int]@);
            assert(infos[i as int] == AvatarInfoView {
                user_id: comments@[i as int].author.user_id,
                url: comments@[i as int].author.gravatar,
                dir: avatar_cache_directory@,
            });
            assert(infos.take(i + 1).drop_last() =~= infos.take(i as int));
            assert(infos.take(i + 1).last() == infos[i as int]);
        }
        let mut found = false;
        let m = out.len();
        let mut j: usize = 0;
        while j < m
            invariant
                m == out@.len(),
                j <= m,
                found == exists|k: int|
                    0 <= k < j && (#[trigger] out@[k])@ == (AvatarInfoView {
                        user_id: c.author.user_id@,
                        url: c.author.gravatar@,
                        dir: avatar_cache_directory@,
                    }),
            decreases m - j,
        {
            let same = out[j].0.0 == c.author.user_id.0 && out[j].1.0.eq(&c.author.gravatar.0)
                && out[j].2.0.eq(&avatar_cache_directory.0);
            if same {
                found = true;
            }
            j = j + 1;
        }
        proof {
            let target = infos[i as int];
            let prior = out@.map_values(|a: AvatarInfo| a@);
            assert(found == distinct_of(infos.take(i as int)).contains(target)) by {
                if found {
                    let k = choose|k: int| 0 <= k < out@.len() && (#[trigger] out@[k])@ == target;
                    assert(prior[k] == target);
                    assert(prior.contains(target));
                } else {
                    if distinct_of(infos.take(i as int)).contains(target) {
                        let k = choose|k: int| 0 <= k < prior.len() && prior[k] == target;
                        assert(out@[k]@ == target);
                    }
                }
            }
        }
        if !found {
            let info = AvatarInfo::new(
                UserId(c.author.user_id.0),
                Url(c.author.gravatar.0.clone()),
                AvatarCacheDirectory(avatar_cache_directory.0.clone()),
            );
            out.push(info);
            proof {
                assert(out@.map_values(|a: AvatarInfo| a@) =~= distinct_of(infos.take(i + 1)));
            }
        } else {
            proof {
                assert(out@.map_values(|a: AvatarInfo| a@) =~= distinct_of(infos.take(i + 1)));
            }
        }
        i = i + 1;
    }
    proof {
        assert(infos.take(n as int) =~= infos);
    }
    out
}

/// Deduplication bound: for M comments by K distinct author avatars, the
/// avatar cache issues one fetch per element of the deduplicated list — K
/// fetches, never more than M — and that list repeats no description and
/// holds exactly the descriptions appearing among the comments.
pub proof fn lemma_avatar_dedup(cs: Seq<CommentView>, dir: Seq<char>)
    ensures
        distinct_of(avatar_infos_of(cs, dir)).len() <= cs.len(),
        forall|a: int, b: int|
            0 <= a < b < distinct_of(avatar_infos_of(cs, dir)).len() ==> distinct_of(
                avatar_infos_of(cs, dir),
            )[a] != distinct_of(avatar_infos_of(cs, dir))[b],
        forall|x: AvatarInfoView| #[trigger]
            distinct_of(avatar_infos_of(cs, dir)).contains(x) <==> avatar_infos_of(
                cs,
                dir,
            ).contains(x),
{
    lemma_distinct_of_props(avatar_infos_of(cs, dir));
}

} // verus!
