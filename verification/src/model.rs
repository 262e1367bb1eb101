//! The data model: repositories, pull requests, reviews, comments, diffs,
//! avatars, and the error taxonomy. Each content-bearing type has a view
//! (`@`) onto a mathematical value, and every method states its effect over
//! those views.

use vstd::prelude::*;

use crate::strings::dec_str;
use crate::strings::u64_to_dec_string;
use crate::tools::distinct_of;

verus! {

pub type R<T> = Result<T, PursError>;

pub const DEFAULT_WORKING_DIR: &'static str = ".purs";

pub const DIFF_FILE_LIST: &'static str = "diff_file_list.txt";

// ---------------------------------------------------------------------------
// Repositories
// ---------------------------------------------------------------------------
#[derive(Clone, Debug)]
pub struct Owner(pub String);

impl View for Owner {
    type V = Seq<char>;

    open spec fn view(&self) -> Seq<char> {
        self.0@
    }
}

#[derive(Clone, Debug)]
pub struct Repo(pub String);

impl View for Repo {
    type V = Seq<char>;

    open spec fn view(&self) -> Seq<char> {
        self.0@
    }
}

pub struct OwnerRepoView {
    pub owner: Seq<char>,
    pub repo: Seq<char>,
}

#[derive(Clone, Debug)]
pub struct OwnerRepo(pub Owner, pub Repo);

impl View for OwnerRepo {
    type V = OwnerRepoView;

    open spec fn view(&self) -> OwnerRepoView {
        OwnerRepoView { owner: self.0@, repo: self.1@ }
    }
}

// ---------------------------------------------------------------------------
// A vector that always holds at least one element
// ---------------------------------------------------------------------------
#[derive(Clone, Debug)]
pub struct NonEmptyVec<T> {
    pub first: T,
    pub rest: Vec<T>,
}

impl<T: Clone> NonEmptyVec<T> {
    /// The elements, head first.
    pub open spec fn seq(&self) -> Seq<T> {
        seq![self.first] + self.rest@
    }

    pub fn one(first: T) -> (r: NonEmptyVec<T>)
        ensures
            r.seq() == seq![first],
    {
        let r = NonEmptyVec { first, rest: Vec::new() };
        proof {
            assert(r.seq() =~= seq![r.first]);
        }
        r
    }

    pub fn new(first: T, rest: Vec<T>) -> (r: NonEmptyVec<T>)
        ensures
            r.seq() == seq![first] + rest@,
    {
        NonEmptyVec { first, rest }
    }

    pub fn head(&self) -> (r: T)
        ensures
            vstd::pervasive::cloned(self.seq()[0], r),
    {
        self.first.clone()
    }

    pub fn to_vec(&self) -> (r: Vec<T>)
        ensures
            r@.len() == self.seq().len(),
            forall|i: int|
                0 <= i < self.seq().len() ==> vstd::pervasive::cloned(self.seq()[i], #[trigger] r@[i]),
    {
        let mut v: Vec<T> = Vec::new();
        v.push(self.first.clone());
        let n = self.rest.len();
        let mut i: usize = 0;
        while i < n
            invariant
                n == self.rest@.len(),
                i <= n,
                v@.len() == i + 1,
                vstd::pervasive::cloned(self.seq()[0], v@[0]),
                forall|k: int|
                    0 <= k < i ==> vstd::pervasive::cloned(self.rest@[k], #[trigger] v@[k + 1]),
            decreases n - i,
        {
            v.push(self.rest[i].clone());
            i = i + 1;
        }
        proof {
            assert forall|k: int| 0 <= k < self.seq().len() implies vstd::pervasive::cloned(
                self.seq()[k],
                #[trigger] v@[k],
            ) by {
                if k > 0 {
                    assert(self.seq()[k] == self.rest@[k - 1]);
                    assert(vstd::pervasive::cloned(self.rest@[k - 1], v@[k - 1 + 1]));
                }
            }
        }
        v
    }

    /// `Some` exactly when the input is non-empty; the elements carry over
    /// unchanged and in order.
    pub fn from_vec(other: Vec<T>) -> (r: Option<Self>)
        ensures
            match r {
                Some(nev) => other@.len() > 0 && nev.seq() == other@,
                None => other@.len() == 0,
            },
    {
        let mut v = other;
        if v.len() == 0 {
            None
        } else {
            let ghost orig = v@;
            let first = v.remove(0);
            let r = NonEmptyVec { first, rest: v };
            proof {
                assert(r.seq() =~= orig);
            }
            Some(r)
        }
    }
}

// ---------------------------------------------------------------------------
// Configuration
// ---------------------------------------------------------------------------
#[derive(Debug)]
pub struct Config {
    pub working_dir: WorkingDirectory,
    pub avatar_cache_dir: AvatarCacheDirectory,
    pub repositories: NonEmptyVec<OwnerRepo>,
    pub token: GitHubToken,
    pub script: Option<ScriptToRun>,
}

// ---------------------------------------------------------------------------
// Diffs
// ---------------------------------------------------------------------------
pub struct GitDiffView {
    pub file_name: Seq<char>,
    pub contents: Seq<char>,
}

#[derive(Debug, Clone)]
pub struct GitDiff {
    pub file_name: String,
    pub contents: String,
}

impl View for GitDiff {
    type V = GitDiffView;

    open spec fn view(&self) -> GitDiffView {
        GitDiffView { file_name: self.file_name@, contents: self.contents@ }
    }
}

#[derive(Debug, Clone)]
pub struct PullRequestDiff(pub Vec<GitDiff>);

impl View for PullRequestDiff {
    type V = Seq<GitDiffView>;

    open spec fn view(&self) -> Seq<GitDiffView> {
        self.0@.map_values(|d: GitDiff| d@)
    }
}

// ---------------------------------------------------------------------------
// Process outcomes
// ---------------------------------------------------------------------------
pub enum CmdOutput {
    Success,
    Failure(ExitCode),
}

pub enum ExitCode {
    Code(i32),
    Terminated,
}

// ---------------------------------------------------------------------------
// Errors
// ---------------------------------------------------------------------------
#[derive(Debug)]
pub enum UserInputError {
    InvalidNumber(String),
}

/// The rendered message of an error raised by a collaborator.
#[derive(Debug)]
pub struct NestedError(pub String);

impl View for NestedError {
    type V = Seq<char>;

    open spec fn view(&self) -> Seq<char> {
        self.0@
    }
}

impl NestedError {
    pub fn new(message: String) -> (r: Self)
        ensures
            r@ == message@,
    {
        NestedError(message)
    }
}

#[derive(Debug)]
pub enum ScriptErrorType {
    NonZeroResult(String),
    Error(NestedError),
}

#[derive(Debug)]
pub enum PursError {
    Octocrab(NestedError),
    JoinError(NestedError),
    GitError(String),
    DiffParseError(NestedError),
    ProcessError(NestedError),
    MultipleErrors(Vec<PursError>),
    UserError(UserInputError),
    ScriptExecutionError(ScriptErrorType),
    TUIError(NestedError),
    ReqwestError(NestedError),
    FileError(String, NestedError),
    AvatarCreationError(AvatarCreationErrorType),
    UrlParseError(NestedError),
}

#[derive(Debug, PartialEq)]
pub enum AvatarCreationErrorType {
    CouldNotDownloadAvatar(String),
    CouldNotSaveAvatar(String),
}

// ---------------------------------------------------------------------------
// Program status and selection
// ---------------------------------------------------------------------------
pub enum ProgramStatus {
    UserQuit,
    CompletedSuccessfully,
}

pub enum ValidSelection {
    Quit,
    Pr(Box<ValidatedPullRequest>),
}

// ---------------------------------------------------------------------------
// Paths and tokens
// ---------------------------------------------------------------------------
#[derive(Debug, Clone)]
pub struct GitRepoSshUrl(pub String);

impl View for GitRepoSshUrl {
    type V = Seq<char>;

    open spec fn view(&self) -> Seq<char> {
        self.0@
    }
}

impl GitRepoSshUrl {
    pub fn new(repo: String) -> (r: Self)
        ensures
            r@ == repo@,
    {
        GitRepoSshUrl(repo)
    }
}

#[derive(Clone)]
pub struct RepoCheckoutPath(pub String);

impl View for RepoCheckoutPath {
    type V = Seq<char>;

    open spec fn view(&self) -> Seq<char> {
        self.0@
    }
}

impl RepoCheckoutPath {
    pub fn new(path: String) -> (r: Self)
        ensures
            r@ == path@,
    {
        RepoCheckoutPath(path)
    }
}

#[derive(Debug, Clone)]
pub struct RepoBranchName(pub String);

impl View for RepoBranchName {
    type V = Seq<char>;

    open spec fn view(&self) -> Seq<char> {
        self.0@
    }
}

impl RepoBranchName {
    pub fn new(branch: String) -> (r: Self)
        ensures
            r@ == branch@,
    {
        RepoBranchName(branch)
    }
}

#[derive(Debug)]
pub enum ScriptType {
    NoScript,
    Script(ScriptToRun),
    InvalidScript(String, NestedError),
}

#[derive(Debug)]
pub struct ScriptToRun(pub String);

impl View for ScriptToRun {
    type V = Seq<char>;

    open spec fn view(&self) -> Seq<char> {
        self.0@
    }
}

impl ScriptToRun {
    pub fn new(path: String) -> (r: Self)
        ensures
            r@ == path@,
    {
        ScriptToRun(path)
    }
}

#[derive(Debug, Clone, PartialEq, Eq, Hash)]
pub struct AvatarCacheDirectory(pub String);

impl View for AvatarCacheDirectory {
    type V = Seq<char>;

    open spec fn view(&self) -> Seq<char> {
        self.0@
    }
}

impl AvatarCacheDirectory {
    pub fn new(cache_dir: String) -> (r: Self)
        ensures
            r@ == cache_dir@,
    {
        AvatarCacheDirectory(cache_dir)
    }

    pub fn cache_path_as_string(&self) -> (r: String)
        ensures
            r@ == self@,
    {
        self.0.clone()
    }
}

#[derive(Debug, Clone)]
pub struct WorkingDirectory(pub String);

impl View for WorkingDirectory {
    type V = Seq<char>;

    open spec fn view(&self) -> Seq<char> {
        self.0@
    }
}

impl WorkingDirectory {
    pub fn new(working_dir: String) -> (r: Self)
        ensures
            r@ == working_dir@,
    {
        WorkingDirectory(working_dir)
    }

    /// The avatar cache lives in the `.assets/.avatars` subdirectory of the
    /// working directory.
    pub fn avatar_cache_dir(&self) -> (r: AvatarCacheDirectory)
        ensures
            r@ == self@ + "/.assets/.avatars"@,
    {
        let dir = self.0.clone().concat("/.assets/.avatars");
        AvatarCacheDirectory(dir)
    }
}

#[derive(Debug)]
pub struct HomeDirectory(pub String);

impl View for HomeDirectory {
    type V = Seq<char>;

    open spec fn view(&self) -> Seq<char> {
        self.0@
    }
}

impl HomeDirectory {
    pub fn new(home_dir: String) -> (r: Self)
        ensures
            r@ == home_dir@,
    {
        HomeDirectory(home_dir)
    }

    pub fn join(&self, arg: &str) -> (r: String)
        ensures
            r@ == self@ + "/"@ + arg@,
    {
        let mut joined = self.0.clone();
        joined.append("/");
        joined.append(arg);
        joined
    }
}

#[derive(Debug)]
pub struct GitHubToken(pub String);

impl View for GitHubToken {
    type V = Seq<char>;

    open spec fn view(&self) -> Seq<char> {
        self.0@
    }
}

impl GitHubToken {
    pub fn new(token: &str) -> (r: Self)
        ensures
            r@ == token@,
    {
        GitHubToken(token.to_owned())
    }
}

#[derive(Clone)]
pub struct CommandLineArgumentFailure(pub String);

impl View for CommandLineArgumentFailure {
    type V = Seq<char>;

    open spec fn view(&self) -> Seq<char> {
        self.0@
    }
}

impl CommandLineArgumentFailure {
    pub fn new(error: &str) -> (r: Self)
        ensures
            r@ == error@,
    {
        CommandLineArgumentFailure(error.to_owned())
    }
}

#[derive(Debug, PartialEq)]
pub enum WorkingDirectoryStatus {
    Exists,
    Created,
}

// ---------------------------------------------------------------------------
// Reviews
// ---------------------------------------------------------------------------
#[derive(Debug, Clone, Copy, PartialEq, Eq, Structural)]
pub enum ReviewState {
    Approved,
    Pending,
    ChangesRequested,
    Commented,
    Dismissed,
    Other,
}

pub struct ReviewView {
    pub user: Seq<char>,
    pub comment: Option<Seq<char>>,
    pub state: ReviewState,
}

#[derive(Debug, Clone)]
pub struct Review {
    pub user: String,
    pub comment: Option<String>,
    pub state: ReviewState,
}

impl View for Review {
    type V = ReviewView;

    open spec fn view(&self) -> ReviewView {
        ReviewView {
            user: self.user@,
            comment: match self.comment {
                Some(ref c) => Some(c@),
                None => None,
            },
            state: self.state,
        }
    }
}

#[derive(Debug, Clone)]
pub struct Reviews {
    pub reviews: Vec<Review>,
}

impl View for Reviews {
    type V = Seq<ReviewView>;

    open spec fn view(&self) -> Seq<ReviewView> {
        self.reviews@.map_values(|r: Review| r@)
    }
}

impl Reviews {
    pub fn count(&self) -> (r: usize)
        ensures
            r == self@.len(),
    {
        self.reviews.len()
    }

    /// The name of each review author, kept once, earliest mention first.
    pub fn reviewer_names(&self) -> (r: Vec<String>)
        ensures
            r@.map_values(|s: String| s@) == distinct_of(self@.map_values(|rv: ReviewView| rv.user)),
    {
        let ghost names: Seq<Seq<char>> = self@.map_values(|rv: ReviewView| rv.user);
        let mut out: Vec<String> = Vec::new();
        let n = self.reviews.len();
        let mut i: usize = 0;
        while i < n
            invariant
                n == self.reviews@.len(),
                names == self@.map_values(|rv: ReviewView| rv.user),
                names.len() == n,
                i <= n,
                out@.map_values(|s: String| s@) == distinct_of(names.take(i as int)),
            decreases n - i,
        {
            proof {
                assert(names[i as int] == self.reviews@[i as int].user@);
            }
            let name = &self.reviews[i].user;
            let mut found = false;
            let m = out.len();
            let mut j: usize = 0;
            while j < m
                invariant
                    m == out@.len(),
                    j <= m,
                    found == exists|k: int| 0 <= k < j && out@[k]@ == name@,
                decreases m - j,
            {
                if out[j].eq(name) {
                    found = true;
                }
                j = j + 1;
            }
            proof {
                assert(found == distinct_of(names.take(i as int)).contains(name@)) by {
                    let prior = out@.map_values(|s: String| s@);
                    if found {
                        let k = choose|k: int| 0 <= k < out@.len() && out@[k]@ == name@;
                        assert(prior[k] == name@);
                        assert(prior.contains(name@));
                    } else {
                        if distinct_of(names.take(i as int)).contains(name@) {
                            let k = choose|k: int|
                                0 <= k < prior.len() && prior[k] == name@;
                            assert(out@[k]@ == name@);
                        }
                    }
                }
                assert(names.take(i + 1).drop_last() =~= names.take(i as int));
                assert(names.take(i + 1).last() == names[i as int]);
            }
            if !found {
                out.push(name.clone());
                proof {
                    assert(out@.map_values(|s: String| s@) =~= distinct_of(names.take(i + 1)));
                }
            } else {
                proof {
                    assert(out@.map_values(|s: String| s@) =~= distinct_of(names.take(i + 1)));
                }
            }
            i = i + 1;
        }
        proof {
            assert(names.take(n as int) =~= names);
        }
        out
    }
}

// ---------------------------------------------------------------------------
// Comments
// ---------------------------------------------------------------------------
#[derive(Debug, Clone, Copy, PartialEq, Eq, Hash, Structural)]
pub struct CommentId(pub u64);

impl View for CommentId {
    type V = u64;

    open spec fn view(&self) -> u64 {
        self.0
    }
}

impl CommentId {
    pub fn new(comment_id: u64) -> (r: Self)
        ensures
            r@ == comment_id,
    {
        CommentId(comment_id)
    }
}

#[derive(Debug, Clone, Copy, PartialEq, Eq, Structural)]
pub struct LineNumber(pub u64);

impl View for LineNumber {
    type V = u64;

    open spec fn view(&self) -> u64 {
        self.0
    }
}

impl LineNumber {
    pub fn new(line_no: u64) -> (r: Self)
        ensures
            r@ == line_no,
    {
        LineNumber(line_no)
    }
}

#[derive(Debug, Clone)]
pub struct Markdown(pub String);

impl View for Markdown {
    type V = Seq<char>;

    open spec fn view(&self) -> Seq<char> {
        self.0@
    }
}

impl Markdown {
    pub fn new(body: String) -> (r: Self)
        ensures
            r@ == body@,
    {
        Markdown(body)
    }
}

#[derive(Debug, Clone, PartialEq, Eq, Hash)]
pub struct FileName(pub String);

impl View for FileName {
    type V = Seq<char>;

    open spec fn view(&self) -> Seq<char> {
        self.0@
    }
}

impl FileName {
    pub fn new(file_name: String) -> (r: Self)
        ensures
            r@ == file_name@,
    {
        FileName(file_name)
    }
}

#[derive(Debug, Clone, PartialEq, Eq, Hash)]
pub struct Url(pub String);

impl View for Url {
    type V = Seq<char>;

    open spec fn view(&self) -> Seq<char> {
        self.0@
    }
}

impl Url {
    pub fn new(url: String) -> (r: Self)
        ensures
            r@ == url@,
    {
        Url(url)
    }
}

#[derive(Debug, Clone, Copy, PartialEq, Eq, Hash, Structural)]
pub struct UserId(pub u64);

impl View for UserId {
    type V = u64;

    open spec fn view(&self) -> u64 {
        self.0
    }
}

impl UserId {
    pub fn new(id: u64) -> (r: Self)
        ensures
            r@ == id,
    {
        UserId(id)
    }
}

pub struct UserView {
    pub name: Seq<char>,
    pub gravatar: Seq<char>,
    pub user_id: u64,
}

#[derive(Debug, Clone)]
pub struct User {
    pub name: String,
    pub gravatar: Url,
    pub user_id: UserId,
}

impl View for User {
    type V = UserView;

    open spec fn view(&self) -> UserView {
        UserView { name: self.name@, gravatar: self.gravatar@, user_id: self.user_id@ }
    }
}

impl User {
    pub fn new(name: String, gravatar: Url, user_id: UserId) -> (r: Self)
        ensures
            r@.name == name@,
            r@.gravatar == gravatar@,
            r@.user_id == user_id@,
    {
        User { name, gravatar, user_id }
    }

    pub fn gravatar_url(self) -> (r: Url)
        ensures
            r@ == self@.gravatar,
    {
        self.gravatar
    }

    pub fn user_id(self) -> (r: UserId)
        ensures
            r@ == self@.user_id,
    {
        self.user_id
    }

    pub fn user_name(self) -> (r: String)
        ensures
            r@ == self@.name,
    {
        self.name
    }
}

/// The display name of an optional pull-request owner, `"-"` when absent.
pub fn get_pr_owner(owner_option: Option<User>) -> (r: String)
    ensures
        match owner_option {
            Some(u) => r@ == u@.name,
            None => r@ == "-"@,
        },
{
    match owner_option {
        Some(u) => u.user_name(),
        None => "-".to_owned(),
    }
}

pub struct CommentView {
    pub comment_id: u64,
    pub diff_hunk: Seq<char>,
    pub body: Seq<char>,
    pub markdown_body: Option<Seq<char>>,
    pub author: UserView,
    pub comment_url: Seq<char>,
    pub line: Option<u64>,
    pub file_name: Seq<char>,
    pub in_reply_to_id: Option<u64>,
}

#[derive(Debug, Clone)]
pub struct Comment {
    pub comment_id: CommentId,
    pub diff_hunk: String,
    pub body: String,
    pub markdown_body: Option<Markdown>,
    pub author: User,
    pub comment_url: Url,
    pub line: Option<LineNumber>,
    pub file_name: FileName,
    pub in_reply_to_id: Option<CommentId>,
}

impl View for Comment {
    type V = CommentView;

    open spec fn view(&self) -> CommentView {
        CommentView {
            comment_id: self.comment_id@,
            diff_hunk: self.diff_hunk@,
            body: self.body@,
            markdown_body: match self.markdown_body {
                Some(ref m) => Some(m@),
                None => None,
            },
            author: self.author@,
            comment_url: self.comment_url@,
            line: match self.line {
                Some(l) => Some(l@),
                None => None,
            },
            file_name: self.file_name@,
            in_reply_to_id: match self.in_reply_to_id {
                Some(c) => Some(c@),
                None => None,
            },
        }
    }
}

impl Comment {
    /// Replaces the rendered-markdown body, leaving every other field as it
    /// was.
    pub fn update_markdown_body(self, markdown_body: String) -> (r: Self)
        ensures
            r@ == (CommentView { markdown_body: Some(markdown_body@), ..self@ }),
    {
        Comment { markdown_body: Some(Markdown::new(markdown_body)), ..self }
    }
}

#[derive(Debug, Clone)]
pub struct Comments {
    pub comments: Vec<Comment>,
}

impl View for Comments {
    type V = Seq<CommentView>;

    open spec fn view(&self) -> Seq<CommentView> {
        self.comments@.map_values(|c: Comment| c@)
    }
}

impl Comments {
    pub fn count(&self) -> (r: usize)
        ensures
            r == self@.len(),
    {
        self.comments.len()
    }

    pub fn is_empty(&self) -> (r: bool)
        ensures
            r == (self@.len() == 0),
    {
        self.comments.is_empty()
    }
}

// ---------------------------------------------------------------------------
// Output projection of comments
// ---------------------------------------------------------------------------
pub struct CommentJsonView {
    pub user_name: Seq<char>,
    pub user_icon: Seq<char>,
    pub link: Seq<char>,
    pub line: u64,
    pub body: Seq<char>,
    pub body_md: Option<Seq<char>>,
    pub file_name: Seq<char>,
}

#[derive(Debug, PartialEq)]
pub struct CommentJson {
    pub user_name: String,
    pub user_icon: String,
    pub link: String,
    pub line: u64,
    pub body: String,
    pub body_md: Option<String>,
    pub file_name: String,
}

impl View for CommentJson {
    type V = CommentJsonView;

    open spec fn view(&self) -> CommentJsonView {
        CommentJsonView {
            user_name: self.user_name@,
            user_icon: self.user_icon@,
            link: self.link@,
            line: self.line,
            body: self.body@,
            body_md: match self.body_md {
                Some(ref m) => Some(m@),
                None => None,
            },
            file_name: self.file_name@,
        }
    }
}

pub struct LineCommentsJsonView {
    pub line: u64,
    pub file_name: Seq<char>,
    pub file_line_comments: Seq<CommentJsonView>,
}

#[derive(Debug, PartialEq)]
pub struct LineCommentsJson {
    pub line: u64,
    pub file_name: String,
    pub file_line_comments: Vec<CommentJson>,
}

impl View for LineCommentsJson {
    type V = LineCommentsJsonView;

    open spec fn view(&self) -> LineCommentsJsonView {
        LineCommentsJsonView {
            line: self.line,
            file_name: self.file_name@,
            file_line_comments: self.file_line_comments@.map_values(|c: CommentJson| c@),
        }
    }
}

pub struct FileCommentsJsonView {
    pub file_name: Seq<char>,
    pub file_comments: Seq<LineCommentsJsonView>,
}

#[derive(Debug, PartialEq)]
pub struct FileCommentsJson {
    pub file_name: String,
    pub file_comments: Vec<LineCommentsJson>,
}

impl View for FileCommentsJson {
    type V = FileCommentsJsonView;

    open spec fn view(&self) -> FileCommentsJsonView {
        FileCommentsJsonView {
            file_name: self.file_name@,
            file_comments: self.file_comments@.map_values(|l: LineCommentsJson| l@),
        }
    }
}

// ---------------------------------------------------------------------------
// Avatars
// ---------------------------------------------------------------------------
#[derive(Debug, Clone)]
pub struct FileUrl(pub Url);

impl View for FileUrl {
    type V = Seq<char>;

    open spec fn view(&self) -> Seq<char> {
        self.0@
    }
}

impl FileUrl {
    pub fn new(url: Url) -> (r: Self)
        ensures
            r@ == url@,
    {
        FileUrl(url)
    }

    /// The URL as text.
    pub fn url_string(&self) -> (r: String)
        ensures
            r@ == self@,
    {
        self.0.0.clone()
    }
}

/// The deterministic path of one user's cached avatar:
/// `{cache_dir}/{user_id}.png`.
pub open spec fn cache_file_path_spec(dir: Seq<char>, user_id: u64) -> Seq<char> {
    dir + "/"@ + dec_str(user_id as nat) + ".png"@
}

#[derive(Debug, Clone)]
pub struct AvatarCacheFile(pub UserId, pub AvatarCacheDirectory);

pub struct AvatarCacheFileView {
    pub user_id: u64,
    pub dir: Seq<char>,
}

impl View for AvatarCacheFile {
    type V = AvatarCacheFileView;

    open spec fn view(&self) -> AvatarCacheFileView {
        AvatarCacheFileView { user_id: self.0@, dir: self.1@ }
    }
}

impl AvatarCacheFile {
    pub fn new(user_id: &UserId, avatar_cache_path: AvatarCacheDirectory) -> (r: Self)
        ensures
            r@.user_id == user_id@,
            r@.dir == avatar_cache_path@,
    {
        AvatarCacheFile(*user_id, avatar_cache_path)
    }

    /// The path of the cache file.
    pub fn path(&self) -> (r: String)
        ensures
            r@ == cache_file_path_spec(self@.dir, self@.user_id),
    {
        let mut p = self.1.0.clone();
        p.append("/");
        let name = self.avatar_file_name();
        p.append(name.as_str());
        proof {
            assert(p@ =~= cache_file_path_spec(self@.dir, self@.user_id));
        }
        p
    }

    pub fn cache_path_as_string(&self) -> (r: String)
        ensures
            r@ == self@.dir,
    {
        self.1.cache_path_as_string()
    }

    pub fn cache_file_path(&self) -> (r: String)
        ensures
            r@ == cache_file_path_spec(self@.dir, self@.user_id),
    {
        self.path()
    }

    /// The file name of the cached avatar: `{user_id}.png`.
    pub fn avatar_file_name(&self) -> (r: String)
        ensures
            r@ == dec_str(self@.user_id as nat) + ".png"@,
    {
        let mut name = u64_to_dec_string(self.0.0);
        name.append(".png");
        name
    }
}

#[derive(Debug, Clone, PartialEq)]
pub enum CacheFileStatus {
    Exists,
    DoesNotExist,
}

pub struct AvatarInfoView {
    pub user_id: u64,
    pub url: Seq<char>,
    pub dir: Seq<char>,
}

#[derive(Debug, Clone, PartialEq, Eq, Hash)]
pub struct AvatarInfo(pub UserId, pub Url, pub AvatarCacheDirectory);

impl View for AvatarInfo {
    type V = AvatarInfoView;

    open spec fn view(&self) -> AvatarInfoView {
        AvatarInfoView { user_id: self.0@, url: self.1@, dir: self.2@ }
    }
}

impl AvatarInfo {
    pub fn new(user_id: UserId, avatar_url: Url, cache_path: AvatarCacheDirectory) -> (r: Self)
        ensures
            r@.user_id == user_id@,
            r@.url == avatar_url@,
            r@.dir == cache_path@,
    {
        AvatarInfo(user_id, avatar_url, cache_path)
    }

    pub fn user_id(&self) -> (r: UserId)
        ensures
            r@ == self@.user_id,
    {
        self.0
    }

    pub fn avatar_url(&self) -> (r: Url)
        ensures
            r@ == self@.url,
    {
        Url(self.1.0.clone())
    }

    pub fn cache_path(&self) -> (r: AvatarCacheDirectory)
        ensures
            r@ == self@.dir,
    {
        AvatarCacheDirectory(self.2.0.clone())
    }
}

// ---------------------------------------------------------------------------
// Pull requests
// ---------------------------------------------------------------------------
pub struct PullRequestView {
    pub config_owner_repo: OwnerRepoView,
    pub pr_owner: Option<UserView>,
    pub title: Seq<char>,
    pub pr_number: u64,
    pub ssh_url: Option<Seq<char>>,
    pub repo_name: Option<Seq<char>>,
    pub branch_name: Seq<char>,
    pub head_sha: Seq<char>,
    pub base_sha: Seq<char>,
    pub reviews: Seq<ReviewView>,
    pub comments: Seq<CommentView>,
    pub diffs: Seq<GitDiffView>,
    pub draft: Option<bool>,
    pub created_at: Option<i64>,
    pub updated_at: Option<i64>,
}

/// A raw enrichment result; the optional fields mirror upstream API fields
/// that may be absent. Timestamps are seconds since the Unix epoch.
#[derive(Debug, Clone)]
pub struct PullRequest {
    pub config_owner_repo: OwnerRepo,
    pub pr_owner: Option<User>,
    pub title: String,
    pub pr_number: u64,
    pub ssh_url: Option<String>,
    pub repo_name: Option<String>,
    pub branch_name: String,
    pub head_sha: String,
    pub base_sha: String,
    pub reviews: Reviews,
    pub comments: Comments,
    pub diffs: PullRequestDiff,
    pub draft: Option<bool>,
    pub created_at: Option<i64>,
    pub updated_at: Option<i64>,
}

impl View for PullRequest {
    type V = PullRequestView;

    open spec fn view(&self) -> PullRequestView {
        PullRequestView {
            config_owner_repo: self.config_owner_repo@,
            pr_owner: match self.pr_owner {
                Some(ref u) => Some(u@),
                None => None,
            },
            title: self.title@,
            pr_number: self.pr_number,
            ssh_url: match self.ssh_url {
                Some(ref s) => Some(s@),
                None => None,
            },
            repo_name: match self.repo_name {
                Some(ref s) => Some(s@),
                None => None,
            },
            branch_name: self.branch_name@,
            head_sha: self.head_sha@,
            base_sha: self.base_sha@,
            reviews: self.reviews@,
            comments: self.comments@,
            diffs: self.diffs@,
            draft: self.draft,
            created_at: self.created_at,
            updated_at: self.updated_at,
        }
    }
}

pub struct ValidatedPullRequestView {
    pub config_owner_repo: OwnerRepoView,
    pub pr_owner: Option<UserView>,
    pub title: Seq<char>,
    pub pr_number: u64,
    pub ssh_url: Seq<char>,
    pub repo_name: Seq<char>,
    pub branch_name: Seq<char>,
    pub head_sha: Seq<char>,
    pub base_sha: Seq<char>,
    pub reviews: Seq<ReviewView>,
    pub comments: Seq<CommentView>,
    pub diffs: Seq<GitDiffView>,
    pub draft: bool,
    pub created_at: Option<i64>,
    pub updated_at: Option<i64>,
}

/// A pull request that passed validation: the SSH clone URL and the head
/// repository name are guaranteed present.
#[derive(Debug, Clone)]
pub struct ValidatedPullRequest {
    pub config_owner_repo: OwnerRepo,
    pub pr_owner: Option<User>,
    pub title: String,
    pub pr_number: u64,
    pub ssh_url: GitRepoSshUrl,
    pub repo_name: Repo,
    pub branch_name: RepoBranchName,
    pub head_sha: String,
    pub base_sha: String,
    pub reviews: Reviews,
    pub comments: Comments,
    pub diffs: PullRequestDiff,
    pub draft: bool,
    pub created_at: Option<i64>,
    pub updated_at: Option<i64>,
}

impl View for ValidatedPullRequest {
    type V = ValidatedPullRequestView;

    open spec fn view(&self) -> ValidatedPullRequestView {
        ValidatedPullRequestView {
            config_owner_repo: self.config_owner_repo@,
            pr_owner: match self.pr_owner {
                Some(ref u) => Some(u@),
                None => None,
            },
            title: self.title@,
            pr_number: self.pr_number,
            ssh_url: self.ssh_url@,
            repo_name: self.repo_name@,
            branch_name: self.branch_name@,
            head_sha: self.head_sha@,
            base_sha: self.base_sha@,
            reviews: self.reviews@,
            comments: self.comments@,
            diffs: self.diffs@,
            draft: self.draft,
            created_at: self.created_at,
            updated_at: self.updated_at,
        }
    }
}

} // verus!
