//! The enrichment engine's decision core: flattening the repository-listing
//! fan-in, assembling one pull request from its concurrently fetched parts,
//! validating raw pull requests for the fields a checkout needs, and merging
//! rendered markdown back into a comment collection.
//!
//! The network calls themselves happen outside the library; these functions
//! take the calls' outcomes as values and decide everything that follows.

use vstd::prelude::*;

use crate::diff::parse_diffs;
use crate::diff::spec_entries;
use crate::diff::spec_lines;
use crate::diff::spec_parse_ok;
use crate::model::CommentId;
use crate::model::CommentView;
use crate::model::Comments;
use crate::model::GitRepoSshUrl;
use crate::model::OwnerRepo;
use crate::model::OwnerRepoView;
use crate::model::PullRequest;
use crate::model::PullRequestView;
use crate::model::PursError;
use crate::model::R;
use crate::model::Repo;
use crate::model::RepoBranchName;
use crate::model::Reviews;
use crate::model::User;
use crate::model::UserView;
use crate::model::ValidatedPullRequest;
use crate::model::ValidatedPullRequestView;
use crate::tools::errs_of;
use crate::tools::oks_of;
use crate::tools::partition;

verus! {

// ---------------------------------------------------------------------------
// Pull-request stubs from the listing page
// ---------------------------------------------------------------------------
pub struct PullStubView {
    pub pr_number: u64,
    pub title: Option<Seq<char>>,
    pub ssh_url: Option<Seq<char>>,
    pub repo_name: Option<Seq<char>>,
    pub branch_name: Seq<char>,
    pub head_sha: Seq<char>,
    pub base_sha: Seq<char>,
    pub author: Option<UserView>,
    pub draft: Option<bool>,
    pub created_at: Option<i64>,
    pub updated_at: Option<i64>,
}

/// What one page entry of the repository listing carries, as plain values.
/// Timestamps are seconds since the Unix epoch.
#[derive(Debug, Clone)]
pub struct PullStub {
    pub pr_number: u64,
    pub title: Option<String>,
    pub ssh_url: Option<String>,
    pub repo_name: Option<String>,
    pub branch_name: String,
    pub head_sha: String,
    pub base_sha: String,
    pub author: Option<User>,
    pub draft: Option<bool>,
    pub created_at: Option<i64>,
    pub updated_at: Option<i64>,
}

impl View for PullStub {
    type V = PullStubView;

    open spec fn view(&self) -> PullStubView {
        PullStubView {
            pr_number: self.pr_number,
            title: match self.title {
                Some(ref t) => Some(t@),
                None => None,
            },
            ssh_url: match self.ssh_url {
                Some(ref s) => Some(s@),
                None => None,
            },
            repo_name: match self.repo_name {
                Some(ref s) => Some(s@),
                None => None,
            },
            branch_name: self.branch_name@,
            head_sha: self.head_sha@,
            base_sha: self.base_sha@,
            author: match self.author {
                Some(ref u) => Some(u@),
                None => None,
            },
            draft: self.draft,
            created_at: self.created_at,
            updated_at: self.updated_at,
        }
    }
}

// ---------------------------------------------------------------------------
// Flattening the repository-listing fan-in
// ---------------------------------------------------------------------------
/// The views of a sequence of (stub, repository) pairs.
pub open spec fn pair_views(s: Seq<(PullStub, OwnerRepo)>) -> Seq<(PullStubView, OwnerRepoView)> {
    s.map_values(|p: (PullStub, OwnerRepo)| (p.0@, p.1@))
}

/// The pages flattened into (stub, repository) pairs, in page order.
pub open spec fn flattened_pages(pages: Seq<(Vec<PullStub>, OwnerRepo)>) -> Seq<
    (PullStubView, OwnerRepoView),
>
    decreases pages.len(),
{
    if pages.len() == 0 {
        Seq::empty()
    } else {
        flattened_pages(pages.drop_last()) + pages.last().0@.map_values(
            |s: PullStub| (s@, pages.last().1@),
        )
    }
}

fn clone_owner_repo(o: &OwnerRepo) -> (r: OwnerRepo)
    ensures
        r@ == o@,
{
    OwnerRepo(crate::model::Owner(o.0.0.clone()), Repo(o.1.0.clone()))
}

/// Decides the repository-listing fan-in: when every listing failed (and at
/// least one repository was asked), the whole run fails with the errors
/// bundled; otherwise the pages that did arrive are flattened into (stub,
/// repository) pairs, in order, and the failed listings are dropped.
pub fn flatten_page_results(pages: Vec<Result<(Vec<PullStub>, OwnerRepo), PursError>>) -> (r: R<
    Vec<(PullStub, OwnerRepo)>,
>)
    ensures
        match r {
            Ok(v) => (oks_of(pages@).len() > 0 || pages@.len() == 0) && pair_views(v@)
                == flattened_pages(oks_of(pages@)),
            Err(e) => {
                &&& pages@.len() > 0
                &&& oks_of(pages@).len() == 0
                &&& e matches PursError::MultipleErrors(es) && es@ == errs_of(pages@)
            },
        },
{
    let any = pages.len() > 0;
    let (oks, errs) = partition(pages);
    if any && oks.len() == 0 {
        return Err(PursError::MultipleErrors(errs));
    }
    let ghost oks_v = oks@;
    let n0 = oks.len();
    let mut rest = oks;
    let mut out: Vec<(PullStub, OwnerRepo)> = Vec::new();
    let mut i: usize = 0;
    while rest.len() > 0
        invariant
            n0 == oks_v.len(),
            i + rest@.len() == oks_v.len(),
            rest@ == oks_v.skip(i as int),
            pair_views(out@) == flattened_pages(oks_v.take(i as int)),
        decreases rest@.len(),
    {
        let ghost pre = pair_views(out@);
        let (mut page, owner_repo) = rest.remove(0);
        proof {
            assert(rest@ =~= oks_v.skip(i + 1));
            assert((page, owner_repo) == oks_v[i as int]);
            assert(oks_v.take(i + 1).drop_last() =~= oks_v.take(i as int));
            assert(oks_v.take(i + 1).last() == oks_v[i as int]);
        }
        let ghost page_v = page@;
        let m0 = page.len();
        let mut j: usize = 0;
        while page.len() > 0
            invariant
                m0 == page_v.len(),
                j + page@.len() == page_v.len(),
                page@ == page_v.skip(j as int),
                owner_repo == oks_v[i as int].1,
                page_v == oks_v[i as int].0@,
                pair_views(out@) == pre + page_v.take(j as int).map_values(
                    |s: PullStub| (s@, oks_v[i as int].1@),
                ),
            decreases page@.len(),
        {
            let ghost pre_out = pair_views(out@);
            let stub = page.remove(0);
            proof {
                assert(page@ =~= page_v.skip(j + 1));
                assert(stub == page_v[j as int]);
            }
            let or = clone_owner_repo(&owner_repo);
            out.push((stub, or));
            proof {
                assert(pair_views(out@) =~= pre_out.push((page_v[j as int]@, oks_v[i as int].1@)));
                assert(pre + page_v.take(j + 1).map_values(
                    |s: PullStub| (s@, oks_v[i as int].1@),
                ) =~= pre_out.push((page_v[j as int]@, oks_v[i as int].1@)));
            }
            j = j + 1;
        }
        proof {
            assert(page_v.take(j as int) =~= page_v);
            assert(pair_views(out@) =~= flattened_pages(oks_v.take(i + 1)));
        }
        i = i + 1;
    }
    proof {
        assert(oks_v.take(i as int) =~= oks_v);
    }
    Ok(out)
}

// ---------------------------------------------------------------------------
// Assembling one pull request from its fetched parts
// ---------------------------------------------------------------------------
/// Joins the three concurrent fetches of one pull request and parses its
/// diff: the record is assembled exactly when reviews, comments and diff text
/// all arrived and the diff parses; otherwise the first failure (in that
/// order) becomes the single error recorded for this pull request.
pub fn assemble_pull_request(
    owner_repo: OwnerRepo,
    stub: PullStub,
    reviews_r: R<Reviews>,
    comments_r: R<Comments>,
    diff_text_r: R<String>,
) -> (r: R<PullRequest>)
    ensures
        match r {
            Ok(pr) => {
                &&& reviews_r matches Ok(rw) && pr@.reviews == rw@
                &&& comments_r matches Ok(cm) && pr@.comments == cm@
                &&& diff_text_r matches Ok(dt) && spec_parse_ok(spec_lines(dt@)) && pr@.diffs
                    == spec_entries(spec_lines(dt@))
                &&& pr@.config_owner_repo == owner_repo@
                &&& pr@.pr_owner == stub@.author
                &&& pr@.title == (match stub@.title {
                    Some(t) => t,
                    None => "-"@,
                })
                &&& pr@.pr_number == stub@.pr_number
                &&& pr@.ssh_url == stub@.ssh_url
                &&& pr@.repo_name == stub@.repo_name
                &&& pr@.branch_name == stub@.branch_name
                &&& pr@.head_sha == stub@.head_sha
                &&& pr@.base_sha == stub@.base_sha
                &&& pr@.draft == stub@.draft
                &&& pr@.created_at == stub@.created_at
                &&& pr@.updated_at == stub@.updated_at
            },
            Err(e) => match reviews_r {
                Err(re) => e == re,
                Ok(_) => match comments_r {
                    Err(ce) => e == ce,
                    Ok(_) => match diff_text_r {
                        Err(de) => e == de,
                        Ok(dt) => !spec_parse_ok(spec_lines(dt@)) && e matches
                            PursError::DiffParseError(_),
                    },
                },
            },
        },
{
    let reviews = match reviews_r {
        Ok(rw) => rw,
        Err(re) => {
            return Err(re);
        },
    };
    let comments = match comments_r {
        Ok(cm) => cm,
        Err(ce) => {
            return Err(ce);
        },
    };
    let diff_text = match diff_text_r {
        Ok(dt) => dt,
        Err(de) => {
            return Err(de);
        },
    };
    let diffs = match parse_diffs(diff_text.as_str()) {
        Ok(d) => d,
        Err(e) => {
            return Err(e);
        },
    };
    let title = match stub.title {
        Some(t) => t,
        None => "-".to_owned(),
    };
    Ok(
        PullRequest {
            config_owner_repo: owner_repo,
            pr_owner: stub.author,
            title,
            pr_number: stub.pr_number,
            ssh_url: stub.ssh_url,
            repo_name: stub.repo_name,
            branch_name: stub.branch_name,
            head_sha: stub.head_sha,
            base_sha: stub.base_sha,
            reviews,
            comments,
            diffs,
            draft: stub.draft,
            created_at: stub.created_at,
            updated_at: stub.updated_at,
        },
    )
}

// ---------------------------------------------------------------------------
// Validation
// ---------------------------------------------------------------------------
/// The validated form of a raw pull request whose SSH URL and repository name
/// are present; the draft flag defaults to false.
pub open spec fn validated_view_of(p: PullRequestView) -> ValidatedPullRequestView {
    ValidatedPullRequestView {
        config_owner_repo: p.config_owner_repo,
        pr_owner: p.pr_owner,
        title: p.title,
        pr_number: p.pr_number,
        ssh_url: match p.ssh_url {
            Some(s) => s,
            None => Seq::empty(),
        },
        repo_name: match p.repo_name {
            Some(s) => s,
            None => Seq::empty(),
        },
        branch_name: p.branch_name,
        head_sha: p.head_sha,
        base_sha: p.base_sha,
        reviews: p.reviews,
        comments: p.comments,
        diffs: p.diffs,
        draft: match p.draft {
            Some(d) => d,
            None => false,
        },
        created_at: p.created_at,
        updated_at: p.updated_at,
    }
}

/// Whether a raw pull request carries both fields a checkout needs.
pub open spec fn is_clonable(p: PullRequestView) -> bool {
    p.ssh_url is Some && p.repo_name is Some
}

/// Validates one raw pull request: `Some` exactly when both the SSH URL and
/// the repository name are present.
pub fn validate_pull_request(pr: PullRequest) -> (r: Option<ValidatedPullRequest>)
    ensures
        match r {
            Some(v) => is_clonable(pr@) && v@ == validated_view_of(pr@),
            None => !is_clonable(pr@),
        },
{
    match (pr.ssh_url, pr.repo_name) {
        (Some(ssh_url), Some(repo_name)) => Some(
            ValidatedPullRequest {
                config_owner_repo: pr.config_owner_repo,
                pr_owner: pr.pr_owner,
                title: pr.title,
                pr_number: pr.pr_number,
                ssh_url: GitRepoSshUrl::new(ssh_url),
                repo_name: Repo(repo_name),
                branch_name: RepoBranchName::new(pr.branch_name),
                head_sha: pr.head_sha,
                base_sha: pr.base_sha,
                reviews: pr.reviews,
                comments: pr.comments,
                diffs: pr.diffs,
                draft: match pr.draft {
                    Some(d) => d,
                    None => false,
                },
                created_at: pr.created_at,
                updated_at: pr.updated_at,
            },
        ),
        _ => None,
    }
}

/// The validated forms of the clonable pull requests, in order; the others
/// are filtered out, not errors.
pub open spec fn validated_of(s: Seq<PullRequestView>) -> Seq<ValidatedPullRequestView>
    decreases s.len(),
{
    if s.len() == 0 {
        Seq::empty()
    } else {
        let rest = validated_of(s.drop_last());
        if is_clonable(s.last()) {
            rest.push(validated_view_of(s.last()))
        } else {
            rest
        }
    }
}

/// Filters a batch of raw pull requests down to the validated ones, keeping
/// their order.
pub fn validate_pull_requests(prs: Vec<PullRequest>) -> (r: Vec<ValidatedPullRequest>)
    ensures
        r@.map_values(|v: ValidatedPullRequest| v@) == validated_of(
            prs@.map_values(|p: PullRequest| p@),
        ),
{
    let ghost orig = prs@;
    let ghost pv = prs@.map_values(|p: PullRequest| p@);
    let n0 = prs.len();
    let mut rest = prs;
    let mut out: Vec<ValidatedPullRequest> = Vec::new();
    let mut i: usize = 0;
    while rest.len() > 0
        invariant
            n0 == orig.len(),
            pv == orig.map_values(|p: PullRequest| p@),
            i + rest@.len() == orig.len(),
            rest@ == orig.skip(i as int),
            out@.map_values(|v: ValidatedPullRequest| v@) == validated_of(pv.take(i as int)),
        decreases rest@.len(),
    {
        let ghost pre = out@.map_values(|v: ValidatedPullRequest| v@);
        let p = rest.remove(0);
        proof {
            assert(rest@ =~= orig.skip(i + 1));
            assert(p == orig[i as int]);
            assert(pv[i as int] == orig[i as int]@);
            assert(pv.take(i + 1).drop_last() =~= pv.take(i as int));
            assert(pv.take(i + 1).last() == pv[i as int]);
        }
        match validate_pull_request(p) {
            Some(v) => {
                out.push(v);
                proof {
                    assert(out@.map_values(|v2: ValidatedPullRequest| v2@) =~= pre.push(
                        validated_view_of(pv[i as int]),
                    ));
                }
            },
            None => {},
        }
        i = i + 1;
    }
    proof {
        assert(pv.take(i as int) =~= pv);
    }
    out
}

// ---------------------------------------------------------------------------
// Merging rendered markdown
// ---------------------------------------------------------------------------
/// The first successful render for a comment id, if any.
pub open spec fn first_render(
    rs: Seq<Result<(CommentId, String), PursError>>,
    id: u64,
) -> Option<Seq<char>>
    decreases rs.len(),
{
    if rs.len() == 0 {
        None
    } else {
        match rs[0] {
            Ok(p) => if p.0@ == id {
                Some(p.1@)
            } else {
                first_render(rs.skip(1), id)
            },
            Err(_) => first_render(rs.skip(1), id),
        }
    }
}

proof fn lemma_first_render_hit(
    rs: Seq<Result<(CommentId, String), PursError>>,
    id: u64,
    j: int,
)
    requires
        0 <= j < rs.len(),
        rs[j] matches Ok(p) && p.0@ == id,
        forall|i: int|
            0 <= i < j ==> !((#[trigger] rs[i]) matches Ok(p) && p.0@ == id),
    ensures
        rs[j] matches Ok(p) && first_render(rs, id) == Some(p.1@),
    decreases j,
{
    if j > 0 {
        lemma_first_render_hit(rs.skip(1), id, j - 1);
    }
}

proof fn lemma_first_render_miss(rs: Seq<Result<(CommentId, String), PursError>>, id: u64)
    requires
        forall|i: int|
            0 <= i < rs.len() ==> !((#[trigger] rs[i]) matches Ok(p) && p.0@ == id),
    ensures
        first_render(rs, id) is None,
    decreases rs.len(),
{
    if rs.len() > 0 {
        lemma_first_render_miss(rs.skip(1), id);
    }
}

fn find_rendered(rendered: &Vec<Result<(CommentId, String), PursError>>, id: u64) -> (r: Option<
    String,
>)
    ensures
        match r {
            Some(md) => first_render(rendered@, id) == Some(md@),
            None => first_render(rendered@, id) is None,
        },
{
    let n = rendered.len();
    let mut j: usize = 0;
    while j < n
        invariant
            n == rendered@.len(),
            j <= n,
            forall|i: int|
                0 <= i < j ==> !((#[trigger] rendered@[i]) matches Ok(p) && p.0@ == id),
        decreases n - j,
    {
        match &rendered[j] {
            Ok(p) => {
                if p.0.0 == id {
                    proof {
                        lemma_first_render_hit(rendered@, id, j as int);
                    }
                    return Some(p.1.clone());
                }
            },
            Err(_) => {},
        }
        j = j + 1;
    }
    proof {
        lemma_first_render_miss(rendered@, id);
    }
    None
}

/// What a comment looks like after the render results are merged in: its
/// rendered body is set exactly when some render for its id succeeded, and
/// every other field is untouched.
pub open spec fn merged_comment(
    c: CommentView,
    rs: Seq<Result<(CommentId, String), PursError>>,
) -> CommentView {
    match first_render(rs, c.comment_id) {
        Some(md) => CommentView { markdown_body: Some(md), ..c },
        None => c,
    }
}

/// Merges best-effort markdown render results into a comment collection:
/// every comment whose render succeeded gets its rendered body, the rest stay
/// exactly as they were, and order and count are preserved. Render failures
/// never fail the merge.
pub fn merge_rendered_comments(
    comments: Comments,
    rendered: Vec<Result<(CommentId, String), PursError>>,
) -> (r: Comments)
    ensures
        r@.len() == comments@.len(),
        forall|i: int|
            0 <= i < comments@.len() ==> r@[i] == merged_comment(
                #[trigger] comments@[i],
                rendered@,
            ),
{
    let ghost orig = comments.comments@;
    let ghost cv = comments@;
    let n0 = comments.comments.len();
    let mut rest = comments.comments;
    let mut out: Vec<crate::model::Comment> = Vec::new();
    let mut i: usize = 0;
    while rest.len() > 0
        invariant
            n0 == orig.len(),
            cv == orig.map_values(|c: crate::model::Comment| c@),
            i + rest@.len() == orig.len(),
            rest@ == orig.skip(i as int),
            out@.len() == i,
            forall|q: int|
                0 <= q < i ==> (#[trigger] out@[q])@ == merged_comment(cv[q], rendered@),
        decreases rest@.len(),
    {
        let c = rest.remove(0);
        proof {
            assert(rest@ =~= orig.skip(i + 1));
            assert(c == orig[i as int]);
            assert(cv[i as int] == orig[i as int]@);
        }
        let merged = match find_rendered(&rendered, c.comment_id.0) {
            Some(md) => c.update_markdown_body(md),
            None => c,
        };
        out.push(merged);
        i = i + 1;
    }
    Comments { comments: out }
}

} // verus!
