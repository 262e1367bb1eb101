//! The write plans for the output artifacts: the per-file diff documents
//! with their index, and the per-file comment documents. The plans are pure;
//! writing the files is the caller's business.

use vstd::prelude::*;

use crate::model::FileCommentsJson;
use crate::model::GitDiffView;
use crate::model::PullRequestDiff;

verus! {

/// The contents of the diff index file: one `{file_name}.diff` entry per
/// changed file, one per line, in diff order.
pub open spec fn diff_list_contents_spec(ds: Seq<GitDiffView>) -> Seq<char>
    decreases ds.len(),
{
    if ds.len() == 0 {
        Seq::empty()
    } else {
        diff_list_contents_spec(ds.drop_last()) + ds.last().file_name + ".diff"@ + "\n"@
    }
}

/// One `({file_name}.diff, contents)` pair per changed file, in diff order.
pub fn diff_file_entries(pr_diffs: &PullRequestDiff) -> (r: Vec<(String, String)>)
    ensures
        r@.len() == pr_diffs@.len(),
        forall|i: int|
            0 <= i < pr_diffs@.len() ==> (#[trigger] r@[i]).0@ == pr_diffs@[i].file_name
                + ".diff"@ && r@[i].1@ == pr_diffs@[i].contents,
{
    let n = pr_diffs.0.len();
    let mut out: Vec<(String, String)> = Vec::new();
    let mut i: usize = 0;
    while i < n
        invariant
            n == pr_diffs.0@.len(),
            i <= n,
            out@.len() == i,
            forall|q: int|
                0 <= q < i ==> (#[trigger] out@[q]).0@ == pr_diffs@[q].file_name + ".diff"@
                    && out@[q].1@ == pr_diffs@[q].contents,
        decreases n - i,
    {
        proof {
            assert(pr_diffs@[i as int] == pr_diffs.0@[i as int]@);
        }
        let mut name = pr_diffs.0[i].file_name.clone();
        name.append(".diff");
        let contents = pr_diffs.0[i].contents.clone();
        out.push((name, contents));
        i = i + 1;
    }
    out
}

/// The contents of the diff index file for these diffs.
pub fn diff_file_list_contents(pr_diffs: &PullRequestDiff) -> (r: String)
    ensures
        r@ == diff_list_contents_spec(pr_diffs@),
{
    let n = pr_diffs.0.len();
    let mut out = String::new();
    let mut i: usize = 0;
    while i < n
        invariant
            n == pr_diffs.0@.len(),
            i <= n,
            out@ == diff_list_contents_spec(pr_diffs@.take(i as int)),
        decreases n - i,
    {
        proof {
            assert(pr_diffs@[i as int] == pr_diffs.0@[i as int]@);
            assert(pr_diffs@.take(i + 1).drop_last() =~= pr_diffs@.take(i as int));
            assert(pr_diffs@.take(i + 1).last() == pr_diffs@[i as int]);
        }
        out.append(pr_diffs.0[i].file_name.as_str());
        out.append(".diff");
        out.append("\n");
        i = i + 1;
    }
    proof {
        assert(pr_diffs@.take(n as int) =~= pr_diffs@);
    }
    out
}

/// One `({file_name}.comment, record)` pair per grouped file, in order; the
/// records pass through unchanged.
pub fn comment_file_entries(files: Vec<FileCommentsJson>) -> (r: Vec<(String, FileCommentsJson)>)
    ensures
        r@.len() == files@.len(),
        forall|i: int|
            0 <= i < files@.len() ==> (#[trigger] r@[i]).0@ == files@[i]@.file_name + ".comment"@
                && r@[i].1 == files@[i],
{
    let ghost orig = files@;
    let n0 = files.len();
    let mut rest = files;
    let mut out: Vec<(String, FileCommentsJson)> = Vec::new();
    let mut i: usize = 0;
    while rest.len() > 0
        invariant
            n0 == orig.len(),
            i + rest@.len() == orig.len(),
            rest@ == orig.skip(i as int),
            out@.len() == i,
            forall|q: int|
                0 <= q < i ==> (#[trigger] out@[q]).0@ == orig[q]@.file_name + ".comment"@
                    && out@[q].1 == orig[q],
        decreases rest@.len(),
    {
        let f = rest.remove(0);
        proof {
            assert(rest@ =~= orig.skip(i + 1));
            assert(f == orig[i as int]);
        }
        let mut name = f.file_name.clone();
        name.append(".comment");
        out.push((name, f));
        i = i + 1;
    }
    out
}

} // verus!
