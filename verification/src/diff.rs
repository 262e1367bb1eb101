//! The diff parser: turns one unified-diff text into an ordered sequence of
//! per-file diff records.
//!
//! A file entry begins at a line starting with `--- ` whose successor starts
//! with `+++ `; everything up to the next such pair (or the end of the text)
//! belongs to that entry. The entry's file name is taken from the target
//! path, unless the target is `/dev/null` (a removed file), in which case the
//! source path is used; either way the name keeps only what follows the first
//! `/` of the path, which strips the `a/` or `b/` prefix that the diff format
//! adds. A path without any `/` cannot be parsed and yields a
//! `DiffParseError`. An entry's `contents` is its re-serialized text: the two
//! header lines and the body lines, each terminated by a newline.

use vstd::prelude::*;

use crate::model::GitDiff;
use crate::model::GitDiffView;
use crate::model::NestedError;
use crate::model::PullRequestDiff;
use crate::model::PursError;
use crate::model::R;
use crate::strings::find_char;
use crate::strings::first_index;
use crate::strings::starts_with;
use crate::strings::str_eq;
use crate::strings::str_starts_with;

verus! {

// ---------------------------------------------------------------------------
// Splitting text into lines
// ---------------------------------------------------------------------------
/// Scans `s`, accumulating the current line in `cur` and finished lines in
/// `acc`; a final line is kept only if it is non-empty, so a trailing newline
/// does not produce an empty last line.
pub open spec fn lines_acc(s: Seq<char>, cur: Seq<char>, acc: Seq<Seq<char>>) -> Seq<Seq<char>>
    decreases s.len(),
{
    if s.len() == 0 {
        if cur.len() == 0 {
            acc
        } else {
            acc.push(cur)
        }
    } else if s[0] == '\n' {
        lines_acc(s.skip(1), Seq::empty(), acc.push(cur))
    } else {
        lines_acc(s.skip(1), cur.push(s[0]), acc)
    }
}

/// The lines of a text, split at `'\n'`.
pub open spec fn spec_lines(s: Seq<char>) -> Seq<Seq<char>> {
    lines_acc(s, Seq::empty(), Seq::empty())
}

/// The views of a vector of owned lines.
pub open spec fn views_of(lines: Seq<String>) -> Seq<Seq<char>> {
    lines.map_values(|l: String| l@)
}

/// Splits a text into its lines.
pub fn split_lines(s: &str) -> (r: Vec<String>)
    ensures
        views_of(r@) == spec_lines(s@),
{
    let n = s.unicode_len();
    let mut acc: Vec<String> = Vec::new();
    let mut start: usize = 0;
    let mut i: usize = 0;
    proof {
        assert(s@.skip(0) =~= s@);
        assert(s@.subrange(0, 0) =~= Seq::<char>::empty());
        assert(views_of(acc@) =~= Seq::<Seq<char>>::empty());
    }
    while i < n
        invariant
            n == s@.len(),
            start <= i <= n,
            lines_acc(s@.skip(i as int), s@.subrange(start as int, i as int), views_of(acc@))
                == spec_lines(s@),
        decreases n - i,
    {
        let ghost pre_acc = views_of(acc@);
        let ghost cur = s@.subrange(start as int, i as int);
        let c = s.get_char(i);
        proof {
            assert(s@.skip(i as int)[0] == s@[i as int]);
            assert(s@.skip(i as int).skip(1) =~= s@.skip(i + 1));
        }
        if c == '\n' {
            let line = s.substring_char(start, i).to_owned();
            acc.push(line);
            proof {
                assert(views_of(acc@) =~= pre_acc.push(cur));
                assert(s@.subrange(i + 1, i + 1) =~= Seq::<char>::empty());
            }
            start = i + 1;
        } else {
            proof {
                assert(cur.push(s@[i as int]) =~= s@.subrange(start as int, i + 1));
            }
        }
        i = i + 1;
    }
    if start < n {
        let ghost pre_acc = views_of(acc@);
        let line = s.substring_char(start, n).to_owned();
        acc.push(line);
        proof {
            assert(views_of(acc@) =~= pre_acc.push(s@.subrange(start as int, n as int)));
        }
    } else {
        proof {
            assert(s@.subrange(start as int, n as int).len() == 0);
        }
    }
    proof {
        assert(s@.skip(n as int).len() == 0);
    }
    acc
}

// ---------------------------------------------------------------------------
// The grammar over lines
// ---------------------------------------------------------------------------
/// A file entry starts where a `--- ` line is followed by a `+++ ` line.
pub open spec fn is_entry_start(lines: Seq<Seq<char>>, i: int) -> bool {
    &&& 0 <= i
    &&& i + 1 < lines.len()
    &&& starts_with(lines[i], "--- "@)
    &&& starts_with(lines[i + 1], "+++ "@)
}

/// The positions of all entry starts among the first `n` lines, in order.
pub open spec fn entry_starts_upto(lines: Seq<Seq<char>>, n: int) -> Seq<int>
    decreases n,
{
    if n <= 0 {
        Seq::empty()
    } else if is_entry_start(lines, n - 1) {
        entry_starts_upto(lines, n - 1).push(n - 1)
    } else {
        entry_starts_upto(lines, n - 1)
    }
}

/// The positions of all entry starts, in order.
pub open spec fn entry_starts(lines: Seq<Seq<char>>) -> Seq<int> {
    entry_starts_upto(lines, lines.len() as int)
}

pub proof fn lemma_entry_starts_upto_props(lines: Seq<Seq<char>>, n: int)
    ensures
        forall|k: int|
            0 <= k < entry_starts_upto(lines, n).len() ==> is_entry_start(
                lines,
                #[trigger] entry_starts_upto(lines, n)[k],
            ) && entry_starts_upto(lines, n)[k] < n,
        forall|a: int, b: int|
            0 <= a < b < entry_starts_upto(lines, n).len() ==> entry_starts_upto(lines, n)[a]
                < entry_starts_upto(lines, n)[b],
    decreases n,
{
    if n > 0 {
        lemma_entry_starts_upto_props(lines, n - 1);
        let prior = entry_starts_upto(lines, n - 1);
        let cur = entry_starts_upto(lines, n);
        if is_entry_start(lines, n - 1) {
            assert(cur == prior.push(n - 1));
            assert forall|k: int| 0 <= k < cur.len() implies is_entry_start(lines, #[trigger] cur[k])
                && cur[k] < n by {
                if k < prior.len() {
                    assert(cur[k] == prior[k]);
                } else {
                    assert(cur[k] == n - 1);
                }
            }
            assert forall|a: int, b: int| 0 <= a < b < cur.len() implies cur[a] < cur[b] by {
                if b < prior.len() {
                    assert(cur[a] == prior[a] && cur[b] == prior[b]);
                } else {
                    assert(cur[b] == n - 1);
                    assert(cur[a] == prior[a]);
                    assert(prior[a] < n - 1);
                }
            }
        } else {
            assert(cur == prior);
        }
    }
}

/// Two entry starts are never adjacent: the line after a `--- ` header is a
/// `+++ ` header, which cannot itself begin with `--- `.
pub proof fn lemma_entry_starts_gap(lines: Seq<Seq<char>>)
    ensures
        forall|k: int|
            0 <= k && k + 1 < entry_starts(lines).len() ==> #[trigger] entry_starts(lines)[k] + 2
                <= entry_starts(lines)[k + 1],
{
    let n = lines.len() as int;
    lemma_entry_starts_upto_props(lines, n);
    let starts = entry_starts(lines);
    assert(starts == entry_starts_upto(lines, n));
    assert forall|k: int| 0 <= k && k + 1 < starts.len() implies #[trigger] starts[k] + 2
        <= starts[k + 1] by {
        assert(starts[k] == entry_starts_upto(lines, n)[k]);
        assert(starts[k + 1] == entry_starts_upto(lines, n)[k + 1]);
        assert(starts[k] < starts[k + 1]);
        if starts[k] + 1 == starts[k + 1] {
            let p = starts[k];
            assert(is_entry_start(lines, p));
            assert(is_entry_start(lines, p + 1));
            reveal_strlit("--- ");
            reveal_strlit("+++ ");
            assert(starts_with(lines[p + 1], "--- "@));
            assert(starts_with(lines[p + 1], "+++ "@));
            assert(lines[p + 1].take("--- "@.len() as int)[0] == '-');
            assert(lines[p + 1].take("+++ "@.len() as int)[0] == '+');
            assert(lines[p + 1][0] == '-');
            assert(lines[p + 1][0] == '+');
        }
    }
}

/// Everything after the first `/`, if there is one.
pub open spec fn stripped_name(s: Seq<char>) -> Option<Seq<char>> {
    match first_index(s, '/') {
        Some(i) => Some(s.skip(i + 1)),
        None => None,
    }
}

/// The text before the first tab, which cuts a timestamp off a header path.
pub open spec fn before_tab(s: Seq<char>) -> Seq<char> {
    match first_index(s, '\t') {
        Some(i) => s.take(i),
        None => s,
    }
}

/// The source path of the entry starting at line `p`.
pub open spec fn entry_source(lines: Seq<Seq<char>>, p: int) -> Seq<char> {
    before_tab(lines[p].skip("--- "@.len() as int))
}

/// The target path of the entry starting at line `p`.
pub open spec fn entry_target(lines: Seq<Seq<char>>, p: int) -> Seq<char> {
    before_tab(lines[p + 1].skip("+++ "@.len() as int))
}

/// The path an entry is named after: the target, unless the file was removed
/// (no target exists after removal), then the source.
pub open spec fn entry_chosen_path(lines: Seq<Seq<char>>, p: int) -> Seq<char> {
    if entry_target(lines, p) == "/dev/null"@ {
        entry_source(lines, p)
    } else {
        entry_target(lines, p)
    }
}

/// The file name of the entry starting at line `p`: the chosen path with its
/// first path segment (the `a/` or `b/` prefix) removed.
pub open spec fn entry_file_name(lines: Seq<Seq<char>>, p: int) -> Option<Seq<char>> {
    stripped_name(entry_chosen_path(lines, p))
}

/// The lines joined back into text, each line terminated by a newline.
pub open spec fn joined_lines(lines: Seq<Seq<char>>) -> Seq<char>
    decreases lines.len(),
{
    if lines.len() == 0 {
        Seq::empty()
    } else {
        joined_lines(lines.drop_last()) + lines.last() + "\n"@
    }
}

/// Where the entry numbered `k` ends: at the next entry start, or at the end
/// of the text.
pub open spec fn entry_end(lines: Seq<Seq<char>>, starts: Seq<int>, k: int) -> int {
    if k + 1 < starts.len() {
        starts[k + 1]
    } else {
        lines.len() as int
    }
}

/// Whether every entry of the diff has a parseable file name.
pub open spec fn spec_parse_ok(lines: Seq<Seq<char>>) -> bool {
    forall|k: int|
        0 <= k < entry_starts(lines).len() ==> entry_file_name(
            lines,
            #[trigger] entry_starts(lines)[k],
        ) is Some
}

/// The parsed diff records: one per entry, in order of appearance.
pub open spec fn spec_entries(lines: Seq<Seq<char>>) -> Seq<GitDiffView> {
    let starts = entry_starts(lines);
    Seq::new(
        starts.len(),
        |k: int|
            GitDiffView {
                file_name: match entry_file_name(lines, starts[k]) {
                    Some(n) => n,
                    None => Seq::empty(),
                },
                contents: joined_lines(lines.subrange(starts[k], entry_end(lines, starts, k))),
            },
    )
}

// ---------------------------------------------------------------------------
// Executable parser
// ---------------------------------------------------------------------------
/// Strips everything up to and including the first `/`; `None` when the path
/// has no `/` at all.
pub fn parse_only_file_name(diff_file: &str) -> (r: Option<String>)
    ensures
        match r {
            Some(name) => stripped_name(diff_file@) == Some(name@),
            None => stripped_name(diff_file@) is None,
        },
{
    match find_char(diff_file, '/') {
        Some(i) => {
            proof {
                crate::strings::lemma_first_index_in_range(diff_file@, '/');
            }
            let l = diff_file.unicode_len();
            let name = diff_file.substring_char(i + 1, l);
            proof {
                assert(name@ =~= diff_file@.skip(i + 1));
            }
            Some(name.to_owned())
        },
        None => None,
    }
}

/// Builds the record for the entry spanning lines `p` (inclusive) to `e`
/// (exclusive); `None` when its file name cannot be parsed.
fn build_entry(lines: &Vec<String>, p: usize, e: usize) -> (r: Option<GitDiff>)
    requires
        is_entry_start(views_of(lines@), p as int),
        p + 2 <= e <= lines@.len(),
    ensures
        match r {
            Some(d) => entry_file_name(views_of(lines@), p as int) == Some(d@.file_name)
                && d@.contents == joined_lines(
                views_of(lines@).subrange(p as int, e as int),
            ),
            None => entry_file_name(views_of(lines@), p as int) is None,
        },
{
    let ghost lv = views_of(lines@);
    proof {
        reveal_strlit("--- ");
        reveal_strlit("+++ ");
        assert(lv[p as int] == lines@[p as int]@);
        assert(lv[p + 1] == lines@[p + 1]@);
    }
    let src_line = &lines[p];
    let tgt_line = &lines[p + 1];
    let src_rest = src_line.substring_char(4, src_line.unicode_len());
    let tgt_rest = tgt_line.substring_char(4, tgt_line.unicode_len());
    proof {
        assert(src_rest@ =~= lv[p as int].skip("--- "@.len() as int));
        assert(tgt_rest@ =~= lv[p + 1].skip("+++ "@.len() as int));
    }
    let src_cut = match find_char(src_rest, '\t') {
        Some(t) => {
            proof {
                crate::strings::lemma_first_index_in_range(src_rest@, '\t');
            }
            src_rest.substring_char(0, t)
        },
        None => src_rest,
    };
    let tgt_cut = match find_char(tgt_rest, '\t') {
        Some(t) => {
            proof {
                crate::strings::lemma_first_index_in_range(tgt_rest@, '\t');
            }
            tgt_rest.substring_char(0, t)
        },
        None => tgt_rest,
    };
    proof {
        assert(src_cut@ =~= entry_source(lv, p as int));
        assert(tgt_cut@ =~= entry_target(lv, p as int));
    }
    let removed = str_eq(tgt_cut, "/dev/null");
    let chosen = if removed {
        src_cut
    } else {
        tgt_cut
    };
    proof {
        assert(chosen@ == entry_chosen_path(lv, p as int));
    }
    let name = match parse_only_file_name(chosen) {
        Some(name) => name,
        None => {
            return None;
        },
    };
    // Re-serialize the entry: both header lines, then the body lines.
    let mut contents = src_line.clone();
    contents.append("\n");
    contents.append(tgt_line.as_str());
    contents.append("\n");
    proof {
        let s0 = lv.subrange(p as int, p as int);
        let s1 = lv.subrange(p as int, p + 1);
        let s2 = lv.subrange(p as int, p + 2);
        assert(s2.drop_last() =~= s1);
        assert(s1.drop_last() =~= s0);
        assert(s0.len() == 0);
        assert(s1.last() == lv[p as int]);
        assert(s2.last() == lv[p + 1]);
        assert(joined_lines(s0) == Seq::<char>::empty());
        assert(joined_lines(s1) == joined_lines(s0) + lv[p as int] + "\n"@);
        assert(joined_lines(s2) == joined_lines(s1) + lv[p + 1] + "\n"@);
        assert(contents@ =~= joined_lines(s2));
    }
    let mut j: usize = p + 2;
    while j < e
        invariant
            is_entry_start(lv, p as int),
            lv == views_of(lines@),
            p + 2 <= j <= e <= lines@.len(),
            contents@ == joined_lines(lv.subrange(p as int, j as int)),
        decreases e - j,
    {
        contents.append(lines[j].as_str());
        contents.append("\n");
        proof {
            let sj = lv.subrange(p as int, j + 1);
            assert(sj.drop_last() =~= lv.subrange(p as int, j as int));
            assert(sj.last() == lv[j as int]);
            assert(lv[j as int] == lines@[j as int]@);
        }
        j = j + 1;
    }
    Some(GitDiff { file_name: name, contents })
}

/// Parses a unified-diff text into one `GitDiff` per file entry, in order of
/// appearance; fails with `DiffParseError` exactly when some entry's chosen
/// path holds no `/`.
pub fn parse_diffs(diff_text: &str) -> (r: R<PullRequestDiff>)
    ensures
        match r {
            Ok(d) => spec_parse_ok(spec_lines(diff_text@)) && d@ == spec_entries(
                spec_lines(diff_text@),
            ) && d@.len() == entry_starts(spec_lines(diff_text@)).len(),
            Err(e) => !spec_parse_ok(spec_lines(diff_text@)) && e matches PursError::DiffParseError(
                _,
            ),
        },
{
    let lines = split_lines(diff_text);
    let ghost lv = views_of(lines@);
    let n = lines.len();

    // Collect the entry start positions.
    let mut starts: Vec<usize> = Vec::new();
    let mut i: usize = 0;
    while i < n
        invariant
            n == lines@.len(),
            lv == views_of(lines@),
            i <= n,
            starts@.map_values(|u: usize| u as int) == entry_starts_upto(lv, i as int),
            forall|k: int| 0 <= k < starts@.len() ==> starts@[k] < n,
        decreases n - i,
    {
        let ghost pre = starts@.map_values(|u: usize| u as int);
        let hit = if i + 1 < n {
            let a = str_starts_with(&lines[i], "--- ");
            let b = str_starts_with(&lines[i + 1], "+++ ");
            a && b
        } else {
            false
        };
        proof {
            assert(lv[i as int] == lines@[i as int]@);
            if i + 1 < n {
                assert(lv[i + 1] == lines@[i + 1]@);
            }
            assert(hit == is_entry_start(lv, i as int));
        }
        if hit {
            starts.push(i);
            proof {
                assert(starts@.map_values(|u: usize| u as int) =~= pre.push(i as int));
            }
        }
        i = i + 1;
    }
    proof {
        lemma_entry_starts_upto_props(lv, lv.len() as int);
        lemma_entry_starts_gap(lv);
        assert(starts@.map_values(|u: usize| u as int) == entry_starts(lv));
    }
    let ghost sv = entry_starts(lv);

    // Build one record per entry.
    let m = starts.len();
    let mut diffs: Vec<GitDiff> = Vec::new();
    let mut k: usize = 0;
    while k < m
        invariant
            n == lines@.len(),
            lv == views_of(lines@),
            lv == spec_lines(diff_text@),
            m == starts@.len(),
            sv == entry_starts(lv),
            starts@.map_values(|u: usize| u as int) == sv,
            k <= m,
            diffs@.len() == k,
            forall|q: int| 0 <= q < k ==> entry_file_name(lv, #[trigger] sv[q]) is Some,
            forall|q: int| 0 <= q < k ==> #[trigger] diffs@[q]@ == spec_entries(lv)[q],
        decreases m - k,
    {
        let p = starts[k];
        let e = if k + 1 < m {
            starts[k + 1]
        } else {
            n
        };
        proof {
            let n_int = lv.len() as int;
            lemma_entry_starts_upto_props(lv, n_int);
            lemma_entry_starts_gap(lv);
            assert(sv[k as int] == starts@.map_values(|u: usize| u as int)[k as int]);
            assert(sv[k as int] == p as int);
            assert(entry_starts_upto(lv, n_int)[k as int] == sv[k as int]);
            assert(is_entry_start(lv, p as int));
            if k + 1 < m {
                assert(sv[k + 1] == starts@.map_values(|u: usize| u as int)[k + 1]);
                assert(sv[k + 1] == starts@[k + 1] as int);
                assert(entry_starts(lv)[k as int] == sv[k as int]);
                assert(entry_starts(lv)[k + 1] == sv[k + 1]);
                assert(sv[k as int] + 2 <= sv[k + 1]);
            }
            assert(e as int == entry_end(lv, sv, k as int));
            assert(p + 2 <= e <= n);
        }
        match build_entry(&lines, p, e) {
            Some(d) => {
                let ghost prev = diffs@;
                diffs.push(d);
                proof {
                    assert(diffs@ == prev.push(d));
                    assert(diffs@[k as int]@ == spec_entries(lv)[k as int]);
                    assert(entry_file_name(lv, sv[k as int]) is Some);
                    assert forall|q: int| 0 <= q < k + 1 implies #[trigger] diffs@[q]@
                        == spec_entries(lv)[q] by {
                        if q < k {
                            assert(diffs@[q] == prev[q]);
                            assert(prev[q]@ == spec_entries(lv)[q]);
                        }
                    }
                    assert forall|q: int| 0 <= q < k + 1 implies entry_file_name(
                        lv,
                        #[trigger] sv[q],
                    ) is Some by {}
                }
            },
            None => {
                proof {
                    assert(entry_starts(lv)[k as int] == sv[k as int]);
                    assert(!spec_parse_ok(lv));
                }
                return Err(
                    PursError::DiffParseError(
                        NestedError::new(
                            "diff header path holds no '/' separator to strip".to_owned(),
                        ),
                    ),
                );
            },
        }
        k = k + 1;
    }
    proof {
        assert forall|q: int| 0 <= q < entry_starts(lv).len() implies entry_file_name(
            lv,
            #[trigger] entry_starts(lv)[q],
        ) is Some by {
            assert(entry_starts(lv)[q] == sv[q]);
            assert(diffs@[q]@ == spec_entries(lv)[q]);
        }
        assert(diffs@.map_values(|d: GitDiff| d@) =~= spec_entries(lv));
    }
    Ok(PullRequestDiff(diffs))
}

/// Stripping the diff format's `a/` or `b/` prefix from a path whose
/// remainder holds no further `/` leaves exactly that remainder, which then
/// starts with neither prefix.
pub proof fn lemma_file_name_strips_vcs_prefix(path: Seq<char>, rest: Seq<char>)
    requires
        path == "a/"@ + rest || path == "b/"@ + rest,
        !rest.contains('/'),
    ensures
        stripped_name(path) == Some(rest),
        !starts_with(rest, "a/"@),
        !starts_with(rest, "b/"@),
{
    reveal_strlit("a/");
    reveal_strlit("b/");
    assert(path[1] == '/');
    assert(path[0] == 'a' || path[0] == 'b');
    crate::strings::lemma_first_index_hit(path, '/', 1);
    assert(path.skip(2) =~= rest);
    assert forall|j: int| 0 <= j < rest.len() implies rest[j] != '/' by {
        assert(!rest.contains('/'));
        if rest[j] == '/' {
            assert(rest.contains('/'));
        }
    }
    if starts_with(rest, "a/"@) {
        assert(rest.take(2)[1] == '/');
        assert(rest[1] == '/');
    }
    if starts_with(rest, "b/"@) {
        assert(rest.take(2)[1] == '/');
        assert(rest[1] == '/');
    }
}

} // verus!
