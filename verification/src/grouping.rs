//! The comment grouping transform: projects a flat comment collection onto a
//! nested file -> line -> comment structure for output, resolving each
//! author's avatar through a lookup of cached avatar references.
//!
//! Only comments that carry a line number take part; a comment without one
//! has no (file, line) grouping key and is left out. Files appear in order of
//! first reference, lines within a file likewise, and the comments inside one
//! (file, line) group keep their input order.

use vstd::prelude::*;

use crate::model::CommentJson;
use crate::model::CommentJsonView;
use crate::model::CommentView;
use crate::model::Comments;
use crate::model::FileCommentsJson;
use crate::model::FileCommentsJsonView;
use crate::model::FileUrl;
use crate::model::LineCommentsJson;
use crate::model::LineCommentsJsonView;
use crate::model::Url;
use crate::tools::distinct_of;
use crate::tools::lemma_contains_drop_last;
use crate::tools::lemma_distinct_of_props;

verus! {

// ---------------------------------------------------------------------------
// Avatar lookup
// ---------------------------------------------------------------------------
/// The views of an avatar lookup: pairs of avatar URL and resolved local
/// reference.
pub open spec fn avatar_views(s: Seq<(Url, FileUrl)>) -> Seq<(Seq<char>, Seq<char>)> {
    s.map_values(|p: (Url, FileUrl)| (p.0@, p.1@))
}

/// The icon for an avatar URL: the reference of the first pair holding that
/// URL, or the placeholder `-` when the lookup has no entry for it. The
/// placeholder is a documented default, not an error.
pub open spec fn lookup_icon(pairs: Seq<(Seq<char>, Seq<char>)>, url: Seq<char>) -> Seq<char>
    decreases pairs.len(),
{
    if pairs.len() == 0 {
        "-"@
    } else if pairs[0].0 == url {
        pairs[0].1
    } else {
        lookup_icon(pairs.skip(1), url)
    }
}

proof fn lemma_lookup_icon_hit(pairs: Seq<(Seq<char>, Seq<char>)>, url: Seq<char>, j: int)
    requires
        0 <= j < pairs.len(),
        pairs[j].0 == url,
        forall|i: int| 0 <= i < j ==> (#[trigger] pairs[i]).0 != url,
    ensures
        lookup_icon(pairs, url) == pairs[j].1,
    decreases j,
{
    if j > 0 {
        lemma_lookup_icon_hit(pairs.skip(1), url, j - 1);
    }
}

proof fn lemma_lookup_icon_miss(pairs: Seq<(Seq<char>, Seq<char>)>, url: Seq<char>)
    requires
        forall|i: int| 0 <= i < pairs.len() ==> (#[trigger] pairs[i]).0 != url,
    ensures
        lookup_icon(pairs, url) == "-"@,
    decreases pairs.len(),
{
    if pairs.len() > 0 {
        lemma_lookup_icon_miss(pairs.skip(1), url);
    }
}

/// Resolves one avatar URL through the lookup.
fn lookup_avatar(avatars: &Vec<(Url, FileUrl)>, url: &Url) -> (r: String)
    ensures
        r@ == lookup_icon(avatar_views(avatars@), url@),
{
    let ghost av = avatar_views(avatars@);
    let n = avatars.len();
    let mut j: usize = 0;
    while j < n
        invariant
            n == avatars@.len(),
            av == avatar_views(avatars@),
            j <= n,
            forall|i: int| 0 <= i < j ==> (#[trigger] av[i]).0 != url@,
        decreases n - j,
    {
        if avatars[j].0.0.eq(&url.0) {
            proof {
                assert(av[j as int] == (avatars@[j as int].0@, avatars@[j as int].1@));
                lemma_lookup_icon_hit(av, url@, j as int);
            }
            return avatars[j].1.0.0.clone();
        }
        proof {
            assert(av[j as int] == (avatars@[j as int].0@, avatars@[j as int].1@));
        }
        j = j + 1;
    }
    proof {
        lemma_lookup_icon_miss(av, url@);
    }
    "-".to_owned()
}

// ---------------------------------------------------------------------------
// The grouping, specified
// ---------------------------------------------------------------------------
/// The output record for one line-bearing comment.
pub open spec fn json_of(
    c: CommentView,
    avatars: Seq<(Seq<char>, Seq<char>)>,
    l: u64,
) -> CommentJsonView {
    CommentJsonView {
        user_name: c.author.name,
        user_icon: lookup_icon(avatars, c.author.gravatar),
        link: c.comment_url,
        line: l,
        body: c.body,
        body_md: c.markdown_body,
        file_name: c.file_name,
    }
}

/// The records of all line-bearing comments, in input order.
pub open spec fn json_list_of(
    cs: Seq<CommentView>,
    avatars: Seq<(Seq<char>, Seq<char>)>,
) -> Seq<CommentJsonView>
    decreases cs.len(),
{
    if cs.len() == 0 {
        Seq::empty()
    } else {
        let rest = json_list_of(cs.drop_last(), avatars);
        match cs.last().line {
            Some(l) => rest.push(json_of(cs.last(), avatars, l)),
            None => rest,
        }
    }
}

/// The records referring to file `f`, in order.
pub open spec fn jsons_for_file(js: Seq<CommentJsonView>, f: Seq<char>) -> Seq<CommentJsonView>
    decreases js.len(),
{
    if js.len() == 0 {
        Seq::empty()
    } else {
        let rest = jsons_for_file(js.drop_last(), f);
        if js.last().file_name == f {
            rest.push(js.last())
        } else {
            rest
        }
    }
}

/// The records on line `l`, in order.
pub open spec fn jsons_for_line(js: Seq<CommentJsonView>, l: u64) -> Seq<CommentJsonView>
    decreases js.len(),
{
    if js.len() == 0 {
        Seq::empty()
    } else {
        let rest = jsons_for_line(js.drop_last(), l);
        if js.last().line == l {
            rest.push(js.last())
        } else {
            rest
        }
    }
}

/// The group of one (file, line) key, given the records of that file.
pub open spec fn line_group_of(
    jf: Seq<CommentJsonView>,
    f: Seq<char>,
    l: u64,
) -> LineCommentsJsonView {
    LineCommentsJsonView { line: l, file_name: f, file_line_comments: jsons_for_line(jf, l) }
}

/// The group of one file: its lines in order of first reference, each with
/// its comments.
pub open spec fn file_group_of(js: Seq<CommentJsonView>, f: Seq<char>) -> FileCommentsJsonView {
    let jf = jsons_for_file(js, f);
    let lines = distinct_of(jf.map_values(|j: CommentJsonView| j.line));
    FileCommentsJsonView {
        file_name: f,
        file_comments: Seq::new(lines.len(), |m: int| line_group_of(jf, f, lines[m])),
    }
}

/// The whole grouping: one record per distinct file name referenced by a
/// line-bearing comment, in order of first reference.
pub open spec fn grouped_spec(
    cs: Seq<CommentView>,
    avatars: Seq<(Seq<char>, Seq<char>)>,
) -> Seq<FileCommentsJsonView> {
    let js = json_list_of(cs, avatars);
    let files = distinct_of(js.map_values(|j: CommentJsonView| j.file_name));
    Seq::new(files.len(), |k: int| file_group_of(js, files[k]))
}

// ---------------------------------------------------------------------------
// The partition property
// ---------------------------------------------------------------------------
proof fn lemma_contains_push<A>(s: Seq<A>, x: A, y: A)
    ensures
        s.push(x).contains(y) <==> s.contains(y) || x == y,
{
    let p = s.push(x);
    if p.contains(y) {
        let i = choose|i: int| 0 <= i < p.len() && p[i] == y;
        if i < s.len() {
            assert(s[i] == y);
        }
    }
    if s.contains(y) {
        let i = choose|i: int| 0 <= i < s.len() && s[i] == y;
        assert(p[i] == y);
    }
    if x == y {
        assert(p[s.len() as int] == y);
    }
}

proof fn lemma_jsons_for_file_members(js: Seq<CommentJsonView>, f: Seq<char>)
    ensures
        forall|x: CommentJsonView|
            #[trigger] jsons_for_file(js, f).contains(x) <==> js.contains(x) && x.file_name == f,
    decreases js.len(),
{
    if js.len() > 0 {
        lemma_jsons_for_file_members(js.drop_last(), f);
        let rest = jsons_for_file(js.drop_last(), f);
        let cur = jsons_for_file(js, f);
        assert forall|x: CommentJsonView| #[trigger] cur.contains(x) <==> js.contains(x)
            && x.file_name == f by {
            lemma_contains_drop_last(js, x);
            if js.last().file_name == f {
                lemma_contains_push(rest, js.last(), x);
            }
        }
    }
}

proof fn lemma_jsons_for_line_members(js: Seq<CommentJsonView>, l: u64)
    ensures
        forall|x: CommentJsonView|
            #[trigger] jsons_for_line(js, l).contains(x) <==> js.contains(x) && x.line == l,
    decreases js.len(),
{
    if js.len() > 0 {
        lemma_jsons_for_line_members(js.drop_last(), l);
        let rest = jsons_for_line(js.drop_last(), l);
        let cur = jsons_for_line(js, l);
        assert forall|x: CommentJsonView| #[trigger] cur.contains(x) <==> js.contains(x) && x.line
            == l by {
            lemma_contains_drop_last(js, x);
            if js.last().line == l {
                lemma_contains_push(rest, js.last(), x);
            }
        }
    }
}

proof fn lemma_json_list_members(cs: Seq<CommentView>, avatars: Seq<(Seq<char>, Seq<char>)>)
    ensures
        forall|i: int|
            0 <= i < cs.len() ==> match (#[trigger] cs[i]).line {
                Some(l) => json_list_of(cs, avatars).contains(json_of(cs[i], avatars, l)),
                None => true,
            },
    decreases cs.len(),
{
    if cs.len() > 0 {
        lemma_json_list_members(cs.drop_last(), avatars);
        let rest = json_list_of(cs.drop_last(), avatars);
        let cur = json_list_of(cs, avatars);
        assert forall|i: int| 0 <= i < cs.len() implies match (#[trigger] cs[i]).line {
            Some(l) => cur.contains(json_of(cs[i], avatars, l)),
            None => true,
        } by {
            if i < cs.len() - 1 {
                assert(cs.drop_last()[i] == cs[i]);
                match cs[i].line {
                    Some(l) => {
                        assert(rest.contains(json_of(cs[i], avatars, l)));
                        match cs.last().line {
                            Some(l2) => {
                                lemma_contains_push(
                                    rest,
                                    json_of(cs.last(), avatars, l2),
                                    json_of(cs[i], avatars, l),
                                );
                            },
                            None => {},
                        }
                    },
                    None => {},
                }
            } else {
                match cs.last().line {
                    Some(l) => {
                        assert(cur.last() == json_of(cs.last(), avatars, l));
                        assert(cur.contains(json_of(cs[i], avatars, l)));
                    },
                    None => {},
                }
            }
        }
    }
}

/// Every member of every group carries its group's file name and its line
/// group's line number.
pub open spec fn groups_keyed(g: Seq<FileCommentsJsonView>) -> bool {
    forall|k: int, m: int, j: int|
        #![trigger g[k].file_comments[m].file_line_comments[j]]
        (0 <= k < g.len() && 0 <= m < g[k].file_comments.len() && 0 <= j
            < g[k].file_comments[m].file_line_comments.len()) ==> {
            &&& g[k].file_comments[m].file_line_comments[j].file_name == g[k].file_name
            &&& g[k].file_comments[m].file_line_comments[j].line == g[k].file_comments[m].line
            &&& g[k].file_comments[m].file_name == g[k].file_name
        }
}

/// The groups' (file, line) keys are pairwise distinct.
pub open spec fn group_keys_distinct(g: Seq<FileCommentsJsonView>) -> bool {
    &&& forall|k1: int, k2: int|
        0 <= k1 < k2 < g.len() ==> (#[trigger] g[k1]).file_name != (#[trigger] g[k2]).file_name
    &&& forall|k: int, m1: int, m2: int|
        #![trigger g[k].file_comments[m1], g[k].file_comments[m2]]
        (0 <= k < g.len() && 0 <= m1 < m2 < g[k].file_comments.len()) ==> g[k].file_comments[m1].line
            != g[k].file_comments[m2].line
}

/// The record of comment `c` (with line `l`) is a member of the group keyed
/// by `c`'s own file name and line.
pub open spec fn comment_grouped(
    g: Seq<FileCommentsJsonView>,
    c: CommentView,
    avatars: Seq<(Seq<char>, Seq<char>)>,
    l: u64,
) -> bool {
    exists|k: int, m: int|
        #![trigger g[k].file_comments[m]]
        {
            &&& 0 <= k < g.len()
            &&& 0 <= m < g[k].file_comments.len()
            &&& g[k].file_name == c.file_name
            &&& g[k].file_comments[m].line == l
            &&& g[k].file_comments[m].file_line_comments.contains(json_of(c, avatars, l))
        }
}

/// The grouping is a partition of the line-bearing comments: every member of
/// a group carries that group's file name and line number (so none lacks a
/// line), the groups' (file, line) keys are pairwise distinct, and the record
/// of each line-bearing comment is a member of the group keyed by its own
/// file and line — taken together, each line-bearing comment appears in
/// exactly one group.
pub proof fn lemma_grouping_partitions(cs: Seq<CommentView>, avatars: Seq<(Seq<char>, Seq<char>)>)
    ensures
        groups_keyed(grouped_spec(cs, avatars)),
        group_keys_distinct(grouped_spec(cs, avatars)),
        forall|i: int|
            0 <= i < cs.len() ==> match (#[trigger] cs[i]).line {
                Some(l) => comment_grouped(grouped_spec(cs, avatars), cs[i], avatars, l),
                None => true,
            },
{
    let js = json_list_of(cs, avatars);
    let names = js.map_values(|j: CommentJsonView| j.file_name);
    let files = distinct_of(names);
    let g = grouped_spec(cs, avatars);
    lemma_distinct_of_props(names);
    lemma_json_list_members(cs, avatars);
    assert(g.len() == files.len());

    // Members carry their group's keys.
    assert forall|k: int, m: int, j: int|
        #![trigger g[k].file_comments[m].file_line_comments[j]]
        (0 <= k < g.len() && 0 <= m < g[k].file_comments.len() && 0 <= j
            < g[k].file_comments[m].file_line_comments.len()) implies {
        &&& g[k].file_comments[m].file_line_comments[j].file_name == g[k].file_name
        &&& g[k].file_comments[m].file_line_comments[j].line == g[k].file_comments[m].line
        &&& g[k].file_comments[m].file_name == g[k].file_name
    } by {
        assert(g[k] == file_group_of(js, files[k]));
        let f = files[k];
        let jf = jsons_for_file(js, f);
        let lines = distinct_of(jf.map_values(|x: CommentJsonView| x.line));
        assert(g[k].file_comments[m] == line_group_of(jf, f, lines[m]));
        let member = g[k].file_comments[m].file_line_comments[j];
        let grp = jsons_for_line(jf, lines[m]);
        assert(grp[j] == member);
        assert(grp.contains(member));
        lemma_jsons_for_line_members(jf, lines[m]);
        assert(jf.contains(member));
        lemma_jsons_for_file_members(js, f);
    }
    assert(groups_keyed(g));

    // Group keys are pairwise distinct.
    assert forall|k1: int, k2: int| 0 <= k1 < k2 < g.len() implies (#[trigger] g[k1]).file_name
        != (#[trigger] g[k2]).file_name by {
        assert(g[k1] == file_group_of(js, files[k1]));
        assert(g[k2] == file_group_of(js, files[k2]));
        assert(files[k1] != files[k2]);
    }
    assert forall|k: int, m1: int, m2: int|
        #![trigger g[k].file_comments[m1], g[k].file_comments[m2]]
        (0 <= k < g.len() && 0 <= m1 < m2 < g[k].file_comments.len()) implies g[k].file_comments[m1].line
        != g[k].file_comments[m2].line by {
        assert(g[k] == file_group_of(js, files[k]));
        let jf = jsons_for_file(js, files[k]);
        let lines = distinct_of(jf.map_values(|x: CommentJsonView| x.line));
        lemma_distinct_of_props(jf.map_values(|x: CommentJsonView| x.line));
        assert(g[k].file_comments[m1] == line_group_of(jf, files[k], lines[m1]));
        assert(g[k].file_comments[m2] == line_group_of(jf, files[k], lines[m2]));
        assert(lines[m1] != lines[m2]);
    }
    assert(group_keys_distinct(g));

    // Every line-bearing comment lands in the group of its own file and line.
    assert forall|i: int| 0 <= i < cs.len() implies match (#[trigger] cs[i]).line {
        Some(l) => comment_grouped(g, cs[i], avatars, l),
        None => true,
    } by {
        match cs[i].line {
            Some(l) => {
                let x = json_of(cs[i], avatars, l);
                assert(js.contains(x));
                let idx = choose|idx: int| 0 <= idx < js.len() && js[idx] == x;
                assert(names[idx] == x.file_name);
                assert(names.contains(x.file_name));
                assert(files.contains(x.file_name));
                let k = choose|k: int| 0 <= k < files.len() && files[k] == x.file_name;
                assert(g[k] == file_group_of(js, files[k]));
                let jf = jsons_for_file(js, files[k]);
                lemma_jsons_for_file_members(js, files[k]);
                assert(jf.contains(x));
                let jlines = jf.map_values(|y: CommentJsonView| y.line);
                let jdx = choose|jdx: int| 0 <= jdx < jf.len() && jf[jdx] == x;
                assert(jlines[jdx] == x.line);
                assert(jlines.contains(l));
                let lines = distinct_of(jlines);
                lemma_distinct_of_props(jlines);
                assert(lines.contains(l));
                let m = choose|m: int| 0 <= m < lines.len() && lines[m] == l;
                assert(g[k].file_comments[m] == line_group_of(jf, files[k], lines[m]));
                lemma_jsons_for_line_members(jf, l);
                assert(g[k].file_comments[m].file_line_comments.contains(x));
                assert(g[k].file_name == cs[i].file_name);
                assert(comment_grouped(g, cs[i], avatars, l));
            },
            None => {},
        }
    }
}

// ---------------------------------------------------------------------------
// Executable grouping
// ---------------------------------------------------------------------------
fn clone_json(c: &CommentJson) -> (r: CommentJson)
    ensures
        r@ == c@,
{
    CommentJson {
        user_name: c.user_name.clone(),
        user_icon: c.user_icon.clone(),
        link: c.link.clone(),
        line: c.line,
        body: c.body.clone(),
        body_md: match &c.body_md {
            Some(m) => Some(m.clone()),
            None => None,
        },
        file_name: c.file_name.clone(),
    }
}

fn vec_contains_string(v: &Vec<String>, s: &String) -> (r: bool)
    ensures
        r == v@.map_values(|x: String| x@).contains(s@),
{
    let n = v.len();
    let mut j: usize = 0;
    let mut found = false;
    while j < n
        invariant
            n == v@.len(),
            j <= n,
            found == exists|k: int| 0 <= k < j && (#[trigger] v@[k])@ == s@,
        decreases n - j,
    {
        if v[j].eq(s) {
            found = true;
        }
        j = j + 1;
    }
    proof {
        let vm = v@.map_values(|x: String| x@);
        if found {
            let k = choose|k: int| 0 <= k < n && (#[trigger] v@[k])@ == s@;
            assert(vm[k] == s@);
            assert(vm.contains(s@));
        } else {
            if vm.contains(s@) {
                let k = choose|k: int| 0 <= k < vm.len() && vm[k] == s@;
                assert((v@[k])@ == s@);
            }
        }
    }
    found
}

fn vec_contains_u64(v: &Vec<u64>, x: u64) -> (r: bool)
    ensures
        r == v@.contains(x),
{
    let n = v.len();
    let mut j: usize = 0;
    while j < n
        invariant
            n == v@.len(),
            j <= n,
            forall|k: int| 0 <= k < j ==> v@[k] != x,
        decreases n - j,
    {
        if v[j] == x {
            return true;
        }
        j = j + 1;
    }
    proof {
        if v@.contains(x) {
            let k = choose|k: int| 0 <= k < v@.len() && v@[k] == x;
            assert(v@[k] != x);
        }
    }
    false
}

impl CommentJson {
    /// Groups the line-bearing comments by file and, within each file, by
    /// line, resolving each author's avatar through the lookup.
    pub fn grouped_by_line_2(comments: Comments, avatars: Vec<(Url, FileUrl)>) -> (r: Vec<
        FileCommentsJson,
    >)
        ensures
            r@.map_values(|f: FileCommentsJson| f@) == grouped_spec(
                comments@,
                avatar_views(avatars@),
            ),
    {
        let ghost cv = comments@;
        let ghost av = avatar_views(avatars@);

        // The record of every line-bearing comment, in input order.
        let n = comments.comments.len();
        let mut jsons: Vec<CommentJson> = Vec::new();
        let mut i: usize = 0;
        while i < n
            invariant
                n == comments.comments@.len(),
                cv == comments@,
                av == avatar_views(avatars@),
                i <= n,
                jsons@.map_values(|j: CommentJson| j@) == json_list_of(cv.take(i as int), av),
            decreases n - i,
        {
            let ghost pre = jsons@.map_values(|j: CommentJson| j@);
            let c = &comments.comments[i];
            proof {
                assert(cv[i as int] == comments.comments@[i as int]@);
                assert(cv.take(i + 1).drop_last() =~= cv.take(i as int));
                assert(cv.take(i + 1).last() == cv[i as int]);
            }
            if let Some(l) = c.line {
                let icon = lookup_avatar(&avatars, &c.author.gravatar);
                let json = CommentJson {
                    user_name: c.author.name.clone(),
                    user_icon: icon,
                    link: c.comment_url.0.clone(),
                    line: l.0,
                    body: c.body.clone(),
                    body_md: match &c.markdown_body {
                        Some(m) => Some(m.0.clone()),
                        None => None,
                    },
                    file_name: c.file_name.0.clone(),
                };
                proof {
                    assert(json@ == json_of(cv[i as int], av, l@));
                }
                jsons.push(json);
                proof {
                    assert(jsons@.map_values(|j: CommentJson| j@) =~= pre.push(
                        json_of(cv[i as int], av, l@),
                    ));
                }
            }
            i = i + 1;
        }
        proof {
            assert(cv.take(n as int) =~= cv);
        }
        let ghost jsv = json_list_of(cv, av);
        proof {
            assert(jsons@.map_values(|j: CommentJson| j@) == jsv);
        }

        // The distinct file names, in order of first reference.
        let jn = jsons.len();
        let mut files: Vec<String> = Vec::new();
        let mut i: usize = 0;
        while i < jn
            invariant
                jn == jsons@.len(),
                jsv == jsons@.map_values(|j: CommentJson| j@),
                i <= jn,
                files@.map_values(|f: String| f@) == distinct_of(
                    jsv.map_values(|j: CommentJsonView| j.file_name).take(i as int),
                ),
            decreases jn - i,
        {
            let ghost names = jsv.map_values(|j: CommentJsonView| j.file_name);
            let ghost pre = files@.map_values(|f: String| f@);
            let name = &jsons[i].file_name;
            proof {
                assert(names[i as int] == jsv[i as int].file_name);
                assert(jsv[i as int] == jsons@[i as int]@);
                assert(names.take(i + 1).drop_last() =~= names.take(i as int));
                assert(names.take(i + 1).last() == names[i as int]);
            }
            let found = vec_contains_string(&files, name);
            if !found {
                files.push(name.clone());
                proof {
                    assert(files@.map_values(|f: String| f@) =~= pre.push(name@));
                }
            }
            i = i + 1;
        }
        let ghost filesv = distinct_of(jsv.map_values(|j: CommentJsonView| j.file_name));
        proof {
            assert(jsv.map_values(|j: CommentJsonView| j.file_name).take(jn as int) =~= jsv
                .map_values(|j: CommentJsonView| j.file_name));
            assert(files@.map_values(|f: String| f@) == filesv);
        }

        // One output record per file.
        let fm = files.len();
        let mut out: Vec<FileCommentsJson> = Vec::new();
        let mut k: usize = 0;
        while k < fm
            invariant
                fm == files@.len(),
                jn == jsons@.len(),
                jsv == jsons@.map_values(|j: CommentJson| j@),
                filesv == files@.map_values(|f: String| f@),
                filesv == distinct_of(jsv.map_values(|j: CommentJsonView| j.file_name)),
                cv == comments@,
                av == avatar_views(avatars@),
                k <= fm,
                out@.len() == k,
                forall|q: int|
                    0 <= q < k ==> #[trigger] out@[q]@ == file_group_of(jsv, filesv[q]),
            decreases fm - k,
        {
            let f = &files[k];
            proof {
                assert(filesv[k as int] == files@[k as int]@);
            }

            // The records of this file, in order.
            let mut jf: Vec<CommentJson> = Vec::new();
            let mut i: usize = 0;
            while i < jn
                invariant
                    jn == jsons@.len(),
                    jsv == jsons@.map_values(|j: CommentJson| j@),
                    i <= jn,
                    jf@.map_values(|j: CommentJson| j@) == jsons_for_file(
                        jsv.take(i as int),
                        f@,
                    ),
                decreases jn - i,
            {
                let ghost pre = jf@.map_values(|j: CommentJson| j@);
                proof {
                    assert(jsv[i as int] == jsons@[i as int]@);
                    assert(jsv.take(i + 1).drop_last() =~= jsv.take(i as int));
                    assert(jsv.take(i + 1).last() == jsv[i as int]);
                }
                if jsons[i].file_name.eq(f) {
                    jf.push(clone_json(&jsons[i]));
                    proof {
                        assert(jf@.map_values(|j: CommentJson| j@) =~= pre.push(jsv[i as int]));
                    }
                }
                i = i + 1;
            }
            let ghost jfv = jsons_for_file(jsv, f@);
            proof {
                assert(jsv.take(jn as int) =~= jsv);
                assert(jf@.map_values(|j: CommentJson| j@) == jfv);
            }

            // The distinct lines of this file, in order of first reference.
            let jfn = jf.len();
            let mut lines: Vec<u64> = Vec::new();
            let mut i: usize = 0;
            while i < jfn
                invariant
                    jfn == jf@.len(),
                    jfv == jf@.map_values(|j: CommentJson| j@),
                    i <= jfn,
                    lines@ == distinct_of(
                        jfv.map_values(|j: CommentJsonView| j.line).take(i as int),
                    ),
                decreases jfn - i,
            {
                let ghost lns = jfv.map_values(|j: CommentJsonView| j.line);
                let ghost pre = lines@;
                let l = jf[i].line;
                proof {
                    assert(lns[i as int] == jfv[i as int].line);
                    assert(jfv[i as int] == jf@[i as int]@);
                    assert(lns.take(i + 1).drop_last() =~= lns.take(i as int));
                    assert(lns.take(i + 1).last() == lns[i as int]);
                }
                let found = vec_contains_u64(&lines, l);
                if !found {
                    lines.push(l);
                }
                i = i + 1;
            }
            let ghost linesv = distinct_of(jfv.map_values(|j: CommentJsonView| j.line));
            proof {
                assert(jfv.map_values(|j: CommentJsonView| j.line).take(jfn as int) =~= jfv
                    .map_values(|j: CommentJsonView| j.line));
                assert(lines@ == linesv);
            }

            // One group per line.
            let lm = lines.len();
            let mut groups: Vec<LineCommentsJson> = Vec::new();
            let mut m: usize = 0;
            while m < lm
                invariant
                    lm == lines@.len(),
                    linesv == lines@,
                    jfn == jf@.len(),
                    jfv == jf@.map_values(|j: CommentJson| j@),
                    filesv == files@.map_values(|f2: String| f2@),
                    fm == files@.len(),
                    k < fm,
                    f == files@[k as int],
                    m <= lm,
                    groups@.len() == m,
                    forall|q: int|
                        0 <= q < m ==> #[trigger] groups@[q]@ == line_group_of(
                            jfv,
                            f@,
                            linesv[q],
                        ),
                decreases lm - m,
            {
                let l = lines[m];
                let mut members: Vec<CommentJson> = Vec::new();
                let mut i: usize = 0;
                while i < jfn
                    invariant
                        jfn == jf@.len(),
                        jfv == jf@.map_values(|j: CommentJson| j@),
                        i <= jfn,
                        members@.map_values(|j: CommentJson| j@) == jsons_for_line(
                            jfv.take(i as int),
                            l,
                        ),
                    decreases jfn - i,
                {
                    let ghost pre = members@.map_values(|j: CommentJson| j@);
                    proof {
                        assert(jfv[i as int] == jf@[i as int]@);
                        assert(jfv.take(i + 1).drop_last() =~= jfv.take(i as int));
                        assert(jfv.take(i + 1).last() == jfv[i as int]);
                    }
                    if jf[i].line == l {
                        members.push(clone_json(&jf[i]));
                        proof {
                            assert(members@.map_values(|j: CommentJson| j@) =~= pre.push(
                                jfv[i as int],
                            ));
                        }
                    }
                    i = i + 1;
                }
                proof {
                    assert(jfv.take(jfn as int) =~= jfv);
                }
                let group = LineCommentsJson {
                    line: l,
                    file_name: f.clone(),
                    file_line_comments: members,
                };
                let ghost prevg = groups@;
                groups.push(group);
                proof {
                    assert(groups@[m as int]@ == line_group_of(jfv, f@, linesv[m as int]));
                    assert forall|q: int| 0 <= q < m + 1 implies #[trigger] groups@[q]@
                        == line_group_of(jfv, f@, linesv[q]) by {
                        if q < m {
                            assert(groups@[q] == prevg[q]);
                        }
                    }
                }
                m = m + 1;
            }

            let record = FileCommentsJson { file_name: f.clone(), file_comments: groups };
            let ghost prevo = out@;
            proof {
                assert(record@.file_comments =~= Seq::new(
                    linesv.len(),
                    |q: int| line_group_of(jfv, f@, linesv[q]),
                ));
                assert(record@ == file_group_of(jsv, filesv[k as int]));
            }
            out.push(record);
            proof {
                assert forall|q: int| 0 <= q < k + 1 implies #[trigger] out@[q]@ == file_group_of(
                    jsv,
                    filesv[q],
                ) by {
                    if q < k {
                        assert(out@[q] == prevo[q]);
                    }
                }
            }
            k = k + 1;
        }
        proof {
            assert(out@.map_values(|f: FileCommentsJson| f@) =~= grouped_spec(cv, av));
        }
        out
    }
}

} // verus!
