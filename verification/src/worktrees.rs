//! Which project stands for a group of worktrees of one repository.
use vstd::prelude::*;
use vstd::utf8::encode_utf8;

use crate::statement::opt_text;
use crate::text::{
    chars_of, comes_before, lemma_text_order, lemma_text_transitive, text_eq, text_less, text_of,
};

verus! {

/// A text without the slashes at its end.
pub open spec fn without_end_slashes(s: Seq<char>) -> Seq<char>
    decreases s.len(),
{
    if s.len() > 0 && s.last() == '/' {
        without_end_slashes(s.drop_last())
    } else {
        s
    }
}

/// What follows the last slash of a text.
pub open spec fn after_last_slash(s: Seq<char>) -> Seq<char>
    decreases s.len(),
{
    if s.len() == 0 || s.last() == '/' {
        Seq::empty()
    } else {
        after_last_slash(s.drop_last()).push(s.last())
    }
}

/// The name of a directory.
pub open spec fn basename(path: Seq<char>) -> Seq<char> {
    after_last_slash(without_end_slashes(path))
}

/// The name of a directory.
pub fn directory_name(path: &str) -> (r: String)
    ensures
        r@ == basename(path@),
{
    let chars: Vec<char> = chars_of(path);
    let mut end: usize = chars.len();
    assert(path@.take(end as int) =~= path@);
    while end > 0 && chars[end - 1] == '/'
        invariant
            end <= chars.len(),
            chars@ == path@,
            without_end_slashes(path@.take(end as int)) == without_end_slashes(path@),
        decreases end,
    {
        assert(path@.take(end as int).drop_last() =~= path@.take(end - 1));
        end = end - 1;
    }
    let ghost s = path@.take(end as int);
    assert(without_end_slashes(path@) == s);
    let mut start: usize = end;
    assert(s.take(end as int) =~= s);
    assert(s.skip(end as int) =~= Seq::<char>::empty());
    while start > 0 && chars[start - 1] != '/'
        invariant
            start <= end <= chars.len(),
            chars@ == path@,
            s == path@.take(end as int),
            after_last_slash(s) == after_last_slash(s.take(start as int)) + s.skip(start as int),
        decreases start,
    {
        let ghost t = s.take(start as int);
        assert(t.drop_last() =~= s.take(start - 1));
        assert(t.last() == chars@[start - 1]);
        assert(after_last_slash(t) + s.skip(start as int) =~= after_last_slash(
            s.take(start - 1),
        ) + s.skip(start - 1));
        start = start - 1;
    }
    assert(after_last_slash(s.take(start as int)) =~= Seq::<char>::empty());
    assert(s.skip(start as int) =~= chars@.subrange(start as int, end as int));
    assert(after_last_slash(s) =~= s.skip(start as int));
    text_of(&chars, start, end)
}

/// The rank of a directory name within its group: its length in bytes, then
/// the name itself.
pub fn worktree_basename_rank(basename: &str) -> (r: (usize, &str))
    ensures
        r.0 == encode_utf8(basename@).len(),
        r.1@ == basename@,
{
    (basename.as_bytes().len(), basename)
}

/// A project with the git data that ties worktrees together.
pub struct CheckoutView {
    pub id: i32,
    pub path: Seq<char>,
    pub git_common_dir: Option<Seq<char>>,
    pub git_root_commits: Option<Seq<char>>,
}

/// The projects of a list of rows: id, path, shared git directory and root
/// commits.
pub open spec fn checkouts(
    rows: Seq<(i32, String, Option<String>, Option<String>)>,
) -> Seq<CheckoutView> {
    rows.map_values(
        |r: (i32, String, Option<String>, Option<String>)|
            CheckoutView {
                id: r.0,
                path: r.1@,
                git_common_dir: opt_text(r.2),
                git_root_commits: opt_text(r.3),
            },
    )
}

impl CheckoutView {
    /// Whether the project belongs to a group: a project without any git data
    /// stands alone.
    pub open spec fn grouped(self) -> bool {
        self.git_common_dir is Some || self.git_root_commits is Some
    }

    /// Whether two projects belong to the same group: they share the git
    /// directory or, where neither has one, the root commits.
    pub open spec fn sibling(self, other: CheckoutView) -> bool {
        match (self.git_common_dir, other.git_common_dir) {
            (Some(a), Some(b)) => a == b,
            (None, None) => self.git_root_commits is Some && self.git_root_commits
                == other.git_root_commits,
            _ => false,
        }
    }
}

/// Whether a project with one name and id goes before one with another: the
/// shorter name, then the smaller name, then the smaller id.
pub open spec fn ranks_before(a: Seq<char>, a_id: i32, b: Seq<char>, b_id: i32) -> bool {
    if encode_utf8(a).len() != encode_utf8(b).len() {
        encode_utf8(a).len() < encode_utf8(b).len()
    } else if a != b {
        text_less(a, b)
    } else {
        a_id < b_id
    }
}

/// Whether row `i` goes before row `j`; of two rows that rank alike, the
/// earlier.
pub open spec fn beats(c: Seq<CheckoutView>, i: int, j: int) -> bool {
    let a = basename(c[i].path);
    let b = basename(c[j].path);
    ||| ranks_before(a, c[i].id, b, c[j].id)
    ||| a == b && c[i].id == c[j].id && i < j
}

/// Whether row `i` is the main project of its group: no sibling goes before
/// it.
pub open spec fn is_main(c: Seq<CheckoutView>, i: int) -> bool {
    forall|j: int| 0 <= j < c.len() && #[trigger] c[j].sibling(c[i]) ==> !beats(c, j, i)
}

/// The ids of the main projects among the first `n` rows, in row order.
pub open spec fn main_ids(c: Seq<CheckoutView>, n: int) -> Seq<i32>
    decreases n,
{
    if n <= 0 {
        Seq::empty()
    } else if is_main(c, n - 1) {
        main_ids(c, n - 1).push(c[n - 1].id)
    } else {
        main_ids(c, n - 1)
    }
}

/// Whether no number is above the next.
pub open spec fn ascending(s: Seq<i32>) -> bool {
    forall|i: int, j: int| 0 <= i <= j < s.len() ==> s[i] <= s[j]
}

/// Inserts a number into an ascending list.
fn insert_ascending(v: &mut Vec<i32>, x: i32)
    requires
        ascending(old(v)@),
    ensures
        ascending(final(v)@),
        final(v)@.to_multiset() == old(v)@.to_multiset().insert(x),
{
    let mut p: usize = 0;
    while p < v.len() && v[p] <= x
        invariant
            p <= v.len(),
            ascending(v@),
            forall|i: int| 0 <= i < p ==> v@[i] <= x,
        decreases v.len() - p,
    {
        p = p + 1;
    }
    let ghost before = v@;
    v.insert(p, x);
    proof {
        broadcast use vstd::seq_lib::group_to_multiset_ensures;

        assert(v@.remove(p as int) =~= before);
        assert(v@.contains(x)) by {
            assert(v@[p as int] == x);
        }
        assert(v@.to_multiset() =~= before.to_multiset().insert(x));
    }
}

fn same_text(a: &Option<String>, b: &Option<String>) -> (r: bool)
    ensures
        r == (opt_text(*a) is Some && opt_text(*a) == opt_text(*b)),
{
    match (a, b) {
        (Some(x), Some(y)) => text_eq(x.as_str(), y.as_str()),
        _ => false,
    }
}

fn goes_before(a: &str, a_id: i32, b: &str, b_id: i32) -> (r: bool)
    ensures
        r == ranks_before(a@, a_id, b@, b_id),
{
    let x = worktree_basename_rank(a);
    let y = worktree_basename_rank(b);
    if x.0 != y.0 {
        x.0 < y.0
    } else if !text_eq(x.1, y.1) {
        comes_before(x.1, y.1)
    } else {
        a_id < b_id
    }
}

/// The ids of the main projects: each project without git data, and of each
/// group the one with the shortest name, in ascending order.
pub fn pick_main_worktree_ids(rows: &[(i32, String, Option<String>, Option<String>)]) -> (r: Vec<
    i32,
>)
    ensures
        ascending(r@),
        r@.to_multiset() == main_ids(checkouts(rows@), rows.len() as int).to_multiset(),
{
    let ghost c = checkouts(rows@);
    let mut names: Vec<String> = Vec::new();
    let mut k: usize = 0;
    while k < rows.len()
        invariant
            k <= rows.len(),
            c == checkouts(rows@),
            names.len() == k,
            forall|j: int| 0 <= j < k ==> (#[trigger] names@[j])@ == basename(c[j].path),
        decreases rows.len() - k,
    {
        names.push(directory_name(rows[k].1.as_str()));
        k = k + 1;
    }
    let mut out: Vec<i32> = Vec::new();
    let mut i: usize = 0;
    while i < rows.len()
        invariant
            i <= rows.len(),
            c == checkouts(rows@),
            names.len() == rows.len(),
            forall|j: int| 0 <= j < names.len() ==> (#[trigger] names@[j])@ == basename(c[j].path),
            ascending(out@),
            out@.to_multiset() == main_ids(c, i as int).to_multiset(),
        decreases rows.len() - i,
    {
        let mut main: bool = true;
        if rows[i].2.is_some() || rows[i].3.is_some() {
            let mut j: usize = 0;
            while j < rows.len()
                invariant
                    i < rows.len(),
                    j <= rows.len(),
                    c == checkouts(rows@),
                    c[i as int].grouped(),
                    names.len() == rows.len(),
                    forall|j: int|
                        0 <= j < names.len() ==> (#[trigger] names@[j])@ == basename(c[j].path),
                    main == (forall|m: int|
                        0 <= m < j && #[trigger] c[m].sibling(c[i as int]) ==> !beats(
                            c,
                            m,
                            i as int,
                        )),
                decreases rows.len() - j,
            {
                let sibling: bool = same_text(&rows[j].2, &rows[i].2) || (rows[j].2.is_none()
                    && rows[i].2.is_none() && same_text(&rows[j].3, &rows[i].3));
                assert(sibling == c[j as int].sibling(c[i as int]));
                if sibling {
                    let before: bool = goes_before(
                        names[j].as_str(),
                        rows[j].0,
                        names[i].as_str(),
                        rows[i].0,
                    ) || (text_eq(names[j].as_str(), names[i].as_str()) && rows[j].0 == rows[i].0
                        && j < i);
                    assert(before == beats(c, j as int, i as int));
                    if before {
                        main = false;
                    }
                }
                j = j + 1;
            }
        } else {
            assert(forall|m: int|
                0 <= m < c.len() ==> !(#[trigger] c[m].sibling(c[i as int])));
        }
        assert(main == is_main(c, i as int));
        if main {
            insert_ascending(&mut out, rows[i].0);
            proof {
                broadcast use vstd::seq_lib::group_to_multiset_ensures;

                assert(main_ids(c, i + 1) == main_ids(c, i as int).push(c[i as int].id));
            }
        }
        i = i + 1;
    }
    out
}

proof fn lemma_beats_is_an_order(c: Seq<CheckoutView>, i: int, j: int, k: int)
    ensures
        i == j || beats(c, i, j) || beats(c, j, i),
        !(beats(c, i, j) && beats(c, j, i)),
        beats(c, i, j) && beats(c, j, k) ==> beats(c, i, k),
{
    let x = basename(c[i].path);
    let y = basename(c[j].path);
    let z = basename(c[k].path);
    lemma_text_order(x, y);
    lemma_text_order(y, z);
    lemma_text_order(x, z);
    if text_less(x, y) && text_less(y, z) {
        lemma_text_transitive(x, y, z);
    }
}

proof fn lemma_best(c: Seq<CheckoutView>, i: int, n: int) -> (best: int)
    requires
        0 <= i < n <= c.len(),
        c[i].grouped(),
    ensures
        0 <= best < n,
        c[best].sibling(c[i]),
        forall|j: int| 0 <= j < n && #[trigger] c[j].sibling(c[i]) ==> !beats(c, j, best),
    decreases n - i,
{
    if n == i + 1 {
        lemma_best_before(c, i, i)
    } else {
        let b = lemma_best(c, i, n - 1);
        if c[n - 1].sibling(c[i]) && beats(c, n - 1, b) {
            assert forall|j: int| 0 <= j < n && #[trigger] c[j].sibling(c[i]) implies !beats(
                c,
                j,
                n - 1,
            ) by {
                lemma_beats_is_an_order(c, j, n - 1, b);
                lemma_beats_is_an_order(c, n - 1, n - 1, b);
            }
            n - 1
        } else {
            b
        }
    }
}

/// The best of row `i` and its siblings among the first `n` rows before it.
proof fn lemma_best_before(c: Seq<CheckoutView>, i: int, n: int) -> (best: int)
    requires
        0 <= n <= i < c.len(),
        c[i].grouped(),
    ensures
        0 <= best <= i,
        c[best].sibling(c[i]),
        forall|j: int|
            (0 <= j < n || j == i) && #[trigger] c[j].sibling(c[i]) ==> !beats(c, j, best),
    decreases n,
{
    if n == 0 {
        lemma_beats_is_an_order(c, i, i, i);
        i
    } else {
        let b = lemma_best_before(c, i, n - 1);
        if c[n - 1].sibling(c[i]) && beats(c, n - 1, b) {
            assert forall|j: int|
                (0 <= j < n || j == i) && #[trigger] c[j].sibling(c[i]) implies !beats(
                c,
                j,
                n - 1,
            ) by {
                lemma_beats_is_an_order(c, j, n - 1, b);
                lemma_beats_is_an_order(c, n - 1, n - 1, b);
            }
            n - 1
        } else {
            b
        }
    }
}

/// Each group has a main project, and only one.
pub proof fn law_each_group_has_one_main(c: Seq<CheckoutView>, i: int)
    requires
        0 <= i < c.len(),
        c[i].grouped(),
    ensures
        exists|m: int| 0 <= m < c.len() && #[trigger] c[m].sibling(c[i]) && is_main(c, m),
        forall|m: int, n: int|
            0 <= m < c.len() && 0 <= n < c.len() && #[trigger] c[m].sibling(c[i])
                && #[trigger] c[n].sibling(c[i]) && is_main(c, m) && is_main(c, n) ==> m == n,
{
    let best = lemma_best(c, i, c.len() as int);
    assert(is_main(c, best)) by {
        assert forall|j: int| 0 <= j < c.len() && #[trigger] c[j].sibling(c[best]) implies !beats(
            c,
            j,
            best,
        ) by {
            assert(c[j].sibling(c[i]));
        }
    }
    assert forall|m: int, n: int|
        0 <= m < c.len() && 0 <= n < c.len() && #[trigger] c[m].sibling(c[i])
            && #[trigger] c[n].sibling(c[i]) && is_main(c, m) && is_main(c, n) implies m == n by {
        lemma_beats_is_an_order(c, m, n, n);
        assert(c[m].sibling(c[n]));
        assert(c[n].sibling(c[m]));
    }
}

/// Sharing the git directory is enough to be siblings, whatever the root
/// commits; these tie projects together only where neither has a directory.
pub proof fn law_git_directory_decides(a: CheckoutView, b: CheckoutView)
    ensures
        a.git_common_dir is Some ==> (a.sibling(b) <==> a.git_common_dir == b.git_common_dir),
        a.git_common_dir is None && a.git_root_commits is Some ==> (a.sibling(b) <==> (
        b.git_common_dir is None && a.git_root_commits == b.git_root_commits)),
        a.sibling(b) <==> b.sibling(a),
{
}

/// A project without git data is always a main project.
pub proof fn law_single_project_is_main(c: Seq<CheckoutView>, i: int)
    requires
        0 <= i < c.len(),
        !c[i].grouped(),
    ensures
        is_main(c, i),
{
}

/// The main checkout of a group has the shortest name of all, and of those with
/// that name the lowest id.
pub proof fn law_main_has_the_shortest_name(c: Seq<CheckoutView>, m: int, j: int)
    requires
        0 <= m < c.len(),
        0 <= j < c.len(),
        c[j].sibling(c[m]),
        is_main(c, m),
    ensures
        encode_utf8(basename(c[m].path)).len() <= encode_utf8(basename(c[j].path)).len(),
        basename(c[m].path) == basename(c[j].path) ==> c[m].id <= c[j].id,
{
    assert(!beats(c, j, m));
}

} // verus!
