//! Unix paths as texts: their parts, parent and file name.
use vstd::prelude::*;

use crate::text::{chars_of, text_eq, text_of};

verus! {

/// The length of the root: one for a path that starts with a slash.
pub open spec fn root_len(s: Seq<char>) -> int {
    if s.len() > 0 && s[0] == '/' {
        1
    } else {
        0
    }
}

/// Where the stretch without a slash that ends at `end` starts.
pub open spec fn segment_start(s: Seq<char>, end: int) -> int
    decreases end,
{
    if end <= 0 || s[end - 1] == '/' {
        end
    } else {
        segment_start(s, end - 1)
    }
}

pub proof fn lemma_segment_start(s: Seq<char>, end: int)
    requires
        0 <= end <= s.len(),
    ensures
        0 <= segment_start(s, end) <= end,
        root_len(s) <= end ==> root_len(s) <= segment_start(s, end),
        segment_start(s, end) > 0 ==> s[segment_start(s, end) - 1] == '/',
    decreases end,
{
    if end > 0 && s[end - 1] != '/' {
        lemma_segment_start(s, end - 1);
    }
}

/// The last part of a path among its first `end` characters: where it starts
/// and ends. Slashes separate parts, repeated ones as a single one; a part
/// `.` counts only at the very start of a path.
pub open spec fn last_part(s: Seq<char>, end: int) -> Option<(int, int)>
    decreases end,
    when 0 <= end <= s.len()
    via last_part_decreases
{
    if end <= root_len(s) {
        None
    } else {
        let start = segment_start(s, end);
        if start == end {
            last_part(s, end - 1)
        } else if start > 0 && s.subrange(start, end) == "."@ {
            last_part(s, start - 1)
        } else {
            Some((start, end))
        }
    }
}

#[via_fn]
proof fn last_part_decreases(s: Seq<char>, end: int) {
    lemma_segment_start(s, end);
}

pub proof fn lemma_last_part(s: Seq<char>, end: int)
    requires
        0 <= end <= s.len(),
    ensures
        last_part(s, end) matches Some((b, e)) ==> 0 <= b < e <= end,
    decreases end,
{
    lemma_segment_start(s, end);
    if end > root_len(s) {
        let start = segment_start(s, end);
        if start == end {
            lemma_last_part(s, end - 1);
        } else if start > 0 {
            lemma_last_part(s, start - 1);
        }
    }
}

/// The parts of the first `end` characters of a path.
pub open spec fn parts(s: Seq<char>, end: int) -> Seq<Seq<char>>
    decreases end,
    when 0 <= end <= s.len()
    via parts_decreases
{
    match last_part(s, end) {
        Some((b, e)) => parts(s, b).push(s.subrange(b, e)),
        None => Seq::empty(),
    }
}

#[via_fn]
proof fn parts_decreases(s: Seq<char>, end: int) {
    lemma_last_part(s, end);
}

/// Whether two paths have the same root and the same parts.
pub open spec fn same_path(a: Seq<char>, b: Seq<char>) -> bool {
    root_len(a) == root_len(b) && parts(a, a.len() as int) == parts(b, b.len() as int)
}

/// The last part of a path, unless it is `.` or `..`.
pub open spec fn file_name(s: Seq<char>) -> Option<Seq<char>> {
    match last_part(s, s.len() as int) {
        Some((b, e)) => if s.subrange(b, e) == "."@ || s.subrange(b, e) == ".."@ {
            None
        } else {
            Some(s.subrange(b, e))
        },
        None => None,
    }
}

/// A path without its last part.
pub open spec fn parent(s: Seq<char>) -> Option<Seq<char>> {
    match last_part(s, s.len() as int) {
        Some((b, _)) => match last_part(s, b) {
            Some((_, e)) => Some(s.take(e)),
            None => Some(s.take(root_len(s))),
        },
        None => None,
    }
}

fn root_length(s: &Vec<char>) -> (r: usize)
    ensures
        r == root_len(s@),
{
    if s.len() > 0 && s[0] == '/' {
        1
    } else {
        0
    }
}

fn start_of_segment(s: &Vec<char>, end: usize) -> (r: usize)
    requires
        end <= s.len(),
    ensures
        r == segment_start(s@, end as int),
{
    let mut i: usize = end;
    while i > 0 && s[i - 1] != '/'
        invariant
            i <= end <= s.len(),
            segment_start(s@, end as int) == segment_start(s@, i as int),
        decreases i,
    {
        i = i - 1;
    }
    i
}

/// Finds the last part among the first `end` characters.
fn find_last_part(s: &Vec<char>, end: usize) -> (r: Option<(usize, usize)>)
    requires
        end <= s.len(),
    ensures
        match (r, last_part(s@, end as int)) {
            (Some((a, b)), Some((c, d))) => a == c && b == d,
            (None, None) => true,
            _ => false,
        },
        r matches Some((a, b)) ==> a < b <= end,
{
    let root: usize = root_length(s);
    let mut at: usize = end;
    proof {
        lemma_last_part(s@, end as int);
    }
    while at > root
        invariant
            at <= end <= s.len(),
            root == root_len(s@),
            last_part(s@, end as int) == last_part(s@, at as int),
            last_part(s@, end as int) matches Some((b, e)) ==> 0 <= b < e <= end,
        decreases at,
    {
        proof {
            lemma_segment_start(s@, at as int);
        }
        let start: usize = start_of_segment(s, at);
        if start == at {
            at = at - 1;
        } else {
            let part = text_of(s, start, at);
            if start > 0 && text_eq(part.as_str(), ".") {
                at = start - 1;
            } else {
                return Some((start, at));
            }
        }
    }
    None
}

/// The last part of a path, unless it is `.` or `..`.
pub fn name_of_file(path: &str) -> (r: Option<String>)
    ensures
        match (r, file_name(path@)) {
            (Some(n), Some(m)) => n@ == m,
            (None, None) => true,
            _ => false,
        },
{
    let s: Vec<char> = chars_of(path);
    match find_last_part(&s, s.len()) {
        Some((b, e)) => {
            let part = text_of(&s, b, e);
            if text_eq(part.as_str(), ".") || text_eq(part.as_str(), "..") {
                None
            } else {
                Some(part)
            }
        },
        None => None,
    }
}

/// A path without its last part.
pub fn parent_of(path: &str) -> (r: Option<String>)
    ensures
        match (r, parent(path@)) {
            (Some(n), Some(m)) => n@ == m,
            (None, None) => true,
            _ => false,
        },
{
    let s: Vec<char> = chars_of(path);
    match find_last_part(&s, s.len()) {
        Some((b, _)) => {
            let end: usize = match find_last_part(&s, b) {
                Some((_, e)) => e,
                None => root_length(&s),
            };
            assert(s@.subrange(0, end as int) =~= s@.take(end as int));
            Some(text_of(&s, 0, end))
        },
        None => None,
    }
}

/// Whether two paths have the same root and the same parts.
pub fn paths_agree(a: &str, b: &str) -> (r: bool)
    ensures
        r == same_path(a@, b@),
{
    let s: Vec<char> = chars_of(a);
    let t: Vec<char> = chars_of(b);
    if root_length(&s) != root_length(&t) {
        return false;
    }
    let mut i: usize = s.len();
    let mut j: usize = t.len();
    let ghost after: Seq<Seq<char>> = Seq::empty();
    assert(parts(s@, i as int) + after =~= parts(s@, i as int));
    assert(parts(t@, j as int) + after =~= parts(t@, j as int));
    loop
        invariant
            i <= s.len(),
            j <= t.len(),
            parts(s@, s.len() as int) == parts(s@, i as int) + after,
            parts(t@, t.len() as int) == parts(t@, j as int) + after,
            s@ == a@,
            t@ == b@,
            root_len(s@) == root_len(t@),
        decreases i,
    {
        match (find_last_part(&s, i), find_last_part(&t, j)) {
            (Some((b1, e1)), Some((b2, e2))) => {
                let p = text_of(&s, b1, e1);
                let q = text_of(&t, b2, e2);
                let ghost ps = parts(s@, b1 as int);
                let ghost pt = parts(t@, b2 as int);
                assert(parts(s@, s.len() as int) == ps.push(p@) + after);
                assert(parts(t@, t.len() as int) == pt.push(q@) + after);
                if !text_eq(p.as_str(), q.as_str()) {
                    proof {
                        let x = parts(s@, s.len() as int);
                        let y = parts(t@, t.len() as int);
                        if x == y {
                            assert(x[x.len() - after.len() - 1] == p@);
                            assert(y[y.len() - after.len() - 1] == q@);
                        }
                    }
                    return false;
                }
                assert(ps.push(p@) + after =~= ps + (Seq::empty().push(p@) + after));
                assert(pt.push(q@) + after =~= pt + (Seq::empty().push(p@) + after));
                proof {
                    after = Seq::empty().push(p@) + after;
                }
                i = b1;
                j = b2;
            },
            (None, None) => {
                return true;
            },
            (Some((b1, e1)), None) => {
                assert(parts(s@, i as int).len() > 0);
                assert(parts(t@, j as int).len() == 0);
                assert(parts(s@, s.len() as int).len() > parts(t@, t.len() as int).len());
                return false;
            },
            (None, Some((b2, e2))) => {
                assert(parts(t@, j as int).len() > 0);
                assert(parts(s@, i as int).len() == 0);
                assert(parts(t@, t.len() as int).len() > parts(s@, s.len() as int).len());
                return false;
            },
        }
    }
}

/// The checkout that owns a shared git directory: its parent, where it is
/// named `.git`.
pub open spec fn owner(git_common_dir: Option<Seq<char>>) -> Option<Seq<char>> {
    match git_common_dir {
        Some(dir) => if file_name(dir) == Some(".git"@) {
            parent(dir)
        } else {
            None
        },
        None => None,
    }
}

/// The path under which a checkout counts: that of the checkout that owns its
/// git directory, or its own where it owns the directory itself or has none.
pub open spec fn main_path(own_path: Seq<char>, git_common_dir: Option<Seq<char>>) -> Seq<char> {
    match owner(git_common_dir) {
        Some(o) => if same_path(o, own_path) {
            own_path
        } else {
            o
        },
        None => own_path,
    }
}

/// The name of a project at a path.
pub open spec fn project_name(path: Seq<char>) -> Seq<char> {
    match file_name(path) {
        Some(n) => n,
        None => path,
    }
}

/// The path and the name under which a checkout counts, so that all worktrees
/// of one repository count as one project.
pub fn project_main_path_name(own_path: &str, git_common_dir: Option<&str>) -> (r: (
    String,
    String,
))
    ensures
        r.0@ == main_path(own_path@, crate::statement::opt_str(git_common_dir)),
        r.1@ == project_name(r.0@),
{
    let mut main = String::from_str(own_path);
    if let Some(dir) = git_common_dir {
        let named_git: bool = match name_of_file(dir) {
            Some(n) => text_eq(n.as_str(), ".git"),
            None => false,
        };
        if named_git {
            if let Some(o) = parent_of(dir) {
                if !paths_agree(o.as_str(), own_path) {
                    main = o;
                }
            }
        }
    }
    let name = match name_of_file(main.as_str()) {
        Some(n) => n,
        None => String::from_str(main.as_str()),
    };
    (main, name)
}

/// All worktrees that share a git directory named `.git` count under the same
/// path, up to spelling: that of the checkout that owns it.
pub proof fn law_worktrees_share_their_main(a: Seq<char>, b: Seq<char>, dir: Seq<char>)
    requires
        owner(Some(dir)) is Some,
    ensures
        same_path(main_path(a, Some(dir)), main_path(b, Some(dir))),
{
}

/// A checkout without a shared git directory keeps its own path.
pub proof fn law_plain_directory_keeps_its_path(own_path: Seq<char>)
    ensures
        main_path(own_path, None) == own_path,
{
}

} // verus!
