//! Work on what the unified graph returns: pruning of near-duplicate paths,
//! and the numbering of nodes and links for ranking by diffusion.
use vstd::hash_map::StringHashMap;
use vstd::prelude::*;

use crate::limits::{clamp, clamped};
use crate::statement::texts;

verus! {

/// The distinct texts of a list, in the order of their first appearance.
pub open spec fn distinct(s: Seq<Seq<char>>) -> Seq<Seq<char>>
    decreases s.len(),
{
    if s.len() == 0 {
        Seq::empty()
    } else {
        let before = distinct(s.drop_last());
        if before.contains(s.last()) {
            before
        } else {
            before.push(s.last())
        }
    }
}

/// What `distinct` keeps: every text of the list, each once.
pub proof fn law_distinct(s: Seq<Seq<char>>)
    ensures
        distinct(s).no_duplicates(),
        forall|t: Seq<char>| #[trigger] distinct(s).contains(t) <==> s.contains(t),
        distinct(s).len() <= s.len(),
    decreases s.len(),
{
    if s.len() > 0 {
        let p = s.drop_last();
        let before = distinct(p);
        law_distinct(p);
        assert forall|t: Seq<char>| #[trigger] distinct(s).contains(t) <==> s.contains(t) by {
            assert(s == p.push(s.last()));
            if s.contains(t) {
                let i = choose|i: int| 0 <= i < s.len() && s[i] == t;
                if i < p.len() {
                    assert(p[i] == t);
                    assert(p.contains(t));
                    assert(before.contains(t));
                }
                if before.contains(t) {
                    let j = choose|j: int| 0 <= j < before.len() && before[j] == t;
                    assert(distinct(s)[j] == t);
                } else {
                    assert(distinct(s)[before.len() as int] == t);
                }
            }
            if distinct(s).contains(t) {
                let j = choose|j: int| 0 <= j < distinct(s).len() && distinct(s)[j] == t;
                if j < before.len() {
                    assert(before.contains(t));
                    let i = choose|i: int| 0 <= i < p.len() && p[i] == t;
                    assert(s[i] == t);
                } else {
                    assert(s[s.len() - 1] == t);
                }
            }
        }
        assert forall|i: int, j: int|
            0 <= i < distinct(s).len() && 0 <= j < distinct(s).len() && i != j implies distinct(
            s,
        )[i] != distinct(s)[j] by {
            if !before.contains(s.last()) {
                if i == before.len() {
                    assert(before.contains(before[j]));
                } else if j == before.len() {
                    assert(before.contains(before[i]));
                }
            }
        }
    } else {
        assert forall|t: Seq<char>| #[trigger] distinct(s).contains(t) <==> s.contains(t) by {}
    }
}

/// Numbers the distinct texts of a growing list.
pub struct Numbering {
    pub names: Vec<String>,
    pub numbers: StringHashMap<usize>,
}

impl Numbering {
    /// Each name has its place as its number, and no text but the names has one.
    pub open spec fn wf(&self) -> bool {
        &&& texts(self.names@).no_duplicates()
        &&& forall|i: int|
            0 <= i < self.names.len() ==> self.numbers@.contains_key(#[trigger] self.names@[i]@)
                && self.numbers@[self.names@[i]@] == i
        &&& forall|t: Seq<char>| #[trigger]
            self.numbers@.contains_key(t) ==> texts(self.names@).contains(t)
    }

    pub fn new() -> (r: Numbering)
        ensures
            r.wf(),
            texts(r.names@) == Seq::<Seq<char>>::empty(),
    {
        let r = Numbering { names: Vec::new(), numbers: StringHashMap::new() };
        assert(texts(r.names@) =~= Seq::<Seq<char>>::empty());
        r
    }

    /// The number of a text that is in the list.
    pub fn number(&self, name: &str) -> (r: usize)
        requires
            self.wf(),
            texts(self.names@).contains(name@),
        ensures
            r < self.names.len(),
            self.names@[r as int]@ == name@,
    {
        let ghost i = choose|i: int|
            0 <= i < texts(self.names@).len() && texts(self.names@)[i] == name@;
        assert(self.names@[i]@ == name@);
        match self.numbers.get(name) {
            Some(n) => *n,
            None => 0,
        }
    }

    /// Takes up a text, unless it is in the list already.
    pub fn ensure(&mut self, name: &str)
        requires
            old(self).wf(),
        ensures
            final(self).wf(),
            texts(final(self).names@) == (if texts(old(self).names@).contains(name@) {
                texts(old(self).names@)
            } else {
                texts(old(self).names@).push(name@)
            }),
    {
        if self.numbers.contains_key(name) {
            return;
        }
        let ghost before = texts(self.names@);
        assert(!before.contains(name@)) by {
            if before.contains(name@) {
                let i = choose|i: int| 0 <= i < before.len() && before[i] == name@;
                assert(self.names@[i]@ == name@);
            }
        }
        let n: usize = self.names.len();
        self.numbers.insert(String::from_str(name), n);
        self.names.push(String::from_str(name));
        assert(texts(self.names@) =~= before.push(name@));
        assert forall|i: int, j: int|
            0 <= i < texts(self.names@).len() && 0 <= j < texts(self.names@).len() && i
                != j implies texts(self.names@)[i] != texts(self.names@)[j] by {
            if i == before.len() {
                assert(before.contains(before[j]));
            } else if j == before.len() {
                assert(before.contains(before[i]));
            }
        }
        assert forall|i: int| 0 <= i < self.names.len() implies self.numbers@.contains_key(
            #[trigger] self.names@[i]@,
        ) && self.numbers@[self.names@[i]@] == i by {
            if i < before.len() {
                assert(before[i] == old(self).names@[i]@);
                assert(before.contains(before[i]));
            }
        }
        assert forall|t: Seq<char>| #[trigger] self.numbers@.contains_key(t) implies texts(
            self.names@,
        ).contains(t) by {
            if t == name@ {
                assert(texts(self.names@)[before.len() as int] == t);
            } else {
                assert(old(self).numbers@.contains_key(t));
                let i = choose|i: int| 0 <= i < before.len() && before[i] == t;
                assert(texts(self.names@)[i] == t);
            }
        }
    }
}

/// How many nodes two paths share, and how many they have together.
#[derive(Debug, Clone, Copy, PartialEq, Eq, Structural)]
pub struct Overlap {
    pub common: u128,
    pub all: u128,
}

/// The distinct texts of a list of strings, in the order of their first
/// appearance.
fn distinct_names(v: &Vec<String>) -> (r: Numbering)
    ensures
        r.wf(),
        texts(r.names@) == distinct(texts(v@)),
{
    let mut r = Numbering::new();
    let mut i: usize = 0;
    assert(texts(v@).take(0) =~= Seq::<Seq<char>>::empty());
    while i < v.len()
        invariant
            i <= v.len(),
            r.wf(),
            texts(r.names@) == distinct(texts(v@).take(i as int)),
        decreases v.len() - i,
    {
        r.ensure(v[i].as_str());
        assert(texts(v@).take(i + 1).drop_last() =~= texts(v@).take(i as int));
        assert(texts(v@).take(i + 1).last() == v@[i as int]@);
        i = i + 1;
    }
    assert(texts(v@).take(i as int) =~= texts(v@));
    r
}

/// The number of texts of `s` that are in `t`.
pub open spec fn count_in(s: Seq<Seq<char>>, t: Seq<Seq<char>>) -> nat
    decreases s.len(),
{
    if s.len() == 0 {
        0
    } else {
        count_in(s.drop_last(), t) + if t.contains(s.last()) {
            1nat
        } else {
            0
        }
    }
}

proof fn lemma_count_in(s: Seq<Seq<char>>, t: Seq<Seq<char>>)
    requires
        s.no_duplicates(),
    ensures
        count_in(s, t) == s.to_set().intersect(t.to_set()).len(),
        s.to_set().union(t.to_set()).len() == t.to_set().len() + s.len() - count_in(s, t),
        count_in(s, t) <= s.len(),
    decreases s.len(),
{
    broadcast use vstd::set::group_set_axioms;

    vstd::seq_lib::seq_to_set_is_finite(t);
    vstd::seq_lib::seq_to_set_is_finite(s);
    if s.len() == 0 {
        assert(s.to_set() =~= Set::<Seq<char>>::empty());
        assert(s.to_set().intersect(t.to_set()) =~= Set::<Seq<char>>::empty());
        assert(s.to_set().union(t.to_set()) =~= t.to_set());
    } else {
        let p = s.drop_last();
        let x = s.last();
        lemma_count_in(p, t);
        assert(s.to_set() =~= p.to_set().insert(x)) by {
            assert(s == p.push(x));
            assert forall|y: Seq<char>| s.contains(y) implies p.contains(y) || y == x by {
                let i = choose|i: int| 0 <= i < s.len() && s[i] == y;
                if i < p.len() {
                    assert(p[i] == y);
                }
            }
            assert forall|y: Seq<char>| p.contains(y) implies s.contains(y) by {
                let i = choose|i: int| 0 <= i < p.len() && p[i] == y;
                assert(s[i] == y);
            }
            assert(s[s.len() - 1] == x);
        }
        assert(!p.to_set().contains(x));
        if t.contains(x) {
            assert(s.to_set().intersect(t.to_set()) =~= p.to_set().intersect(t.to_set()).insert(x));
            assert(s.to_set().union(t.to_set()) =~= p.to_set().union(t.to_set()));
        } else {
            assert(s.to_set().intersect(t.to_set()) =~= p.to_set().intersect(t.to_set()));
            assert(s.to_set().union(t.to_set()) =~= p.to_set().union(t.to_set()).insert(x));
        }
    }
}

proof fn lemma_distinct_set(s: Seq<Seq<char>>)
    ensures
        distinct(s).to_set() == s.to_set(),
{
    law_distinct(s);
    assert(distinct(s).to_set() =~= s.to_set());
}

/// How many nodes two paths share, and how many they have together.
pub fn node_overlap(p: &Vec<String>, q: &Vec<String>) -> (r: Overlap)
    ensures
        r.common == texts(p@).to_set().intersect(texts(q@).to_set()).len(),
        r.all == texts(p@).to_set().union(texts(q@).to_set()).len(),
{
    let a = distinct_names(p);
    let b = distinct_names(q);
    proof {
        law_distinct(texts(p@));
        law_distinct(texts(q@));
        lemma_distinct_set(texts(p@));
        lemma_distinct_set(texts(q@));
        lemma_count_in(texts(a.names@), texts(b.names@));
        texts(b.names@).unique_seq_to_set();
    }
    let mut common: usize = 0;
    let mut i: usize = 0;
    assert(texts(a.names@).take(0) =~= Seq::<Seq<char>>::empty());
    while i < a.names.len()
        invariant
            i <= a.names.len(),
            b.wf(),
            common <= i,
            common == count_in(texts(a.names@).take(i as int), texts(b.names@)),
        decreases a.names.len() - i,
    {
        let ghost t = texts(a.names@).take(i + 1);
        assert(t.drop_last() =~= texts(a.names@).take(i as int));
        assert(t.last() == a.names@[i as int]@);
        let known: bool = b.numbers.contains_key(a.names[i].as_str());
        assert(known <==> texts(b.names@).contains(a.names@[i as int]@)) by {
            if texts(b.names@).contains(a.names@[i as int]@) {
                let j = choose|j: int|
                    0 <= j < texts(b.names@).len() && texts(b.names@)[j] == a.names@[i as int]@;
                assert(b.names@[j]@ == a.names@[i as int]@);
            }
        }
        if known {
            common = common + 1;
        }
        i = i + 1;
    }
    assert(texts(a.names@).take(i as int) =~= texts(a.names@));
    Overlap {
        common: common as u128,
        all: b.names.len() as u128 + (a.names.len() - common) as u128,
    }
}

/// The paths that were kept, by their places in the ranking, and how many
/// were dropped as near-duplicates.
#[derive(Debug)]
pub struct Pruning {
    pub kept: Vec<usize>,
    pub pruned: usize,
}

/// Whether path `n` is too close to one of some paths.
pub open spec fn close_to_any(close: spec_fn(int, int) -> bool, n: int, kept: Seq<int>) -> bool {
    exists|j: int| 0 <= j < kept.len() && close(n, #[trigger] kept[j])
}

/// Greedy pruning of the first `n` paths of a ranking: a path that is close
/// to a kept one is dropped and counted, any other is kept, until `limit`
/// paths are kept.
pub open spec fn pruned_ranking(
    close: spec_fn(int, int) -> bool,
    n: nat,
    limit: int,
) -> (Seq<int>, int)
    decreases n,
{
    if n == 0 {
        (Seq::empty(), 0)
    } else {
        let (kept, pruned) = pruned_ranking(close, (n - 1) as nat, limit);
        if kept.len() >= limit {
            (kept, pruned)
        } else if close_to_any(close, n - 1, kept) {
            (kept, pruned + 1)
        } else {
            (kept.push(n - 1), pruned)
        }
    }
}

/// What pruning guarantees: the kept paths are in ranking order, no two of
/// them are close, there are at most `limit`, and unless the limit was
/// reached each path is either kept or counted as dropped.
pub proof fn law_pruning(close: spec_fn(int, int) -> bool, n: nat, limit: int)
    requires
        limit >= 1,
    ensures
        ({
            let (kept, pruned) = pruned_ranking(close, n, limit);
            &&& kept.len() <= limit
            &&& forall|i: int| 0 <= i < kept.len() ==> 0 <= #[trigger] kept[i] < n
            &&& forall|i: int, j: int|
                0 <= i < j < kept.len() ==> #[trigger] kept[i] < #[trigger] kept[j] && !close(
                    kept[j],
                    kept[i],
                )
            &&& 0 <= pruned
            &&& kept.len() + pruned <= n
            &&& kept.len() < limit ==> kept.len() + pruned == n
        }),
    decreases n,
{
    if n > 0 {
        law_pruning(close, (n - 1) as nat, limit);
    }
}

/// How many paths a path search returns at most.
pub open spec fn path_limit(k: i32) -> int {
    clamped(k as int, 1, 100)
}

/// The relation that a triangular table holds.
pub open spec fn table(close: Seq<Vec<bool>>) -> spec_fn(int, int) -> bool {
    |i: int, j: int| close[i]@[j]
}

/// Prunes a ranking of paths. Row `i` of the table says which of the paths
/// before path `i` it is close to.
pub fn prune_paths(close: &Vec<Vec<bool>>, k: i32) -> (r: Pruning)
    requires
        forall|i: int| 0 <= i < close.len() ==> (#[trigger] close@[i]).len() >= i,
    ensures
        (r.kept@.map_values(|n: usize| n as int), r.pruned as int) == pruned_ranking(
            table(close@),
            close.len() as nat,
            path_limit(k),
        ),
{
    let limit: usize = clamp(k, 1, 100) as usize;
    let mut kept: Vec<usize> = Vec::new();
    let mut pruned: usize = 0;
    let mut n: usize = 0;
    let ghost f = |n: usize| n as int;
    let ghost rel = table(close@);
    assert(kept@.map_values(f) =~= Seq::<int>::empty());
    while n < close.len()
        invariant
            n <= close.len(),
            1 <= limit,
            rel == table(close@),
            f == (|n: usize| n as int),
            forall|i: int| 0 <= i < close.len() ==> (#[trigger] close@[i]).len() >= i,
            (kept@.map_values(f), pruned as int) == pruned_ranking(rel, n as nat, limit as int),
        decreases close.len() - n,
    {
        proof {
            law_pruning(rel, n as nat, limit as int);
        }
        if kept.len() < limit {
            let mut close_one: bool = false;
            let mut j: usize = 0;
            while j < kept.len() && !close_one
                invariant
                    n < close.len(),
                    j <= kept.len(),
                    rel == table(close@),
                    f == (|n: usize| n as int),
                    close@[n as int].len() >= n,
                    forall|i: int|
                        0 <= i < kept.len() ==> 0 <= #[trigger] kept@.map_values(f)[i] < n,
                    close_one ==> close_to_any(rel, n as int, kept@.map_values(f)),
                    !close_one ==> forall|i: int|
                        0 <= i < j ==> !rel(n as int, #[trigger] kept@.map_values(f)[i]),
                decreases kept.len() - j + if close_one {
                    0int
                } else {
                    1
                },
            {
                assert(kept@.map_values(f)[j as int] == kept@[j as int]);
                if close[n][kept[j]] {
                    assert(rel(n as int, kept@.map_values(f)[j as int]));
                    close_one = true;
                } else {
                    j = j + 1;
                }
            }
            if close_one {
                pruned = pruned + 1;
            } else {
                kept.push(n);
                assert(kept@.map_values(f) =~= kept@.drop_last().map_values(f).push(n as int));
                assert(kept@.drop_last().push(n) =~= kept@);
            }
        }
        n = n + 1;
    }
    Pruning { kept, pruned }
}

/// An edge between two named nodes.
#[derive(Debug)]
pub struct NamedEdge {
    pub from: String,
    pub to: String,
}

impl View for NamedEdge {
    type V = (Seq<char>, Seq<char>);

    open spec fn view(&self) -> (Seq<char>, Seq<char>) {
        (self.from@, self.to@)
    }
}

/// The views of a list of edges.
pub open spec fn edge_views(edges: Seq<NamedEdge>) -> Seq<(Seq<char>, Seq<char>)> {
    edges.map_values(|e: NamedEdge| e@)
}

/// The nodes that edges mention, in order: both ends of each edge.
pub open spec fn endpoints(edges: Seq<(Seq<char>, Seq<char>)>) -> Seq<Seq<char>>
    decreases edges.len(),
{
    if edges.len() == 0 {
        Seq::empty()
    } else {
        endpoints(edges.drop_last()).push(edges.last().0).push(edges.last().1)
    }
}

/// The links of a node: for each edge that it is an end of, in order, the
/// other end and the number of the edge. A loop gives two links.
pub open spec fn links_of(
    nodes: Seq<Seq<char>>,
    edges: Seq<(Seq<char>, Seq<char>)>,
    u: Seq<char>,
) -> Seq<(int, int)>
    decreases edges.len(),
{
    if edges.len() == 0 {
        Seq::empty()
    } else {
        let before = links_of(nodes, edges.drop_last(), u);
        let e = edges.last();
        let n = edges.len() - 1;
        let one = if u == e.0 {
            before.push((nodes.index_of(e.1), n))
        } else {
            before
        };
        if u == e.1 {
            one.push((nodes.index_of(e.0), n))
        } else {
            one
        }
    }
}

/// A graph whose nodes are numbered.
#[derive(Debug)]
pub struct IndexedGraph {
    pub nodes: Vec<String>,
    /// For each node its links: the number of the other end, and that of the
    /// edge.
    pub links: Vec<Vec<(usize, usize)>>,
    /// The numbers of the seeds.
    pub seeds: Vec<usize>,
}

/// A link as numbers.
pub open spec fn link_views(links: Seq<(usize, usize)>) -> Seq<(int, int)> {
    links.map_values(|l: (usize, usize)| (l.0 as int, l.1 as int))
}

/// All nodes of a graph: the ends of its edges, then the seeds, each once.
pub open spec fn graph_nodes(
    edges: Seq<(Seq<char>, Seq<char>)>,
    seeds: Seq<Seq<char>>,
) -> Seq<Seq<char>> {
    distinct(endpoints(edges) + seeds)
}

proof fn lemma_endpoints(edges: Seq<(Seq<char>, Seq<char>)>, i: int)
    requires
        0 <= i < edges.len(),
    ensures
        endpoints(edges).contains(edges[i].0),
        endpoints(edges).contains(edges[i].1),
    decreases edges.len(),
{
    let p = edges.drop_last();
    let q = endpoints(p);
    if i == edges.len() - 1 {
        assert(endpoints(edges)[q.len() as int] == edges[i].0);
        assert(endpoints(edges)[(q.len() + 1) as int] == edges[i].1);
    } else {
        lemma_endpoints(p, i);
        assert(p[i] == edges[i]);
        let a = choose|a: int| 0 <= a < q.len() && q[a] == edges[i].0;
        assert(endpoints(edges)[a] == edges[i].0);
        let b = choose|b: int| 0 <= b < q.len() && q[b] == edges[i].1;
        assert(endpoints(edges)[b] == edges[i].1);
    }
}

/// Every end of an edge and every seed is a node of the graph.
pub proof fn law_graph_has_its_nodes(
    edges: Seq<(Seq<char>, Seq<char>)>,
    seeds: Seq<Seq<char>>,
)
    ensures
        graph_nodes(edges, seeds).no_duplicates(),
        forall|i: int|
            0 <= i < edges.len() ==> graph_nodes(edges, seeds).contains((#[trigger] edges[i]).0)
                && graph_nodes(edges, seeds).contains(edges[i].1),
        forall|i: int|
            0 <= i < seeds.len() ==> graph_nodes(edges, seeds).contains(#[trigger] seeds[i]),
{
    let all = endpoints(edges) + seeds;
    law_distinct(all);
    assert forall|i: int| 0 <= i < edges.len() implies graph_nodes(edges, seeds).contains(
        (#[trigger] edges[i]).0,
    ) && graph_nodes(edges, seeds).contains(edges[i].1) by {
        lemma_endpoints(edges, i);
        let q = endpoints(edges);
        let a = choose|a: int| 0 <= a < q.len() && q[a] == edges[i].0;
        assert(all[a] == edges[i].0);
        let b = choose|b: int| 0 <= b < q.len() && q[b] == edges[i].1;
        assert(all[b] == edges[i].1);
        assert(all.contains(edges[i].0));
        assert(all.contains(edges[i].1));
    }
    assert forall|i: int| 0 <= i < seeds.len() implies graph_nodes(edges, seeds).contains(
        #[trigger] seeds[i],
    ) by {
        assert(all[endpoints(edges).len() + i] == seeds[i]);
        assert(all.contains(seeds[i]));
    }
}

/// Links are mutual: where a node has a link to another, that one has a link
/// back, by the same edge.
pub proof fn law_links_are_mutual(
    nodes: Seq<Seq<char>>,
    edges: Seq<(Seq<char>, Seq<char>)>,
    u: Seq<char>,
    v: Seq<char>,
    n: int,
)
    requires
        nodes.no_duplicates(),
        nodes.contains(u),
        nodes.contains(v),
        forall|i: int|
            0 <= i < edges.len() ==> nodes.contains((#[trigger] edges[i]).0) && nodes.contains(
                edges[i].1,
            ),
        links_of(nodes, edges, u).contains((nodes.index_of(v), n)),
    ensures
        links_of(nodes, edges, v).contains((nodes.index_of(u), n)),
    decreases edges.len(),
{
    if edges.len() > 0 {
        let p = edges.drop_last();
        let e = edges.last();
        let here = links_of(nodes, edges, u);
        let back = links_of(nodes, edges, v);
        let before_u = links_of(nodes, p, u);
        let before_v = links_of(nodes, p, v);
        assert(nodes.contains(edges[edges.len() - 1].0));
        assert forall|i: int| 0 <= i < p.len() implies nodes.contains((#[trigger] p[i]).0)
            && nodes.contains(p[i].1) by {
            assert(p[i] == edges[i]);
        }
        let i = choose|i: int| 0 <= i < here.len() && here[i] == (nodes.index_of(v), n);
        if i < before_u.len() {
            assert(before_u[i] == (nodes.index_of(v), n));
            law_links_are_mutual(nodes, p, u, v, n);
            let j = choose|j: int|
                0 <= j < before_v.len() && before_v[j] == (nodes.index_of(u), n);
            assert(back[j] == (nodes.index_of(u), n));
        } else {
            assert(nodes[nodes.index_of(v)] == v);
            assert(nodes[nodes.index_of(e.0)] == e.0);
            assert(nodes[nodes.index_of(e.1)] == e.1);
            let k = before_v.len() as int;
            if u == e.0 && v == e.1 {
                if v == e.0 {
                    assert(back[k] == (nodes.index_of(e.1), n));
                } else {
                    assert(back[k] == (nodes.index_of(u), n));
                }
            } else {
                assert(u == e.1 && v == e.0);
                assert(back[k] == (nodes.index_of(u), n));
            }
        }
    }
}

/// Numbers the nodes of a graph, and lists the links of each and the numbers
/// of the seeds.
pub fn index_graph(edges: &Vec<NamedEdge>, seeds: &Vec<String>) -> (r: IndexedGraph)
    ensures
        texts(r.nodes@) == graph_nodes(edge_views(edges@), texts(seeds@)),
        r.links.len() == r.nodes.len(),
        forall|i: int|
            0 <= i < r.nodes.len() ==> link_views((#[trigger] r.links@[i])@) == links_of(
                texts(r.nodes@),
                edge_views(edges@),
                r.nodes@[i]@,
            ),
        r.seeds.len() == seeds.len(),
        forall|i: int|
            0 <= i < seeds.len() ==> (#[trigger] r.seeds@[i]) < r.nodes.len()
                && r.nodes@[r.seeds@[i] as int]@ == seeds@[i]@,
{
    let ghost ev = edge_views(edges@);
    let ghost st = texts(seeds@);
    let mut names = Numbering::new();
    let mut i: usize = 0;
    assert(ev.take(0) =~= Seq::<(Seq<char>, Seq<char>)>::empty());
    while i < edges.len()
        invariant
            i <= edges.len(),
            ev == edge_views(edges@),
            names.wf(),
            texts(names.names@) == distinct(endpoints(ev.take(i as int))),
        decreases edges.len() - i,
    {
        let ghost before = endpoints(ev.take(i as int));
        assert(ev.take(i + 1).drop_last() =~= ev.take(i as int));
        assert(ev.take(i + 1).last() == edges@[i as int]@);
        names.ensure(edges[i].from.as_str());
        assert(before.push(edges@[i as int].from@).drop_last() =~= before);
        assert(texts(names.names@) == distinct(before.push(edges@[i as int].from@)));
        names.ensure(edges[i].to.as_str());
        assert(endpoints(ev.take(i + 1)).drop_last() =~= before.push(edges@[i as int].from@));
        i = i + 1;
    }
    assert(ev.take(i as int) =~= ev);
    let mut s: usize = 0;
    assert(endpoints(ev) + st.take(0) =~= endpoints(ev));
    while s < seeds.len()
        invariant
            s <= seeds.len(),
            st == texts(seeds@),
            names.wf(),
            texts(names.names@) == distinct(endpoints(ev) + st.take(s as int)),
        decreases seeds.len() - s,
    {
        names.ensure(seeds[s].as_str());
        assert((endpoints(ev) + st.take(s + 1)).drop_last() =~= endpoints(ev) + st.take(
            s as int,
        ));
        assert((endpoints(ev) + st.take(s + 1)).last() == seeds@[s as int]@);
        s = s + 1;
    }
    assert(st.take(s as int) =~= st);
    proof {
        law_graph_has_its_nodes(ev, st);
    }
    let seed_numbers = number_seeds(&names, seeds);
    let links = link_nodes(&names, edges);
    IndexedGraph { nodes: names.names, links, seeds: seed_numbers }
}

fn number_seeds(names: &Numbering, seeds: &Vec<String>) -> (r: Vec<usize>)
    requires
        names.wf(),
        forall|i: int|
            0 <= i < seeds.len() ==> texts(names.names@).contains(#[trigger] texts(seeds@)[i]),
    ensures
        r.len() == seeds.len(),
        forall|i: int|
            0 <= i < seeds.len() ==> (#[trigger] r@[i]) < names.names.len()
                && names.names@[r@[i] as int]@ == seeds@[i]@,
{
    let mut r: Vec<usize> = Vec::new();
    let mut i: usize = 0;
    while i < seeds.len()
        invariant
            i <= seeds.len(),
            names.wf(),
            forall|i: int|
                0 <= i < seeds.len() ==> texts(names.names@).contains(
                    #[trigger] texts(seeds@)[i],
                ),
            r.len() == i,
            forall|j: int|
                0 <= j < i ==> (#[trigger] r@[j]) < names.names.len()
                    && names.names@[r@[j] as int]@ == seeds@[j]@,
        decreases seeds.len() - i,
    {
        assert(texts(seeds@)[i as int] == seeds@[i as int]@);
        r.push(names.number(seeds[i].as_str()));
        i = i + 1;
    }
    r
}

proof fn lemma_index(names: Seq<String>, n: int, t: Seq<char>)
    requires
        texts(names).no_duplicates(),
        0 <= n < names.len(),
        names[n]@ == t,
    ensures
        texts(names).index_of(t) == n,
{
    assert(texts(names)[n] == t);
    assert(texts(names).contains(t));
}

/// Appends a link to the list of one node.
fn add_link(links: &mut Vec<Vec<(usize, usize)>>, at: usize, link: (usize, usize))
    requires
        at < old(links).len(),
    ensures
        final(links).len() == old(links).len(),
        forall|i: int|
            0 <= i < final(links).len() ==> link_views((#[trigger] final(links)@[i])@) == (if i
                == at {
                link_views(old(links)@[i]@).push((link.0 as int, link.1 as int))
            } else {
                link_views(old(links)@[i]@)
            }),
{
    let mut row: Vec<(usize, usize)> = Vec::new();
    std::mem::swap(&mut row, &mut links[at]);
    let ghost before = row@;
    row.push(link);
    assert(link_views(row@) =~= link_views(before).push((link.0 as int, link.1 as int)));
    links.set(at, row);
}

fn link_nodes(names: &Numbering, edges: &Vec<NamedEdge>) -> (r: Vec<Vec<(usize, usize)>>)
    requires
        names.wf(),
        forall|i: int|
            0 <= i < edges.len() ==> texts(names.names@).contains(
                (#[trigger] edge_views(edges@)[i]).0,
            ) && texts(names.names@).contains(edge_views(edges@)[i].1),
    ensures
        r.len() == names.names.len(),
        forall|i: int|
            0 <= i < r.len() ==> link_views((#[trigger] r@[i])@) == links_of(
                texts(names.names@),
                edge_views(edges@),
                names.names@[i]@,
            ),
{
    let ghost ev = edge_views(edges@);
    let ghost ns = texts(names.names@);
    let mut r: Vec<Vec<(usize, usize)>> = Vec::new();
    let mut n: usize = 0;
    assert(ev.take(0) =~= Seq::<(Seq<char>, Seq<char>)>::empty());
    while n < names.names.len()
        invariant
            n <= names.names.len(),
            r.len() == n,
            forall|i: int|
                0 <= i < r.len() ==> link_views((#[trigger] r@[i])@) == Seq::<(int, int)>::empty(),
        decreases names.names.len() - n,
    {
        let row: Vec<(usize, usize)> = Vec::new();
        assert(link_views(row@) =~= Seq::<(int, int)>::empty());
        r.push(row);
        n = n + 1;
    }
    let mut e: usize = 0;
    while e < edges.len()
        invariant
            e <= edges.len(),
            names.wf(),
            ev == edge_views(edges@),
            ns == texts(names.names@),
            forall|i: int|
                0 <= i < edges.len() ==> ns.contains((#[trigger] ev[i]).0) && ns.contains(
                    ev[i].1,
                ),
            r.len() == names.names.len(),
            forall|i: int|
                0 <= i < r.len() ==> link_views((#[trigger] r@[i])@) == links_of(
                    ns,
                    ev.take(e as int),
                    names.names@[i]@,
                ),
        decreases edges.len() - e,
    {
        assert(ev[e as int] == edges@[e as int]@);
        let from: usize = names.number(edges[e].from.as_str());
        let to: usize = names.number(edges[e].to.as_str());
        proof {
            lemma_index(names.names@, from as int, edges@[e as int].from@);
            lemma_index(names.names@, to as int, edges@[e as int].to@);
        }
        let ghost before = r@;
        add_link(&mut r, from, (to, e));
        let ghost middle = r@;
        add_link(&mut r, to, (from, e));
        assert(ev.take(e + 1).drop_last() =~= ev.take(e as int));
        assert(ev.take(e + 1).last() == edges@[e as int]@);
        assert forall|i: int| 0 <= i < r.len() implies link_views((#[trigger] r@[i])@)
            == links_of(ns, ev.take(e + 1), names.names@[i]@) by {
            assert(link_views(before[i]@) == links_of(ns, ev.take(e as int), names.names@[i]@));
            assert(link_views(middle[i]@) == (if i == from {
                link_views(before[i]@).push((to as int, e as int))
            } else {
                link_views(before[i]@)
            }));
            assert(ns[i] == names.names@[i]@);
            assert(ns[from as int] == edges@[e as int].from@);
            assert(ns[to as int] == edges@[e as int].to@);
        }
        e = e + 1;
    }
    assert(ev.take(e as int) =~= ev);
    r
}

/// How many nodes a search by diffusion returns at most, between 1 and 200.
pub fn diffusion_result_limit(k: i32) -> (r: i32)
    ensures
        r == clamped(k as int, 1, 200),
{
    clamp(k, 1, 200)
}

} // verus!
