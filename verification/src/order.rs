//! Sorted lists without repetition, of row ids and of text tuples. Advisory
//! locks are taken in this order, so that two writers never wait for each
//! other in a circle.
use vstd::prelude::*;

use crate::statement::texts;
use crate::text::{comes_before, lemma_text_order, lemma_text_transitive, text_eq, text_less};

verus! {

/// Whether each number is below the next.
pub open spec fn increasing(s: Seq<i64>) -> bool {
    forall|i: int, j: int| 0 <= i < j < s.len() ==> s[i] < s[j]
}

/// How many numbers at the front of `s` are below `x`.
pub open spec fn id_rank(s: Seq<i64>, x: i64) -> nat
    decreases s.len(),
{
    if s.len() == 0 || s[0] >= x {
        0
    } else {
        1 + id_rank(s.drop_first(), x)
    }
}

/// `s` with `x` at its place, or `s` itself where `x` is already there.
pub open spec fn with_id(s: Seq<i64>, x: i64) -> Seq<i64> {
    let p = id_rank(s, x);
    if p < s.len() && s[p as int] == x {
        s
    } else {
        s.insert(p as int, x)
    }
}

/// The numbers of `s` in increasing order, each once.
pub open spec fn sorted_ids(s: Seq<i64>) -> Seq<i64>
    decreases s.len(),
{
    if s.len() == 0 {
        seq![]
    } else {
        with_id(sorted_ids(s.drop_last()), s.last())
    }
}

proof fn lemma_id_rank(s: Seq<i64>, x: i64)
    requires
        increasing(s),
    ensures
        id_rank(s, x) <= s.len(),
        forall|i: int| 0 <= i < id_rank(s, x) ==> s[i] < x,
        forall|i: int| id_rank(s, x) <= i < s.len() ==> s[i] >= x,
    decreases s.len(),
{
    if s.len() > 0 && s[0] < x {
        let t = s.drop_first();
        lemma_id_rank(t, x);
        assert forall|i: int| 0 <= i < id_rank(s, x) implies s[i] < x by {
            if i > 0 {
                assert(t[i - 1] < x);
            }
        }
        assert forall|i: int| id_rank(s, x) <= i < s.len() implies s[i] >= x by {
            assert(t[i - 1] >= x);
        }
    }
}

/// Sorting ids gives an increasing list of exactly the given numbers.
pub proof fn law_sorted_ids(s: Seq<i64>)
    ensures
        increasing(sorted_ids(s)),
        forall|x: i64| sorted_ids(s).contains(x) <==> s.contains(x),
        sorted_ids(s).len() <= s.len(),
    decreases s.len(),
{
    if s.len() > 0 {
        let t = sorted_ids(s.drop_last());
        let x = s.last();
        law_sorted_ids(s.drop_last());
        lemma_id_rank(t, x);
        let p = id_rank(t, x) as int;
        let r = sorted_ids(s);
        assert forall|y: i64| r.contains(y) <==> s.contains(y) by {
            if s.contains(y) {
                let k = choose|k: int| 0 <= k < s.len() && s[k] == y;
                if k < s.len() - 1 {
                    assert(s.drop_last()[k] == y);
                    assert(s.drop_last().contains(y));
                    assert(t.contains(y));
                    let m = choose|m: int| 0 <= m < t.len() && t[m] == y;
                    if r != t {
                        if m < p {
                            assert(r[m] == y);
                        } else {
                            assert(r[m + 1] == y);
                        }
                    }
                } else if r != t {
                    assert(r[p] == y);
                } else {
                    assert(t[p] == y);
                }
            }
            if r.contains(y) {
                let m = choose|m: int| 0 <= m < r.len() && r[m] == y;
                if r == t {
                    assert(t.contains(y));
                    assert(s.drop_last().contains(y));
                    let k = choose|k: int| 0 <= k < s.drop_last().len() && s.drop_last()[k] == y;
                    assert(s[k] == y);
                } else if m == p {
                    assert(s[s.len() - 1] == y);
                } else {
                    let n = if m < p { m } else { m - 1 };
                    assert(t[n] == y);
                    assert(t.contains(y));
                    assert(s.drop_last().contains(y));
                    let k = choose|k: int| 0 <= k < s.drop_last().len() && s.drop_last()[k] == y;
                    assert(s[k] == y);
                }
            }
        }
    } else {
        assert(s =~= seq![]);
    }
}

/// Sorts ids and drops repetitions.
pub fn sort_ids(ids: &Vec<i64>) -> (r: Vec<i64>)
    ensures
        r@ == sorted_ids(ids@),
        increasing(r@),
{
    let mut out: Vec<i64> = Vec::new();
    let mut i: usize = 0;
    while i < ids.len()
        invariant
            i <= ids.len(),
            out@ == sorted_ids(ids@.take(i as int)),
        decreases ids.len() - i,
    {
        let x: i64 = ids[i];
        proof {
            law_sorted_ids(ids@.take(i as int));
            lemma_id_rank(out@, x);
            assert(ids@.take(i + 1).drop_last() =~= ids@.take(i as int));
        }
        let mut p: usize = 0;
        assert(out@.skip(0) =~= out@);
        while p < out.len() && out[p] < x
            invariant
                p <= out.len(),
                id_rank(out@, x) == p + id_rank(out@.skip(p as int), x),
            decreases out.len() - p,
        {
            assert(out@.skip(p as int).drop_first() =~= out@.skip(p + 1));
            p = p + 1;
        }
        if p == out.len() || out[p] != x {
            out.insert(p, x);
        }
        i = i + 1;
    }
    proof {
        assert(ids@.take(i as int) =~= ids@);
        law_sorted_ids(ids@);
    }
    out
}

/// Order of text tuples: that of the first texts in which they differ.
pub open spec fn tuple_less(a: Seq<Seq<char>>, b: Seq<Seq<char>>) -> bool
    decreases a.len(),
{
    if b.len() == 0 {
        false
    } else if a.len() == 0 {
        true
    } else if a[0] != b[0] {
        text_less(a[0], b[0])
    } else {
        tuple_less(a.drop_first(), b.drop_first())
    }
}

proof fn lemma_tuple_order(a: Seq<Seq<char>>, b: Seq<Seq<char>>)
    ensures
        !tuple_less(a, a),
        tuple_less(a, b) ==> !tuple_less(b, a),
        a == b || tuple_less(a, b) || tuple_less(b, a),
    decreases a.len(),
{
    if a.len() > 0 {
        lemma_tuple_order(a.drop_first(), a.drop_first());
        if b.len() > 0 {
            lemma_text_order(a[0], b[0]);
            if a[0] == b[0] {
                lemma_tuple_order(a.drop_first(), b.drop_first());
                if a.drop_first() == b.drop_first() {
                    assert(a =~= seq![a[0]] + a.drop_first());
                    assert(b =~= seq![b[0]] + b.drop_first());
                }
            }
        }
    } else if b.len() == 0 {
        assert(a =~= b);
    }
}

proof fn lemma_tuple_transitive(a: Seq<Seq<char>>, b: Seq<Seq<char>>, c: Seq<Seq<char>>)
    requires
        tuple_less(a, b),
        tuple_less(b, c),
    ensures
        tuple_less(a, c),
    decreases a.len(),
{
    if a.len() > 0 && b.len() > 0 && c.len() > 0 {
        lemma_text_order(a[0], c[0]);
        lemma_text_order(a[0], b[0]);
        lemma_text_order(b[0], c[0]);
        if a[0] == b[0] && b[0] == c[0] {
            lemma_tuple_transitive(a.drop_first(), b.drop_first(), c.drop_first());
        } else if a[0] != b[0] && b[0] != c[0] {
            lemma_text_transitive(a[0], b[0], c[0]);
        }
    }
}

/// Whether each tuple comes before the next.
pub open spec fn tuples_increasing(s: Seq<Seq<Seq<char>>>) -> bool {
    forall|i: int, j: int| 0 <= i < j < s.len() ==> tuple_less(s[i], s[j])
}

/// How many tuples at the front of `s` come before `x`.
pub open spec fn tuple_rank(s: Seq<Seq<Seq<char>>>, x: Seq<Seq<char>>) -> nat
    decreases s.len(),
{
    if s.len() == 0 || !tuple_less(s[0], x) {
        0
    } else {
        1 + tuple_rank(s.drop_first(), x)
    }
}

/// `s` with `x` at its place, or `s` itself where `x` is already there.
pub open spec fn with_tuple(s: Seq<Seq<Seq<char>>>, x: Seq<Seq<char>>) -> Seq<Seq<Seq<char>>> {
    let p = tuple_rank(s, x);
    if p < s.len() && s[p as int] == x {
        s
    } else {
        s.insert(p as int, x)
    }
}

/// The tuples of `s` in order, each once.
pub open spec fn sorted_tuples(s: Seq<Seq<Seq<char>>>) -> Seq<Seq<Seq<char>>>
    decreases s.len(),
{
    if s.len() == 0 {
        seq![]
    } else {
        with_tuple(sorted_tuples(s.drop_last()), s.last())
    }
}

proof fn lemma_tuple_rank(s: Seq<Seq<Seq<char>>>, x: Seq<Seq<char>>)
    requires
        tuples_increasing(s),
    ensures
        tuple_rank(s, x) <= s.len(),
        forall|i: int| 0 <= i < tuple_rank(s, x) ==> tuple_less(#[trigger] s[i], x),
        forall|i: int|
            tuple_rank(s, x) <= i < s.len() ==> (#[trigger] s[i] == x && i == tuple_rank(s, x))
                || tuple_less(x, s[i]),
    decreases s.len(),
{
    if s.len() > 0 {
        let t = s.drop_first();
        if tuple_less(s[0], x) {
            lemma_tuple_rank(t, x);
            assert forall|i: int| 0 <= i < tuple_rank(s, x) implies tuple_less(
                #[trigger] s[i],
                x,
            ) by {
                if i > 0 {
                    assert(t[i - 1] == s[i]);
                }
            }
            assert forall|i: int| tuple_rank(s, x) <= i < s.len() implies (#[trigger] s[i] == x
                && i == tuple_rank(s, x)) || tuple_less(x, s[i]) by {
                assert(t[i - 1] == s[i]);
            }
        } else {
            assert forall|i: int| 0 <= i < s.len() implies (#[trigger] s[i] == x && i == 0)
                || tuple_less(x, s[i]) by {
                lemma_tuple_order(s[0], x);
                if i > 0 && s[0] != x {
                    assert(tuple_less(s[0], s[i]));
                    lemma_tuple_transitive(x, s[0], s[i]);
                }
            }
        }
    }
}

/// Sorting tuples gives an increasing list of exactly the given tuples.
pub proof fn law_sorted_tuples(s: Seq<Seq<Seq<char>>>)
    ensures
        tuples_increasing(sorted_tuples(s)),
        forall|x: Seq<Seq<char>>| sorted_tuples(s).contains(x) <==> s.contains(x),
        sorted_tuples(s).len() <= s.len(),
    decreases s.len(),
{
    if s.len() > 0 {
        let t = sorted_tuples(s.drop_last());
        let x = s.last();
        law_sorted_tuples(s.drop_last());
        lemma_tuple_rank(t, x);
        let p = tuple_rank(t, x) as int;
        let r = sorted_tuples(s);
        assert forall|i: int, j: int| 0 <= i < j < r.len() implies tuple_less(r[i], r[j]) by {
            if r != t {
                let a = if i < p { i } else { i - 1 };
                let b = if j < p { j } else { j - 1 };
                if i == p {
                    assert(r[j] == t[b]);
                } else if j == p {
                    assert(r[i] == t[a]);
                } else {
                    assert(r[i] == t[a] && r[j] == t[b]);
                }
            }
        }
        assert forall|y: Seq<Seq<char>>| r.contains(y) <==> s.contains(y) by {
            if s.contains(y) {
                let k = choose|k: int| 0 <= k < s.len() && s[k] == y;
                if k < s.len() - 1 {
                    assert(s.drop_last()[k] == y);
                    assert(s.drop_last().contains(y));
                    assert(t.contains(y));
                    let m = choose|m: int| 0 <= m < t.len() && t[m] == y;
                    if r != t {
                        if m < p {
                            assert(r[m] == y);
                        } else {
                            assert(r[m + 1] == y);
                        }
                    }
                } else if r != t {
                    assert(r[p] == y);
                } else {
                    assert(t[p] == y);
                }
            }
            if r.contains(y) {
                let m = choose|m: int| 0 <= m < r.len() && r[m] == y;
                if r == t {
                    assert(t.contains(y));
                    assert(s.drop_last().contains(y));
                    let k = choose|k: int| 0 <= k < s.drop_last().len() && s.drop_last()[k] == y;
                    assert(s[k] == y);
                } else if m == p {
                    assert(s[s.len() - 1] == y);
                } else {
                    let n = if m < p { m } else { m - 1 };
                    assert(t[n] == y);
                    assert(t.contains(y));
                    assert(s.drop_last().contains(y));
                    let k = choose|k: int| 0 <= k < s.drop_last().len() && s.drop_last()[k] == y;
                    assert(s[k] == y);
                }
            }
        }
    } else {
        assert(s =~= seq![]);
    }
}

/// The tuples in a list of string lists.
pub open spec fn tuples(v: Seq<Vec<String>>) -> Seq<Seq<Seq<char>>> {
    v.map_values(|t: Vec<String>| texts(t@))
}

fn tuple_before(a: &Vec<String>, b: &Vec<String>) -> (r: bool)
    ensures
        r == tuple_less(texts(a@), texts(b@)),
{
    let ghost x = texts(a@);
    let ghost y = texts(b@);
    let mut i: usize = 0;
    assert(x.skip(0) =~= x);
    assert(y.skip(0) =~= y);
    while i < a.len() && i < b.len()
        invariant
            i <= a.len(),
            i <= b.len(),
            x == texts(a@),
            y == texts(b@),
            tuple_less(x, y) == tuple_less(x.skip(i as int), y.skip(i as int)),
        decreases a.len() - i,
    {
        assert(x[i as int] == a@[i as int]@);
        assert(y[i as int] == b@[i as int]@);
        assert(x.skip(i as int).drop_first() =~= x.skip(i + 1));
        assert(y.skip(i as int).drop_first() =~= y.skip(i + 1));
        if !text_eq(&a[i], &b[i]) {
            return comes_before(&a[i], &b[i]);
        }
        i = i + 1;
    }
    i == a.len() && i < b.len()
}

fn tuple_eq(a: &Vec<String>, b: &Vec<String>) -> (r: bool)
    ensures
        r == (texts(a@) == texts(b@)),
{
    if a.len() != b.len() {
        assert(texts(a@).len() != texts(b@).len());
        return false;
    }
    let mut i: usize = 0;
    while i < a.len()
        invariant
            i <= a.len(),
            a.len() == b.len(),
            forall|j: int| 0 <= j < i ==> a@[j]@ == b@[j]@,
        decreases a.len() - i,
    {
        if !text_eq(&a[i], &b[i]) {
            assert(texts(a@)[i as int] != texts(b@)[i as int]);
            return false;
        }
        i = i + 1;
    }
    assert(texts(a@) =~= texts(b@));
    true
}

/// Sorts text tuples and drops repetitions.
pub fn sort_tuples(items: Vec<Vec<String>>) -> (r: Vec<Vec<String>>)
    ensures
        tuples(r@) == sorted_tuples(tuples(items@)),
        tuples_increasing(tuples(r@)),
{
    let ghost all = tuples(items@);
    let mut rest = items;
    let mut taken: Vec<Vec<String>> = Vec::new();
    // Taking from the back reverses the list; sort the reversed list front to back.
    while rest.len() > 0
        invariant
            tuples(rest@) + tuples(taken@).reverse() =~= all,
        decreases rest.len(),
    {
        let ghost before = rest@;
        let ghost took = taken@;
        match rest.pop() {
            Some(t) => {
                taken.push(t);
                proof {
                    assert(tuples(taken@).reverse() =~= seq![texts(t@)] + tuples(took).reverse());
                    assert(tuples(before) =~= tuples(rest@).push(texts(t@)));
                }
            },
            None => {},
        }
    }
    assert(tuples(rest@) =~= seq![]);
    assert(tuples(taken@).reverse() =~= all);
    let mut out: Vec<Vec<String>> = Vec::new();
    assert(tuples(out@) =~= sorted_tuples(all.take(0)));
    while taken.len() > 0
        invariant
            taken.len() <= all.len(),
            tuples(taken@).reverse() == all.skip(all.len() - taken.len()),
            tuples(out@) == sorted_tuples(all.take(all.len() - taken.len())),
        decreases taken.len(),
    {
        let ghost done: int = all.len() - taken.len();
        let ghost left = taken@;
        match taken.pop() {
            Some(x) => {
                let ghost sorted = tuples(out@);
                proof {
                    assert(tuples(left).reverse()[0] == texts(x@));
                    assert(all[done] == texts(x@));
                    assert(tuples(taken@).reverse() =~= tuples(left).reverse().skip(1));
                    assert(all.skip(done).skip(1) =~= all.skip(done + 1));
                    assert(all.take(done + 1).drop_last() =~= all.take(done));
                    law_sorted_tuples(all.take(done));
                    lemma_tuple_rank(sorted, texts(x@));
                }
                let mut p: usize = 0;
                assert(sorted.skip(0) =~= sorted);
                while p < out.len() && tuple_before(&out[p], &x)
                    invariant
                        p <= out.len(),
                        sorted == tuples(out@),
                        tuple_rank(sorted, texts(x@)) == p + tuple_rank(
                            sorted.skip(p as int),
                            texts(x@),
                        ),
                    decreases out.len() - p,
                {
                    assert(sorted[p as int] == texts(out@[p as int]@));
                    assert(sorted.skip(p as int).drop_first() =~= sorted.skip(p + 1));
                    p = p + 1;
                }
                assert(p < out.len() ==> sorted[p as int] == texts(out@[p as int]@));
                let present: bool = p < out.len() && tuple_eq(&out[p], &x);
                if !present {
                    let ghost o = out@;
                    out.insert(p, x);
                    assert(tuples(out@) =~= sorted.insert(p as int, texts(x@)));
                }
            },
            None => {},
        }
    }
    proof {
        assert(all.take(all.len() as int) =~= all);
        law_sorted_tuples(all);
    }
    out
}

} // verus!
