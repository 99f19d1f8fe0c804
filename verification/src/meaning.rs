//! What the text of a statement says: which words it holds, and what each of
//! its arguments stands for.
use vstd::prelude::*;

use crate::statement::{BindView, StatementView};
use crate::text::digit;

verus! {

/// Whether a part stands at a place of a text.
pub open spec fn part_at(t: Seq<char>, i: int, part: Seq<char>) -> bool {
    &&& 0 <= i
    &&& i + part.len() <= t.len()
    &&& t.subrange(i, i + part.len()) =~= part
}

/// Whether a text holds a part.
pub open spec fn says(t: Seq<char>, part: Seq<char>) -> bool {
    exists|i: int| #[trigger] part_at(t, i, part)
}

/// Whether a text starts with a part.
pub open spec fn opens(t: Seq<char>, part: Seq<char>) -> bool {
    part_at(t, 0, part)
}

/// Whether a character is a decimal digit.
pub open spec fn is_decimal(c: char) -> bool {
    '0' <= c <= '9'
}

/// Whether the placeholder of argument `n`, which is below a hundred, stands
/// at a place of a text.
pub open spec fn argument_at(t: Seq<char>, i: int, n: nat) -> bool {
    if n < 10 {
        &&& 0 <= i
        &&& i + 1 < t.len()
        &&& t[i] == '$'
        &&& t[i + 1] == digit(n as int)
        &&& i + 2 < t.len() ==> !is_decimal(t[i + 2])
    } else {
        &&& 0 <= i
        &&& i + 2 < t.len()
        &&& t[i] == '$'
        &&& t[i + 1] == digit((n / 10) as int)
        &&& t[i + 2] == digit((n % 10) as int)
        &&& i + 3 < t.len() ==> !is_decimal(t[i + 3])
    }
}

/// Whether a text has argument `n` right behind some words.
pub open spec fn mentions(t: Seq<char>, words: Seq<char>, n: nat) -> bool {
    exists|i: int| #[trigger] part_at(t, i, words) && argument_at(t, i + words.len(), n)
}

/// Whether a statement takes a value as the argument behind some words.
pub open spec fn takes(st: StatementView, words: Seq<char>, v: BindView) -> bool {
    exists|n: nat|
        #[trigger] mentions(st.sql, words, n) && 1 <= n <= st.binds.len() && st.binds[n - 1] == v
}

/// Where a text goes on behind the next occurrence of a character.
pub open spec fn past(t: Seq<char>, i: int, c: char) -> int
    decreases t.len() - i,
{
    if i < 0 || i >= t.len() {
        t.len() as int
    } else if t[i] == c {
        i + 1
    } else {
        past(t, i + 1, c)
    }
}

/// Where a text goes on behind the blanks at a place.
pub open spec fn past_blanks(t: Seq<char>, i: int) -> int
    decreases t.len() - i,
{
    if i < 0 || i >= t.len() {
        t.len() as int
    } else if t[i] == ' ' || t[i] == '\n' {
        past_blanks(t, i + 1)
    } else {
        i
    }
}

/// Where item `j` of a list starts that starts at `i` and has a comma behind
/// each item.
pub open spec fn item(t: Seq<char>, i: int, j: nat) -> int
    decreases j,
{
    if j == 0 {
        past_blanks(t, i)
    } else {
        past_blanks(t, past(t, item(t, i, (j - 1) as nat), ','))
    }
}

/// Whether a word ends at a place of a text.
pub open spec fn word_ends_at(t: Seq<char>, i: int) -> bool {
    i < t.len() ==> t[i] == ',' || t[i] == ')' || t[i] == ' ' || t[i] == '\n'
}

/// Whether a column has number `j` in the list in brackets behind `head`, and
/// argument `n` has that number in the list that `values` opens.
pub open spec fn lined_up_at(
    t: Seq<char>,
    head: Seq<char>,
    column: Seq<char>,
    values: Seq<char>,
    n: nat,
    a: int,
    b: int,
    j: nat,
) -> bool {
    let c = item(t, past(t, a + head.len(), '('), j);
    &&& part_at(t, a, head)
    &&& part_at(t, c, column)
    &&& word_ends_at(t, c + column.len())
    &&& part_at(t, b, values)
    &&& argument_at(t, item(t, b + values.len(), j), n)
}

/// Whether argument `n`, in the list that `values` opens, has the number that a
/// column has in the list in brackets behind `head`.
pub open spec fn lines_up(
    t: Seq<char>,
    head: Seq<char>,
    column: Seq<char>,
    values: Seq<char>,
    n: nat,
) -> bool {
    exists|a: int, b: int, j: nat| #[trigger] lined_up_at(t, head, column, values, n, a, b, j)
}

/// Whether a statement fills a column of the list in brackets behind `head`
/// with a value, from the list that `values` opens.
pub open spec fn fills(
    st: StatementView,
    head: Seq<char>,
    column: Seq<char>,
    values: Seq<char>,
    v: BindView,
) -> bool {
    exists|n: nat|
        #[trigger] lines_up(st.sql, head, column, values, n) && 1 <= n <= st.binds.len()
            && st.binds[n - 1] == v
}

/// Whether a text ends, and not with a digit.
pub open spec fn ends_plainly(t: Seq<char>) -> bool {
    t.len() > 0 && !is_decimal(t.last())
}

/// What a piece of a text says, the text says too.
pub proof fn lemma_within(t: Seq<char>, head: Seq<char>, piece: Seq<char>, tail: Seq<char>)
    requires
        t == head + piece + tail,
        tail.len() == 0 || ends_plainly(piece),
    ensures
        head.len() == 0 ==> forall|part: Seq<char>| #[trigger] opens(piece, part) ==> opens(
            t,
            part,
        ),
        forall|part: Seq<char>| #[trigger] says(piece, part) ==> says(t, part),
        forall|words: Seq<char>, n: nat|
            #[trigger] mentions(piece, words, n) ==> mentions(t, words, n),
{
    assert forall|part: Seq<char>| #[trigger] opens(piece, part) && head.len() == 0 implies opens(
        t,
        part,
    ) by {
        assert(t.subrange(0, part.len() as int) =~= piece.subrange(0, part.len() as int));
    }
    assert forall|part: Seq<char>| #[trigger] says(piece, part) implies says(t, part) by {
        let i = choose|i: int| #[trigger] part_at(piece, i, part);
        lemma_part_within(t, head, piece, tail, i, part);
    }
    assert forall|words: Seq<char>, n: nat| #[trigger] mentions(piece, words, n) implies mentions(
        t,
        words,
        n,
    ) by {
        let i = choose|i: int|
            #[trigger] part_at(piece, i, words) && argument_at(piece, i + words.len(), n);
        lemma_part_within(t, head, piece, tail, i, words);
        let k = i + words.len();
        let m: int = if n < 10 {
            k + 2
        } else {
            k + 3
        };
        if m < piece.len() {
            assert(t[head.len() + m] == piece[m]);
        } else if tail.len() > 0 {
            assert(piece.last() == piece[m - 1]);
            assert(is_decimal(digit((n % 10) as int)));
        }
        assert(argument_at(t, head.len() + k, n));
    }
}

proof fn lemma_part_within(
    t: Seq<char>,
    head: Seq<char>,
    piece: Seq<char>,
    tail: Seq<char>,
    i: int,
    part: Seq<char>,
)
    requires
        t == head + piece + tail,
        part_at(piece, i, part),
    ensures
        part_at(t, head.len() + i, part),
{
    assert(t.subrange(head.len() + i, head.len() + i + part.len()) =~= piece.subrange(
        i,
        i + part.len(),
    ));
}

/// What two texts say, their join says too; an argument at the end of the first
/// keeps its number where the second does not start with a digit.
pub proof fn lemma_join(a: Seq<char>, b: Seq<char>)
    ensures
        forall|part: Seq<char>| #[trigger] opens(a, part) ==> opens(a + b, part),
        forall|part: Seq<char>|
            says(a, part) || says(b, part) ==> #[trigger] says(a + b, part),
        forall|words: Seq<char>, n: nat|
            mentions(b, words, n) ==> #[trigger] mentions(a + b, words, n),
        b.len() == 0 || !is_decimal(b[0]) ==> forall|words: Seq<char>, n: nat|
            mentions(a, words, n) ==> #[trigger] mentions(a + b, words, n),
{
    let t = a + b;
    assert forall|part: Seq<char>| #[trigger] opens(a, part) implies opens(t, part) by {
        lemma_part_joins(a, b, 0, part);
    }
    assert forall|part: Seq<char>| says(a, part) || says(b, part) implies #[trigger] says(
        t,
        part,
    ) by {
        if says(a, part) {
            let i = choose|i: int| #[trigger] part_at(a, i, part);
            lemma_part_joins(a, b, i, part);
        } else {
            let i = choose|i: int| #[trigger] part_at(b, i, part);
            lemma_part_joins(a, b, i, part);
        }
    }
    assert forall|words: Seq<char>, n: nat| mentions(b, words, n) implies #[trigger] mentions(
        t,
        words,
        n,
    ) by {
        let i = choose|i: int|
            #[trigger] part_at(b, i, words) && argument_at(b, i + words.len(), n);
        lemma_part_joins(a, b, i, words);
        assert(part_at(t, a.len() + i, words));
    }
    if b.len() == 0 || !is_decimal(b[0]) {
        assert forall|words: Seq<char>, n: nat| mentions(a, words, n) implies #[trigger] mentions(
            t,
            words,
            n,
        ) by {
            let i = choose|i: int|
                #[trigger] part_at(a, i, words) && argument_at(a, i + words.len(), n);
            lemma_part_joins(a, b, i, words);
        }
    }
}

proof fn lemma_part_joins(a: Seq<char>, b: Seq<char>, i: int, part: Seq<char>)
    ensures
        part_at(a, i, part) ==> part_at(a + b, i, part),
        part_at(b, i, part) ==> part_at(a + b, a.len() + i, part),
{
    let t = a + b;
    if part_at(a, i, part) {
        assert(t.subrange(i, i + part.len()) =~= a.subrange(i, i + part.len()));
    }
    if part_at(b, i, part) {
        assert(t.subrange(a.len() + i, a.len() + i + part.len()) =~= b.subrange(
            i,
            i + part.len(),
        ));
    }
}

/// Whether a text at a place differs from a part, from its character `j` on.
pub open spec fn differs(t: Seq<char>, i: int, part: Seq<char>, j: int) -> bool
    decreases part.len() - j,
{
    j < part.len() && (t[i + j] != part[j] || differs(t, i, part, j + 1))
}

/// Whether a part stands at no place from `lo` to `hi`, by halves.
pub open spec fn nowhere(t: Seq<char>, part: Seq<char>, lo: int, hi: int) -> bool
    decreases hi - lo,
{
    if hi <= lo {
        true
    } else if hi == lo + 1 {
        lo + part.len() > t.len() || differs(t, lo, part, 0)
    } else {
        let mid = lo + (hi - lo) / 2;
        nowhere(t, part, lo, mid) && nowhere(t, part, mid, hi)
    }
}

proof fn lemma_differs(t: Seq<char>, i: int, part: Seq<char>, j: int)
    requires
        0 <= j,
        differs(t, i, part, j),
    ensures
        !part_at(t, i, part),
    decreases part.len() - j,
{
    if t[i + j] != part[j] {
        if part_at(t, i, part) {
            assert(t.subrange(i, i + part.len())[j] == part[j]);
        }
    } else {
        lemma_differs(t, i, part, j + 1);
    }
}

proof fn lemma_nowhere_between(t: Seq<char>, part: Seq<char>, lo: int, hi: int)
    requires
        nowhere(t, part, lo, hi),
    ensures
        forall|i: int| lo <= i < hi ==> !#[trigger] part_at(t, i, part),
    decreases hi - lo,
{
    if hi == lo + 1 {
        if lo + part.len() <= t.len() {
            lemma_differs(t, lo, part, 0);
        }
    } else if hi > lo {
        let mid = lo + (hi - lo) / 2;
        lemma_nowhere_between(t, part, lo, mid);
        lemma_nowhere_between(t, part, mid, hi);
    }
}

/// A part that stands at no place of a text is not in it.
pub proof fn lemma_nowhere(t: Seq<char>, part: Seq<char>)
    requires
        part.len() > 0,
        nowhere(t, part, 0, t.len() as int),
    ensures
        !says(t, part),
{
    lemma_nowhere_between(t, part, 0, t.len() as int);
    if says(t, part) {
        let i = choose|i: int| #[trigger] part_at(t, i, part);
        assert(0 <= i < t.len());
    }
}

/// Two texts without a part have a join without it, where the second starts
/// with a character that the part has not.
pub proof fn lemma_absent_joins(a: Seq<char>, b: Seq<char>, part: Seq<char>)
    requires
        !says(a, part),
        !says(b, part),
        b.len() > 0,
        forall|j: int| 0 <= j < part.len() ==> #[trigger] part[j] != b[0],
    ensures
        !says(a + b, part),
{
    let t = a + b;
    if says(t, part) {
        let i = choose|i: int| #[trigger] part_at(t, i, part);
        if i + part.len() <= a.len() {
            assert(a.subrange(i, i + part.len()) =~= t.subrange(i, i + part.len()));
            assert(part_at(a, i, part));
        } else if i >= a.len() {
            let k = i - a.len();
            assert(b.subrange(k, k + part.len()) =~= t.subrange(i, i + part.len()));
            assert(part_at(b, k, part));
        } else {
            let j = a.len() - i;
            assert(t.subrange(i, i + part.len())[j] == t[a.len() as int]);
            assert(t[a.len() as int] == b[0]);
        }
    }
}

} // verus!
