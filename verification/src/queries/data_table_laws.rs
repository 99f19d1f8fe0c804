//! What filters and sort orders of data tables mean.
use vstd::prelude::*;

use crate::meaning::{argument_at, is_decimal, mentions, opens, part_at, says};
use crate::queries::data_tables::{
    clamped_limit, clamped_offset, comparison_cast, escaped_literal, filter_binds, filter_sql,
    joined_sql, one_entry, operand_plain, placeholder, predicate_binds, predicate_sql, sort_sql,
    CastView, Combinator, FilterOp, PredicateView, SortDir, COUNT_ROWS_SQL, DELETE_ROWS_SQL,
    MAX_AGG_SCAN, SELECT_ROWS_SQL, UPDATE_ROWS_SQL,
};
use crate::search_pattern::like_literal;
use crate::statement::BindView;

verus! {

proof fn lemma_middle(a: Seq<char>, part: Seq<char>, b: Seq<char>)
    ensures
        says(a + part + b, part),
{
    assert(part_at(a + part + b, a.len() as int, part));
}

/// A row passes the test for inequality exactly where it fails the one for
/// equality: the one is the negation of the other, over the same argument.
pub proof fn law_unequal_is_not_equal(
    field: Seq<char>,
    cast: Option<Seq<char>>,
    n: nat,
    p: PredicateView,
)
    ensures
        predicate_sql(FilterOp::Ne, field, cast, n) == "NOT ("@ + predicate_sql(
            FilterOp::Eq,
            field,
            cast,
            n,
        ) + ")"@,
        predicate_binds(PredicateView { op: FilterOp::Ne, ..p }) == predicate_binds(
            PredicateView { op: FilterOp::Eq, ..p },
        ),
{
    reveal_strlit("NOT (");
    reveal_strlit(")");
    reveal_strlit("NOT (data @> ");
    reveal_strlit("data @> ");
    reveal_strlit("::jsonb");
    reveal_strlit("::jsonb)");
    assert("NOT (data @> "@ =~= "NOT ("@ + "data @> "@);
    assert("::jsonb)"@ =~= "::jsonb"@ + ")"@);
    assert(predicate_sql(FilterOp::Ne, field, cast, n) =~= "NOT ("@ + predicate_sql(
        FilterOp::Eq,
        field,
        cast,
        n,
    ) + ")"@);
}

/// The test for equality asks whether the row holds the field with the value;
/// its argument is the object of that one field.
pub proof fn law_equality_asks_for_the_entry(p: PredicateView, cast: Option<Seq<char>>, n: nat)
    requires
        p.op is Eq,
    ensures
        says(predicate_sql(p.op, p.field, cast, n), "data @> "@ + placeholder(n)),
        predicate_binds(p) == seq![BindView::Text(one_entry(p.field, p.value))],
{
    reveal_strlit("data @> ");
    let t = predicate_sql(p.op, p.field, cast, n);
    assert(t =~= seq![] + ("data @> "@ + placeholder(n)) + "::jsonb"@);
    lemma_middle(seq![], "data @> "@ + placeholder(n), "::jsonb"@);
}

/// The sign of an ordered comparison.
pub open spec fn comparison_sign(op: FilterOp) -> Seq<char> {
    match op {
        FilterOp::Gt => ">"@,
        FilterOp::Lt => "<"@,
        FilterOp::Gte => ">="@,
        FilterOp::Lte => "<="@,
        _ => seq![],
    }
}

/// An ordered comparison has the field on its left, its own sign, and the
/// argument on its right; the two sides have the same cast.
pub proof fn law_comparison_keeps_its_sides(p: PredicateView, cast: Option<Seq<char>>, n: nat)
    requires
        p.op is Gt || p.op is Lt || p.op is Gte || p.op is Lte,
    ensures
        ({
            let t = predicate_sql(p.op, p.field, cast, n);
            let left = "(data ->> '"@ + escaped_literal(p.field) + "')"@;
            let sign = " "@ + comparison_sign(p.op) + " "@;
            &&& cast is None ==> t == left + sign + placeholder(n)
            &&& cast matches Some(c) ==> t == left + ("::"@ + c) + sign + placeholder(n) + ("::"@ + c)
        }),
        predicate_binds(p) == seq![BindView::Text(operand_plain(p.value))],
{
    reveal_strlit("(data ->> '");
    reveal_strlit("')");
    reveal_strlit("') ");
    reveal_strlit("')::");
    reveal_strlit("::");
    reveal_strlit(" ");
    let t = predicate_sql(p.op, p.field, cast, n);
    let left = "(data ->> '"@ + escaped_literal(p.field) + "')"@;
    let sign = " "@ + comparison_sign(p.op) + " "@;
    match cast {
        Some(c) => {
            assert(t =~= left + ("::"@ + c) + sign + placeholder(n) + ("::"@ + c));
        },
        None => {
            assert(t =~= left + sign + placeholder(n));
        },
    }
}

/// The test for a part of a field looks, without regard to case, for the text
/// anywhere in the field; the text is taken literally.
pub proof fn law_part_is_looked_for_anywhere(p: PredicateView, cast: Option<Seq<char>>, n: nat)
    requires
        p.op is Contains,
    ensures
        says(
            predicate_sql(p.op, p.field, cast, n),
            " ILIKE '%' || "@ + placeholder(n) + " || '%'"@,
        ),
        says(
            predicate_sql(p.op, p.field, cast, n),
            "data ->> '"@ + escaped_literal(p.field) + "'"@,
        ),
        predicate_binds(p) == seq![BindView::Text(like_literal(operand_plain(p.value)))],
{
    reveal_strlit("(data ->> '");
    reveal_strlit("data ->> '");
    reveal_strlit("'");
    reveal_strlit("(");
    reveal_strlit(")");
    reveal_strlit("')");
    reveal_strlit("') ILIKE '%' || ");
    reveal_strlit(" ILIKE '%' || ");
    let t = predicate_sql(p.op, p.field, cast, n);
    let f = escaped_literal(p.field);
    let tail = " ILIKE '%' || "@ + placeholder(n) + " || '%'"@;
    let name = "data ->> '"@ + f + "'"@;
    assert(t =~= ("("@ + name + ")"@) + tail + seq![]);
    lemma_middle("("@ + name + ")"@, tail, seq![]);
    assert(t =~= "("@ + name + (")"@ + tail));
    lemma_middle("("@, name, ")"@ + tail);
}

/// The test for a field asks for its key, and has no argument.
pub proof fn law_presence_asks_for_the_key(p: PredicateView, cast: Option<Seq<char>>, n: nat)
    requires
        p.op is Exists,
    ensures
        says(
            predicate_sql(p.op, p.field, cast, n),
            "data ? '"@ + escaped_literal(p.field) + "'"@,
        ),
        predicate_binds(p).len() == 0,
{
    reveal_strlit("(data ? '");
    reveal_strlit("data ? '");
    reveal_strlit("')");
    reveal_strlit("'");
    reveal_strlit("(");
    reveal_strlit(")");
    let key = "data ? '"@ + escaped_literal(p.field) + "'"@;
    assert(predicate_sql(p.op, p.field, cast, n) =~= "("@ + key + ")"@);
    lemma_middle("("@, key, ")"@);
}

/// The text of predicate `i` of a filter whose first argument has number
/// `n + 1`.
pub open spec fn text_of_predicate(
    ps: Seq<PredicateView>,
    types: Seq<CastView>,
    n: nat,
    i: int,
) -> Seq<char> {
    predicate_sql(
        ps[i].op,
        ps[i].field,
        comparison_cast(types, ps[i].field, ps[i].value),
        n + filter_binds(ps.take(i)).len() + 1,
    )
}

/// Whatever the truth of the single predicates is, a row passes a filter of all
/// predicates exactly where it passes each.
pub proof fn law_all_predicates_must_hold(
    ps: Seq<PredicateView>,
    types: Seq<CastView>,
    n: nat,
    holds: spec_fn(Seq<char>) -> bool,
)
    requires
        ps.len() > 0,
        forall|a: Seq<char>, b: Seq<char>|
            #[trigger] holds(a + " AND "@ + b) <==> holds(a) && holds(b),
    ensures
        holds(joined_sql(ps, Combinator::All, types, n)) <==> forall|i: int|
            0 <= i < ps.len() ==> holds(#[trigger] text_of_predicate(ps, types, n, i)),
    decreases ps.len(),
{
    reveal_strlit(" AND ");
    reveal_strlit("AND");
    reveal_strlit(" ");
    let front = ps.drop_last();
    let k = ps.len() - 1;
    let last = text_of_predicate(ps, types, n, k);
    let whole = joined_sql(ps, Combinator::All, types, n);
    assert(ps.take(k) =~= front);
    if front.len() == 0 {
        assert(whole == last);
    } else {
        law_all_predicates_must_hold(front, types, n, holds);
        let before = joined_sql(front, Combinator::All, types, n);
        assert(whole =~= before + " AND "@ + last);
        assert forall|i: int| 0 <= i < k implies #[trigger] text_of_predicate(ps, types, n, i)
            == text_of_predicate(front, types, n, i) by {
            assert(front.take(i) =~= ps.take(i));
        }
        if holds(whole) {
            assert forall|i: int| 0 <= i < ps.len() implies holds(
                #[trigger] text_of_predicate(ps, types, n, i),
            ) by {
                if i < k {
                    assert(holds(text_of_predicate(front, types, n, i)));
                }
            }
        } else if holds(last) {
            assert(exists|i: int|
                0 <= i < k && !holds(#[trigger] text_of_predicate(front, types, n, i)));
            let i = choose|i: int|
                0 <= i < k && !holds(#[trigger] text_of_predicate(front, types, n, i));
            assert(!holds(text_of_predicate(ps, types, n, i)));
        }
    }
}

/// Whatever the truth of the single predicates is, a row passes a filter of any
/// predicate exactly where it passes one.
pub proof fn law_one_predicate_is_enough(
    ps: Seq<PredicateView>,
    types: Seq<CastView>,
    n: nat,
    holds: spec_fn(Seq<char>) -> bool,
)
    requires
        ps.len() > 0,
        forall|a: Seq<char>, b: Seq<char>|
            #[trigger] holds(a + " OR "@ + b) <==> holds(a) || holds(b),
    ensures
        holds(joined_sql(ps, Combinator::Any, types, n)) <==> exists|i: int|
            0 <= i < ps.len() && holds(#[trigger] text_of_predicate(ps, types, n, i)),
    decreases ps.len(),
{
    reveal_strlit(" OR ");
    reveal_strlit("OR");
    reveal_strlit(" ");
    let front = ps.drop_last();
    let k = ps.len() - 1;
    let last = text_of_predicate(ps, types, n, k);
    let whole = joined_sql(ps, Combinator::Any, types, n);
    assert(ps.take(k) =~= front);
    if front.len() == 0 {
        assert(whole == last);
    } else {
        law_one_predicate_is_enough(front, types, n, holds);
        let before = joined_sql(front, Combinator::Any, types, n);
        assert(whole =~= before + " OR "@ + last);
        assert forall|i: int| 0 <= i < k implies #[trigger] text_of_predicate(ps, types, n, i)
            == text_of_predicate(front, types, n, i) by {
            assert(front.take(i) =~= ps.take(i));
        }
        if holds(before) {
            let i = choose|i: int|
                0 <= i < k && holds(#[trigger] text_of_predicate(front, types, n, i));
            assert(holds(text_of_predicate(ps, types, n, i)));
        }
        if exists|i: int| 0 <= i < ps.len() && holds(#[trigger] text_of_predicate(ps, types, n, i)) {
            let i = choose|i: int|
                0 <= i < ps.len() && holds(#[trigger] text_of_predicate(ps, types, n, i));
            if i < k {
                assert(holds(text_of_predicate(front, types, n, i)));
            }
        }
    }
}

/// A filter narrows what it is added to, as one condition in brackets; an empty
/// filter adds nothing.
pub proof fn law_filter_narrows(
    ps: Seq<PredicateView>,
    combinator: Combinator,
    types: Seq<CastView>,
    n: nat,
)
    ensures
        ps.len() == 0 ==> filter_sql(ps, combinator, types, n).len() == 0,
        ps.len() > 0 ==> filter_sql(ps, combinator, types, n) == " AND "@ + "("@ + joined_sql(
            ps,
            combinator,
            types,
            n,
        ) + ")"@,
{
    reveal_strlit(" AND (");
    reveal_strlit(" AND ");
    reveal_strlit("(");
    if ps.len() > 0 {
        assert(filter_sql(ps, combinator, types, n) =~= " AND "@ + "("@ + joined_sql(
            ps,
            combinator,
            types,
            n,
        ) + ")"@);
    }
}

/// A filter starts with no digit.
pub proof fn lemma_filter_starts(
    ps: Seq<PredicateView>,
    combinator: Combinator,
    types: Seq<CastView>,
    n: nat,
)
    ensures
        ({
            let t = filter_sql(ps, combinator, types, n);
            t.len() == 0 || !is_decimal(t[0])
        }),
{
    reveal_strlit(" AND (");
    if ps.len() > 0 {
        assert(filter_sql(ps, combinator, types, n)[0] == ' ');
    }
}

/// What the statements over the rows of a table start with.
pub proof fn rows_of_table_text()
    ensures
        mentions(COUNT_ROWS_SQL@ + "$1"@, "WHERE table_id = "@, 1),
        mentions(DELETE_ROWS_SQL@ + "$1"@, "WHERE table_id = "@, 1),
        opens(SELECT_ROWS_SQL@ + "$1"@, "SELECT"@),
        says(SELECT_ROWS_SQL@ + "$1"@, "FROM data_table_rows WHERE table_id = "@),
        mentions(SELECT_ROWS_SQL@ + "$1"@, "WHERE table_id = "@, 1),
        ({
            let t = UPDATE_ROWS_SQL@ + "$1"@ + "::jsonb, updated_at = now() WHERE table_id = "@ + "$2"@;
            &&& opens(t, "UPDATE data_table_rows SET data = data || "@)
            &&& mentions(t, "SET data = data || "@, 1)
            &&& mentions(t, "WHERE table_id = "@, 2)
        }),
{
    reveal_strlit("SELECT COUNT(*) FROM data_table_rows WHERE table_id = ");
    reveal_strlit("DELETE FROM data_table_rows WHERE table_id = ");
    reveal_strlit(
        "SELECT id, data::text AS data_text, created_by, source, created_at, updated_at
         FROM data_table_rows WHERE table_id = ",
    );
    reveal_strlit("UPDATE data_table_rows SET data = data || ");
    reveal_strlit("$1");
    reveal_strlit("$2");
    reveal_strlit("::jsonb, updated_at = now() WHERE table_id = ");
    reveal_strlit("WHERE table_id = ");
    reveal_strlit("FROM data_table_rows WHERE table_id = ");
    reveal_strlit("SELECT");
    reveal_strlit("SET data = data || ");
    let c = COUNT_ROWS_SQL@ + "$1"@;
    assert(part_at(c, 37, "WHERE table_id = "@));
    assert(argument_at(c, 54, 1));
    let d = DELETE_ROWS_SQL@ + "$1"@;
    assert(part_at(d, 28, "WHERE table_id = "@));
    assert(argument_at(d, 45, 1));
    let s = SELECT_ROWS_SQL@ + "$1"@;
    assert(part_at(s, 0, "SELECT"@));
    assert(part_at(s, 88, "FROM data_table_rows WHERE table_id = "@));
    assert(part_at(s, 109, "WHERE table_id = "@));
    assert(argument_at(s, 126, 1));
    let u = UPDATE_ROWS_SQL@ + "$1"@ + "::jsonb, updated_at = now() WHERE table_id = "@ + "$2"@;
    assert(part_at(u, 0, UPDATE_ROWS_SQL@));
    assert(part_at(u, 23, "SET data = data || "@));
    assert(argument_at(u, 42, 1));
    assert(part_at(u, 72, "WHERE table_id = "@));
    assert(argument_at(u, 89, 2));
}

/// Rows sort by the field that is asked for, in the direction that is asked for,
/// rows without it last; the newest come first among equals and where nothing
/// is asked for.
pub proof fn law_rows_sort_as_asked(field: Seq<char>, types: Seq<CastView>)
    ensures
        says(sort_sql(Some(field), SortDir::Asc, types), " ASC NULLS LAST, id DESC"@),
        says(sort_sql(Some(field), SortDir::Desc, types), " DESC NULLS LAST, id DESC"@),
        says(
            sort_sql(Some(field), SortDir::Asc, types),
            "data ->> '"@ + escaped_literal(field) + "'"@,
        ),
        says(
            sort_sql(Some(field), SortDir::Desc, types),
            "data ->> '"@ + escaped_literal(field) + "'"@,
        ),
        forall|dir: SortDir| #[trigger] sort_sql(None, dir, types) == "id DESC"@,
{
    lemma_sort(field, SortDir::Asc, types);
    lemma_sort(field, SortDir::Desc, types);
    reveal_strlit(" ASC NULLS LAST, id DESC");
    reveal_strlit(" DESC NULLS LAST, id DESC");
    reveal_strlit(" NULLS LAST");
    reveal_strlit(", id DESC");
    reveal_strlit("ASC");
    reveal_strlit("DESC");
    reveal_strlit(" ");
    assert(" "@ + SortDir::Asc.symbol() + " NULLS LAST"@ + ", id DESC"@
        =~= " ASC NULLS LAST, id DESC"@);
    assert(" "@ + SortDir::Desc.symbol() + " NULLS LAST"@ + ", id DESC"@
        =~= " DESC NULLS LAST, id DESC"@);
}

proof fn lemma_sort(field: Seq<char>, dir: SortDir, types: Seq<CastView>)
    ensures
        says(
            sort_sql(Some(field), dir, types),
            " "@ + dir.symbol() + " NULLS LAST"@ + ", id DESC"@,
        ),
        says(sort_sql(Some(field), dir, types), "data ->> '"@ + escaped_literal(field) + "'"@),
{
    reveal_strlit("(data ->> '");
    reveal_strlit("data ->> '");
    reveal_strlit("'");
    reveal_strlit("(");
    reveal_strlit(")");
    reveal_strlit("') ");
    reveal_strlit("')::");
    reveal_strlit("::");
    reveal_strlit(" ");
    let t = sort_sql(Some(field), dir, types);
    let tail = " "@ + dir.symbol() + " NULLS LAST"@ + ", id DESC"@;
    let name = "data ->> '"@ + escaped_literal(field) + "'"@;
    let cast = match crate::queries::data_tables::declared_cast(types, field) {
        Some(c) => c,
        None => None,
    };
    let middle: Seq<char> = match cast {
        Some(c) => "::"@ + c,
        None => seq![],
    };
    let head = "("@ + name + ")"@ + middle;
    assert(t =~= head + tail + seq![]);
    lemma_middle(head, tail, seq![]);
    assert(t =~= "("@ + name + (")"@ + middle + tail));
    lemma_middle("("@, name, ")"@ + middle + tail);
}

/// A page has at least one row and at most the largest number, and starts at no
/// row before the first; what is between is kept.
pub proof fn law_pages_are_bounded(limit: i64, offset: i64)
    ensures
        1 <= clamped_limit(limit) <= MAX_AGG_SCAN,
        1 <= limit <= MAX_AGG_SCAN ==> clamped_limit(limit) == limit,
        limit > MAX_AGG_SCAN ==> clamped_limit(limit) == MAX_AGG_SCAN,
        clamped_offset(offset) >= 0,
        offset >= 0 ==> clamped_offset(offset) == offset,
{
}

} // verus!
