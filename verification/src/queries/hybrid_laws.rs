//! What the text of the fused search depends on, and which placeholders it
//! has.
use vstd::prelude::*;

use crate::queries::search::{
    hybrid_legs, hybrid_sql, HYBRID_FUSE_THREE, HYBRID_FUSE_TWO, HYBRID_LEGS_1, HYBRID_LEGS_2,
    HYBRID_LEGS_3, HYBRID_LEGS_4, HYBRID_RANKING,
};

verus! {

/// A text with each occurrence of a pattern replaced, from the left on.
pub open spec fn replaced(s: Seq<char>, pat: Seq<char>, by: Seq<char>) -> Seq<char>
    decreases s.len(),
{
    if s.len() == 0 || pat.len() == 0 {
        s
    } else if pat.is_prefix_of(s) {
        by + replaced(s.skip(pat.len() as int), pat, by)
    } else {
        seq![s[0]] + replaced(s.skip(1), pat, by)
    }
}

pub open spec fn is_decimal(c: char) -> bool {
    '0' <= c <= '9'
}

/// Whether the placeholder of the argument with the one-digit number `d`
/// stands at a place of a text.
pub open spec fn placeholder_at(s: Seq<char>, i: int, d: char) -> bool {
    &&& 0 <= i
    &&& i + 1 < s.len()
    &&& s[i] == '$'
    &&& s[i + 1] == d
    &&& i + 2 < s.len() ==> !is_decimal(s[i + 2])
}

/// Whether a text has the placeholder of argument `d`.
pub open spec fn uses(s: Seq<char>, d: char) -> bool {
    exists|i: int| #[trigger] placeholder_at(s, i, d)
}

/// Whether all placeholders of a text are those of arguments `1` to `last`.
pub open spec fn uses_only_to(s: Seq<char>, last: char) -> bool {
    forall|i: int|
        0 <= i < s.len() && #[trigger] s[i] == '$' ==> i + 1 < s.len() && '1' <= s[i + 1] <= last
            && placeholder_at(s, i, s[i + 1])
}

/// Whether the mark's last letter is missing from a text.
spec fn unmarked(s: Seq<char>) -> bool {
    forall|k: int| 0 <= k < s.len() ==> #[trigger] s[k] != 'X'
}

/// Whether a placeholder at `k`, if there is one, is of argument `1` to
/// `last`, and something that is no digit follows it.
spec fn closed_at(s: Seq<char>, last: char, k: int) -> bool {
    s[k] == '$' ==> k + 2 < s.len() && '1' <= s[k + 1] <= last && !is_decimal(s[k + 2])
}

spec fn closed(s: Seq<char>, last: char) -> bool {
    forall|k: int| 0 <= k < s.len() && #[trigger] s[k] == '$' ==> closed_at(s, last, k)
}

/// Whether the placeholder of argument `d` stands at `k`, and something
/// follows it.
spec fn closed_use_at(s: Seq<char>, d: char, k: int) -> bool {
    0 <= k && k + 2 < s.len() && s[k] == '$' && s[k + 1] == d && !is_decimal(s[k + 2])
}

spec fn closed_use(s: Seq<char>, d: char) -> bool {
    exists|k: int| #[trigger] closed_use_at(s, d, k)
}

/// Whether the characters from `lo` to `hi` are unmarked and closed, by
/// halves.
spec fn all_sound(s: Seq<char>, last: char, lo: int, hi: int) -> bool
    decreases hi - lo,
{
    if hi <= lo {
        true
    } else if hi == lo + 1 {
        s[lo] != 'X' && closed_at(s, last, lo)
    } else {
        let mid = lo + (hi - lo) / 2;
        all_sound(s, last, lo, mid) && all_sound(s, last, mid, hi)
    }
}

proof fn lemma_all_sound(s: Seq<char>, last: char, lo: int, hi: int)
    requires
        0 <= lo <= hi <= s.len(),
        all_sound(s, last, lo, hi),
    ensures
        forall|k: int| lo <= k < hi ==> #[trigger] s[k] != 'X' && closed_at(s, last, k),
    decreases hi - lo,
{
    if hi > lo + 1 {
        let mid = lo + (hi - lo) / 2;
        lemma_all_sound(s, last, lo, mid);
        lemma_all_sound(s, last, mid, hi);
        assert forall|k: int| lo <= k < hi implies #[trigger] s[k] != 'X' && closed_at(
            s,
            last,
            k,
        ) by {
            assert(k < mid || mid <= k);
        }
    }
}

proof fn lemma_closed_join(a: Seq<char>, b: Seq<char>, last: char)
    requires
        closed(a, last),
        closed(b, last),
    ensures
        closed(a + b, last),
{
    let s = a + b;
    assert forall|k: int| 0 <= k < s.len() && #[trigger] s[k] == '$' implies closed_at(
        s,
        last,
        k,
    ) by {
        if k < a.len() {
            assert(a[k] == '$');
            assert(closed_at(a, last, k));
        } else {
            assert(b[k - a.len()] == '$');
            assert(closed_at(b, last, k - a.len()));
        }
    }
}

proof fn lemma_closed_rises(s: Seq<char>, last: char, to: char)
    requires
        closed(s, last),
        last <= to,
    ensures
        closed(s, to),
{
    assert forall|k: int| 0 <= k < s.len() && #[trigger] s[k] == '$' implies closed_at(
        s,
        to,
        k,
    ) by {
        assert(closed_at(s, last, k));
    }
}

proof fn lemma_use_join(a: Seq<char>, b: Seq<char>, d: char)
    ensures
        closed_use(a, d) || closed_use(b, d) ==> closed_use(a + b, d),
{
    let s = a + b;
    if closed_use(a, d) {
        let k = choose|k: int| #[trigger] closed_use_at(a, d, k);
        assert(closed_use_at(s, d, k));
    }
    if closed_use(b, d) {
        let k = choose|k: int| #[trigger] closed_use_at(b, d, k);
        assert(closed_use_at(s, d, k + a.len()));
    }
}

proof fn lemma_unmarked_stays(a: Seq<char>, by: Seq<char>)
    requires
        unmarked(a),
    ensures
        replaced(a, "COLX"@, by) == a,
    decreases a.len(),
{
    reveal_strlit("COLX");
    if a.len() > 0 {
        if "COLX"@.is_prefix_of(a) {
            assert(a[3] == "COLX"@[3]);
        }
        lemma_unmarked_stays(a.skip(1), by);
        assert(seq![a[0]] + a.skip(1) =~= a);
    }
}

proof fn lemma_first_mark(a: Seq<char>, rest: Seq<char>, by: Seq<char>)
    requires
        unmarked(a),
    ensures
        replaced(a + "COLX"@ + rest, "COLX"@, by) == a + by + replaced(rest, "COLX"@, by),
    decreases a.len(),
{
    reveal_strlit("COLX");
    let pat = "COLX"@;
    let whole = a + pat + rest;
    if a.len() == 0 {
        assert(whole =~= pat + rest);
        assert(whole.subrange(0, 4) =~= pat);
        assert(whole.skip(4) =~= rest);
        assert(a + by =~= by);
    } else {
        assert(whole[3] != 'X') by {
            if a.len() > 3 {
                assert(whole[3] == a[3]);
            } else {
                assert(whole[3] == pat[3 - a.len()]);
            }
        }
        if pat.is_prefix_of(whole) {
            assert(whole[3] == pat[3]);
        }
        lemma_first_mark(a.skip(1), rest, by);
        assert(whole.skip(1) =~= a.skip(1) + pat + rest);
        assert(seq![a[0]] + (a.skip(1) + by + replaced(rest, pat, by)) =~= a + by + replaced(
            rest,
            pat,
            by,
        ));
    }
}

#[verifier::rlimit(50)]
proof fn lemma_legs_1()
    ensures
        unmarked(HYBRID_LEGS_1@),
        closed(HYBRID_LEGS_1@, '6'),
{
    reveal_strlit(
        "dense AS (
            SELECT chunk_id, ROW_NUMBER() OVER (ORDER BY dist) AS rnk FROM (
                SELECT c.id AS chunk_id, (c.",
    );
    let s = HYBRID_LEGS_1@;
    assert(all_sound(s, '6', 0, 132)) by {
        reveal_with_fuel(all_sound, 12);
    }
    lemma_all_sound(s, '6', 0, 132);
}

#[verifier::rlimit(50)]
proof fn lemma_legs_2()
    ensures
        unmarked(HYBRID_LEGS_2@),
        closed(HYBRID_LEGS_2@, '6'),
        closed_use(HYBRID_LEGS_2@, '1'),
{
    reveal_strlit(
        " <=> $1) AS dist
                FROM file_chunks c
                JOIN indexed_files f ON f.id = c.file_id
                JOIN projects p ON p.id = f.project_id
                WHERE c.",
    );
    let s = HYBRID_LEGS_2@;
    assert(all_sound(s, '6', 0, 188)) by {
        reveal_with_fuel(all_sound, 12);
    }
    lemma_all_sound(s, '6', 0, 188);
    assert(closed_use_at(s, '1', 5));
}

#[verifier::rlimit(50)]
proof fn lemma_legs_3()
    ensures
        unmarked(HYBRID_LEGS_3@),
        closed(HYBRID_LEGS_3@, '6'),
        closed_use(HYBRID_LEGS_3@, '4'),
        closed_use(HYBRID_LEGS_3@, '5'),
{
    reveal_strlit(
        " IS NOT NULL
                  AND ($4::text IS NULL OR f.language = $4)
                  AND ($5::text IS NULL OR p.name = $5)
                ORDER BY c.",
    );
    let s = HYBRID_LEGS_3@;
    assert(all_sound(s, '6', 0, 156)) by {
        reveal_with_fuel(all_sound, 12);
    }
    lemma_all_sound(s, '6', 0, 156);
    assert(closed_use_at(s, '4', 36));
    assert(closed_use_at(s, '5', 96));
}

#[verifier::rlimit(50)]
proof fn lemma_legs_4()
    ensures
        unmarked(HYBRID_LEGS_4@),
        closed(HYBRID_LEGS_4@, '6'),
        closed_use(HYBRID_LEGS_4@, '2'),
        closed_use(HYBRID_LEGS_4@, '3'),
{
    reveal_strlit(
        " <=> $1
                LIMIT $3
            ) dd
        ),
        lexical AS (
            SELECT chunk_id, ROW_NUMBER() OVER (ORDER BY rank DESC) AS rnk FROM (
                SELECT c.id AS chunk_id,
                       ts_rank(c.content_tsv, plainto_tsquery('english', $2)) AS rank
                FROM file_chunks c
                JOIN indexed_files f ON f.id = c.file_id
                JOIN projects p ON p.id = f.project_id
                WHERE c.content_tsv @@ plainto_tsquery('english', $2)
                  AND ($4::text IS NULL OR f.language = $4)
                  AND ($5::text IS NULL OR p.name = $5)
                ORDER BY rank DESC
                LIMIT $3
            ) ll
        )",
    );
    let s = HYBRID_LEGS_4@;
    assert(all_sound(s, '6', 0, 710)) by {
        reveal_with_fuel(all_sound, 12);
    }
    lemma_all_sound(s, '6', 0, 710);
    assert(closed_use_at(s, '2', 278));
    assert(closed_use_at(s, '3', 30));
}

#[verifier::rlimit(50)]
proof fn lemma_fuse_three()
    ensures
        unmarked(HYBRID_FUSE_THREE@),
        closed(HYBRID_FUSE_THREE@, '7'),
        closed_use(HYBRID_FUSE_THREE@, '7'),
{
    reveal_strlit(
        ",
            sparse AS (
                SELECT chunk_id, ROW_NUMBER() OVER (ORDER BY dist) AS rnk FROM (
                    SELECT c.id AS chunk_id, (c.sparse_v2 <#> $7) AS dist
                    FROM file_chunks c
                    JOIN indexed_files f ON f.id = c.file_id
                    JOIN projects p ON p.id = f.project_id
                    WHERE c.sparse_v2 IS NOT NULL
                      AND ($4::text IS NULL OR f.language = $4)
                      AND ($5::text IS NULL OR p.name = $5)
                    ORDER BY c.sparse_v2 <#> $7
                    LIMIT $3
                ) ss
            ),
            fused AS (
                SELECT COALESCE(d.chunk_id, l.chunk_id, s.chunk_id) AS chunk_id,
                       (COALESCE(1.0 / (60.0 + d.rnk), 0.0)
                     + COALESCE(1.0 / (60.0 + l.rnk), 0.0)
                     + COALESCE(1.0 / (60.0 + s.rnk), 0.0))::float8 AS rrf
                FROM dense d
                FULL OUTER JOIN lexical l ON d.chunk_id = l.chunk_id
                FULL OUTER JOIN sparse s ON COALESCE(d.chunk_id, l.chunk_id) = s.chunk_id
            )
            ",
    );
    let s = HYBRID_FUSE_THREE@;
    assert(all_sound(s, '7', 0, 1139)) by {
        reveal_with_fuel(all_sound, 12);
    }
    lemma_all_sound(s, '7', 0, 1139);
    assert(closed_use_at(s, '7', 169));
}

#[verifier::rlimit(50)]
proof fn lemma_fuse_two()
    ensures
        unmarked(HYBRID_FUSE_TWO@),
        closed(HYBRID_FUSE_TWO@, '6'),
{
    reveal_strlit(
        ",
            fused AS (
                SELECT COALESCE(d.chunk_id, l.chunk_id) AS chunk_id,
                       (COALESCE(1.0 / (60.0 + d.rnk), 0.0)
                     + COALESCE(1.0 / (60.0 + l.rnk), 0.0))::float8 AS rrf
                FROM dense d
                FULL OUTER JOIN lexical l ON d.chunk_id = l.chunk_id
            )
            ",
    );
    let s = HYBRID_FUSE_TWO@;
    assert(all_sound(s, '6', 0, 353)) by {
        reveal_with_fuel(all_sound, 12);
    }
    lemma_all_sound(s, '6', 0, 353);
}

#[verifier::rlimit(50)]
proof fn lemma_ranking()
    ensures
        unmarked(HYBRID_RANKING@),
        HYBRID_RANKING@.len() >= 2,
        forall|k: int|
            0 <= k < HYBRID_RANKING@.len() - 2 ==> #[trigger] HYBRID_RANKING@[k] != '$',
        HYBRID_RANKING@[HYBRID_RANKING@.len() - 2] == '$',
        HYBRID_RANKING@[HYBRID_RANKING@.len() - 1] == '6',
{
    reveal_strlit(
        "SELECT f.path, f.relative_path, f.language,
               c.content AS chunk_content, c.start_line, c.end_line,
               fused.rrf AS score,
               p.name AS project_name,
               c.id AS chunk_id
        FROM fused
        JOIN file_chunks c ON c.id = fused.chunk_id
        JOIN indexed_files f ON f.id = c.file_id
        JOIN projects p ON p.id = f.project_id
        ORDER BY fused.rrf DESC
        LIMIT $6",
    );
    let s = HYBRID_RANKING@;
    // No number is at most zero, so no placeholder is accepted.
    assert(all_sound(s, '0', 0, 432)) by {
        reveal_with_fuel(all_sound, 12);
    }
    lemma_all_sound(s, '0', 0, 432);
    assert forall|k: int| 0 <= k < 432 implies #[trigger] s[k] != '$' by {
        assert(s[k] != 'X' && closed_at(s, '0', k));
    }
}

/// The column's name is all of the fused search's text that changes with it;
/// and where it holds no `$`, the text has the placeholders of arguments `1`
/// to `6`, with the sparse leg also that of `7`, and no other.
pub proof fn law_hybrid_text_depends_on_its_column(col: Seq<char>, with_sparse: bool)
    ensures
        hybrid_sql(col, with_sparse) == replaced(
            hybrid_sql("COLX"@, with_sparse),
            "COLX"@,
            col,
        ),
        !col.contains('$') ==> {
            let sql = hybrid_sql(col, with_sparse);
            &&& forall|d: char| '1' <= d <= '6' ==> #[trigger] uses(sql, d)
            &&& uses(sql, '7') <==> with_sparse
            &&& uses_only_to(
                sql,
                if with_sparse {
                    '7'
                } else {
                    '6'
                },
            )
        },
{
    lemma_legs_1();
    lemma_legs_2();
    lemma_legs_3();
    lemma_legs_4();
    lemma_fuse_three();
    lemma_fuse_two();
    lemma_ranking();
    lemma_substitution(col, with_sparse);
    if !col.contains('$') {
        lemma_placeholders(col, with_sparse);
    }
}

spec fn fuse(with_sparse: bool) -> Seq<char> {
    if with_sparse {
        HYBRID_FUSE_THREE@
    } else {
        HYBRID_FUSE_TWO@
    }
}

proof fn lemma_join_assoc(a: Seq<char>, b: Seq<char>, c: Seq<char>)
    ensures
        a + b + c == a + (b + c),
{
    assert(a + b + c =~= a + (b + c));
}

/// The text of the fused search, cut before and after each column name.
proof fn lemma_regrouped(x: Seq<char>, with_sparse: bool)
    ensures
        hybrid_sql(x, with_sparse) == ("WITH "@ + HYBRID_LEGS_1@) + x + (HYBRID_LEGS_2@ + x + (
        HYBRID_LEGS_3@ + x + (HYBRID_LEGS_4@ + fuse(with_sparse) + HYBRID_RANKING@))),
{
    let (w, a, b, c, d) = (
        "WITH "@,
        HYBRID_LEGS_1@,
        HYBRID_LEGS_2@,
        HYBRID_LEGS_3@,
        HYBRID_LEGS_4@,
    );
    let (f, r) = (fuse(with_sparse), HYBRID_RANKING@);
    let end = d + f + r;
    // Each step moves one more part to the right.
    lemma_join_assoc(w, a + x + b + x + c + x, d);
    lemma_join_assoc(w + (a + x + b + x + c + x), d, f);
    lemma_join_assoc(w + (a + x + b + x + c + x), d + f, r);
    lemma_join_assoc(w, a + x + b + x + c, x);
    lemma_join_assoc(w, a + x + b + x, c);
    lemma_join_assoc(w, a + x + b, x);
    lemma_join_assoc(w, a + x, b);
    lemma_join_assoc(w, a, x);
    lemma_join_assoc(w + a + x + b + x, c, x);
    lemma_join_assoc(w + a + x + b + x, c + x, end);
    lemma_join_assoc(w + a + x, b, x);
    lemma_join_assoc(w + a + x, b + x, c + x + end);
}

proof fn lemma_substitution(col: Seq<char>, with_sparse: bool)
    requires
        unmarked(HYBRID_LEGS_1@),
        unmarked(HYBRID_LEGS_2@),
        unmarked(HYBRID_LEGS_3@),
        unmarked(HYBRID_LEGS_4@),
        unmarked(HYBRID_FUSE_THREE@),
        unmarked(HYBRID_FUSE_TWO@),
        unmarked(HYBRID_RANKING@),
    ensures
        hybrid_sql(col, with_sparse) == replaced(
            hybrid_sql("COLX"@, with_sparse),
            "COLX"@,
            col,
        ),
{
    reveal_strlit("WITH ");
    let pat = "COLX"@;
    let first = "WITH "@ + HYBRID_LEGS_1@;
    let tail = HYBRID_LEGS_4@ + fuse(with_sparse) + HYBRID_RANKING@;
    assert(unmarked(first));
    assert(unmarked(tail)) by {
        assert forall|k: int| 0 <= k < tail.len() implies #[trigger] tail[k] != 'X' by {
            let m = HYBRID_LEGS_4@.len();
            let n = m + fuse(with_sparse).len();
            if k < m {
                assert(tail[k] == HYBRID_LEGS_4@[k]);
            } else if k < n {
                assert(tail[k] == fuse(with_sparse)[k - m]);
            } else {
                assert(tail[k] == HYBRID_RANKING@[k - n]);
            }
        }
    }
    let third = HYBRID_LEGS_3@ + pat + tail;
    let second = HYBRID_LEGS_2@ + pat + third;
    lemma_regrouped(pat, with_sparse);
    lemma_regrouped(col, with_sparse);
    lemma_first_mark(first, second, col);
    lemma_first_mark(HYBRID_LEGS_2@, third, col);
    lemma_first_mark(HYBRID_LEGS_3@, tail, col);
    lemma_unmarked_stays(tail, col);
}

proof fn lemma_placeholders(col: Seq<char>, with_sparse: bool)
    requires
        !col.contains('$'),
        closed(HYBRID_LEGS_1@, '6'),
        closed(HYBRID_LEGS_2@, '6'),
        closed(HYBRID_LEGS_3@, '6'),
        closed(HYBRID_LEGS_4@, '6'),
        closed(HYBRID_FUSE_THREE@, '7'),
        closed(HYBRID_FUSE_TWO@, '6'),
        closed_use(HYBRID_LEGS_2@, '1'),
        closed_use(HYBRID_LEGS_4@, '2'),
        closed_use(HYBRID_LEGS_4@, '3'),
        closed_use(HYBRID_LEGS_3@, '4'),
        closed_use(HYBRID_LEGS_3@, '5'),
        closed_use(HYBRID_FUSE_THREE@, '7'),
        HYBRID_RANKING@.len() >= 2,
        forall|k: int|
            0 <= k < HYBRID_RANKING@.len() - 2 ==> #[trigger] HYBRID_RANKING@[k] != '$',
        HYBRID_RANKING@[HYBRID_RANKING@.len() - 2] == '$',
        HYBRID_RANKING@[HYBRID_RANKING@.len() - 1] == '6',
    ensures
        forall|d: char| '1' <= d <= '6' ==> #[trigger] uses(hybrid_sql(col, with_sparse), d),
        uses(hybrid_sql(col, with_sparse), '7') <==> with_sparse,
        uses_only_to(
            hybrid_sql(col, with_sparse),
            if with_sparse {
                '7'
            } else {
                '6'
            },
        ),
{
    let last = if with_sparse {
        '7'
    } else {
        '6'
    };
    reveal_strlit("WITH ");
    assert(closed(col, '6')) by {
        assert forall|k: int| 0 <= k < col.len() && #[trigger] col[k] == '$' implies closed_at(
            col,
            '6',
            k,
        ) by {
            assert(col.contains('$'));
        }
    }
    assert(closed("WITH "@, '6'));
    let p1 = HYBRID_LEGS_1@ + col;
    let p2 = p1 + HYBRID_LEGS_2@;
    let p3 = p2 + col;
    let p4 = p3 + HYBRID_LEGS_3@;
    let p5 = p4 + col;
    let p6 = p5 + HYBRID_LEGS_4@;
    assert(p6 == hybrid_legs(col));
    let p7 = "WITH "@ + p6;
    let front = p7 + fuse(with_sparse);
    lemma_closed_join(HYBRID_LEGS_1@, col, '6');
    lemma_closed_join(p1, HYBRID_LEGS_2@, '6');
    lemma_closed_join(p2, col, '6');
    lemma_closed_join(p3, HYBRID_LEGS_3@, '6');
    lemma_closed_join(p4, col, '6');
    lemma_closed_join(p5, HYBRID_LEGS_4@, '6');
    lemma_closed_join("WITH "@, p6, '6');
    lemma_closed_rises(p7, '6', last);
    lemma_closed_join(p7, fuse(with_sparse), last);
    let sql = front + HYBRID_RANKING@;
    assert(sql == hybrid_sql(col, with_sparse));
    assert forall|d: char| closed_use(front, d) implies #[trigger] uses(sql, d) by {
        let k = choose|k: int| #[trigger] closed_use_at(front, d, k);
        assert(placeholder_at(sql, k, d));
    }
    assert forall|d: char| '1' <= d <= '6' implies #[trigger] uses(sql, d) by {
        if d == '6' {
            assert(placeholder_at(sql, sql.len() - 2, '6'));
        } else {
            lemma_use_join(p1, HYBRID_LEGS_2@, d);
            lemma_use_join(p2, col, d);
            lemma_use_join(p3, HYBRID_LEGS_3@, d);
            lemma_use_join(p4, col, d);
            lemma_use_join(p5, HYBRID_LEGS_4@, d);
            lemma_use_join("WITH "@, p6, d);
            lemma_use_join(p7, fuse(with_sparse), d);
            assert(d == '1' || d == '2' || d == '3' || d == '4' || d == '5');
        }
    }
    lemma_use_join(p7, fuse(with_sparse), '7');
    assert forall|i: int| 0 <= i < sql.len() && #[trigger] sql[i] == '$' implies i + 1 < sql.len()
        && '1' <= sql[i + 1] <= last && placeholder_at(sql, i, sql[i + 1]) by {
        if i < front.len() {
            assert(front[i] == '$');
            assert(closed_at(front, last, i));
        } else {
            let k = i - front.len();
            assert(HYBRID_RANKING@[k] == '$');
            assert(k >= HYBRID_RANKING@.len() - 2);
        }
    }
    if uses(sql, '7') {
        let i = choose|i: int| #[trigger] placeholder_at(sql, i, '7');
        assert(sql[i] == '$');
    }
}

} // verus!
