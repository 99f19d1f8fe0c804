//! What the clauses that hide copies of a file have in common.
use vstd::prelude::*;

use crate::queries::data_tables::placeholder;
use crate::queries::dedup::{dedup_clause, DEDUP_3, DEDUP_4, DEDUP_5};
use crate::queries::hybrid_laws::replaced;
use crate::text::{digit, digits};

verus! {

/// The clause with a text in the place of its only placeholder.
pub open spec fn dedup_with(p: Seq<char>) -> Seq<char> {
    "(NOT "@ + p + DEDUP_3@.skip(7)
}

/// Whether two texts agree from `lo` to `hi` and have no `$` there, by halves.
spec fn agree(a: Seq<char>, b: Seq<char>, lo: int, hi: int) -> bool
    decreases hi - lo,
{
    if hi <= lo {
        true
    } else if hi == lo + 1 {
        a[lo] == b[lo] && a[lo] != '$'
    } else {
        let mid = lo + (hi - lo) / 2;
        agree(a, b, lo, mid) && agree(a, b, mid, hi)
    }
}

proof fn lemma_agree(a: Seq<char>, b: Seq<char>, lo: int, hi: int)
    requires
        0 <= lo <= hi,
        agree(a, b, lo, hi),
    ensures
        forall|k: int| lo <= k < hi ==> #[trigger] a[k] == b[k] && a[k] != '$',
    decreases hi - lo,
{
    if hi > lo + 1 {
        let mid = lo + (hi - lo) / 2;
        lemma_agree(a, b, lo, mid);
        lemma_agree(a, b, mid, hi);
        assert forall|k: int| lo <= k < hi implies #[trigger] a[k] == b[k] && a[k] != '$' by {
            assert(k < mid || mid <= k);
        }
    }
}

proof fn lemma_placeholder(n: nat)
    requires
        n < 10,
    ensures
        placeholder(n) == seq!['$', digit(n as int)],
{
    reveal_strlit("$");
    reveal_with_fuel(digits, 2);
    assert(placeholder(n) =~= seq!['$', digit(n as int)]);
}

#[verifier::rlimit(50)]
proof fn lemma_third()
    ensures
        DEDUP_3@.len() == 578,
        DEDUP_3@.take(23) == "(NOT $3 OR NOT EXISTS ("@,
        forall|k: int| 7 <= k < 578 ==> #[trigger] DEDUP_3@[k] != '$',
{
    reveal_strlit(
        "(NOT $3 OR NOT EXISTS (
    SELECT 1 FROM projects p_dup
    JOIN indexed_files f_dup ON f_dup.project_id = p_dup.id
    JOIN projects p_self ON p_self.id = f.project_id
    WHERE p_dup.id < p_self.id
      AND f_dup.relative_path = f.relative_path
      AND (
          (p_dup.git_common_dir IS NOT NULL AND p_self.git_common_dir IS NOT NULL
           AND p_dup.git_common_dir = p_self.git_common_dir)
          OR
          (p_dup.git_root_commits IS NOT NULL AND p_self.git_root_commits IS NOT NULL
           AND p_dup.git_root_commits = p_self.git_root_commits)
      )
))",
    );
    reveal_strlit("(NOT $3 OR NOT EXISTS (");
    let s = DEDUP_3@;
    assert(s.take(23) =~= "(NOT $3 OR NOT EXISTS ("@);
    assert(agree(s, s, 7, 578)) by {
        reveal_with_fuel(agree, 12);
    }
    lemma_agree(s, s, 7, 578);
}

#[verifier::rlimit(50)]
proof fn lemma_fourth()
    ensures
        DEDUP_4@.len() == 578,
        DEDUP_4@.take(7) == "(NOT $4"@,
        DEDUP_4@.skip(7) == DEDUP_3@.skip(7),
{
    reveal_strlit(
        "(NOT $3 OR NOT EXISTS (
    SELECT 1 FROM projects p_dup
    JOIN indexed_files f_dup ON f_dup.project_id = p_dup.id
    JOIN projects p_self ON p_self.id = f.project_id
    WHERE p_dup.id < p_self.id
      AND f_dup.relative_path = f.relative_path
      AND (
          (p_dup.git_common_dir IS NOT NULL AND p_self.git_common_dir IS NOT NULL
           AND p_dup.git_common_dir = p_self.git_common_dir)
          OR
          (p_dup.git_root_commits IS NOT NULL AND p_self.git_root_commits IS NOT NULL
           AND p_dup.git_root_commits = p_self.git_root_commits)
      )
))",
    );
    reveal_strlit(
        "(NOT $4 OR NOT EXISTS (
    SELECT 1 FROM projects p_dup
    JOIN indexed_files f_dup ON f_dup.project_id = p_dup.id
    JOIN projects p_self ON p_self.id = f.project_id
    WHERE p_dup.id < p_self.id
      AND f_dup.relative_path = f.relative_path
      AND (
          (p_dup.git_common_dir IS NOT NULL AND p_self.git_common_dir IS NOT NULL
           AND p_dup.git_common_dir = p_self.git_common_dir)
          OR
          (p_dup.git_root_commits IS NOT NULL AND p_self.git_root_commits IS NOT NULL
           AND p_dup.git_root_commits = p_self.git_root_commits)
      )
))",
    );
    reveal_strlit("(NOT $4");
    let a = DEDUP_3@;
    let b = DEDUP_4@;
    assert(b.take(7) =~= "(NOT $4"@);
    assert(agree(a, b, 7, 578)) by {
        reveal_with_fuel(agree, 12);
    }
    lemma_agree(a, b, 7, 578);
    assert(b.skip(7) =~= a.skip(7)) by {
        assert forall|k: int| 0 <= k < 578 - 7 implies b.skip(7)[k] == a.skip(7)[k] by {
            assert(a[k + 7] == b[k + 7]);
        }
    }
}

#[verifier::rlimit(50)]
proof fn lemma_fifth()
    ensures
        DEDUP_5@.len() == 578,
        DEDUP_5@.take(7) == "(NOT $5"@,
        DEDUP_5@.skip(7) == DEDUP_3@.skip(7),
{
    reveal_strlit(
        "(NOT $3 OR NOT EXISTS (
    SELECT 1 FROM projects p_dup
    JOIN indexed_files f_dup ON f_dup.project_id = p_dup.id
    JOIN projects p_self ON p_self.id = f.project_id
    WHERE p_dup.id < p_self.id
      AND f_dup.relative_path = f.relative_path
      AND (
          (p_dup.git_common_dir IS NOT NULL AND p_self.git_common_dir IS NOT NULL
           AND p_dup.git_common_dir = p_self.git_common_dir)
          OR
          (p_dup.git_root_commits IS NOT NULL AND p_self.git_root_commits IS NOT NULL
           AND p_dup.git_root_commits = p_self.git_root_commits)
      )
))",
    );
    reveal_strlit(
        "(NOT $5 OR NOT EXISTS (
    SELECT 1 FROM projects p_dup
    JOIN indexed_files f_dup ON f_dup.project_id = p_dup.id
    JOIN projects p_self ON p_self.id = f.project_id
    WHERE p_dup.id < p_self.id
      AND f_dup.relative_path = f.relative_path
      AND (
          (p_dup.git_common_dir IS NOT NULL AND p_self.git_common_dir IS NOT NULL
           AND p_dup.git_common_dir = p_self.git_common_dir)
          OR
          (p_dup.git_root_commits IS NOT NULL AND p_self.git_root_commits IS NOT NULL
           AND p_dup.git_root_commits = p_self.git_root_commits)
      )
))",
    );
    reveal_strlit("(NOT $5");
    let a = DEDUP_3@;
    let b = DEDUP_5@;
    assert(b.take(7) =~= "(NOT $5"@);
    assert(agree(a, b, 7, 578)) by {
        reveal_with_fuel(agree, 12);
    }
    lemma_agree(a, b, 7, 578);
    assert(b.skip(7) =~= a.skip(7)) by {
        assert forall|k: int| 0 <= k < 578 - 7 implies b.skip(7)[k] == a.skip(7)[k] by {
            assert(a[k + 7] == b[k + 7]);
        }
    }
}

proof fn lemma_unmarked_stays(a: Seq<char>, pat: Seq<char>, by: Seq<char>)
    requires
        pat.len() > 0,
        pat[0] == '$',
        forall|k: int| 0 <= k < a.len() ==> #[trigger] a[k] != '$',
    ensures
        replaced(a, pat, by) == a,
    decreases a.len(),
{
    if a.len() > 0 {
        if pat.is_prefix_of(a) {
            assert(a[0] == pat[0]);
        }
        lemma_unmarked_stays(a.skip(1), pat, by);
        assert(seq![a[0]] + a.skip(1) =~= a);
    }
}

proof fn lemma_first_mark(a: Seq<char>, rest: Seq<char>, pat: Seq<char>, by: Seq<char>)
    requires
        pat.len() > 0,
        pat[0] == '$',
        forall|k: int| 0 <= k < a.len() ==> #[trigger] a[k] != '$',
    ensures
        replaced(a + pat + rest, pat, by) == a + by + replaced(rest, pat, by),
    decreases a.len(),
{
    let whole = a + pat + rest;
    if a.len() == 0 {
        assert(whole =~= pat + rest);
        assert(whole.subrange(0, pat.len() as int) =~= pat);
        assert(whole.skip(pat.len() as int) =~= rest);
        assert(a + by =~= by);
    } else {
        assert(whole[0] == a[0]);
        if pat.is_prefix_of(whole) {
            assert(whole[0] == pat[0]);
        }
        lemma_first_mark(a.skip(1), rest, pat, by);
        assert(whole.skip(1) =~= a.skip(1) + pat + rest);
        assert(seq![a[0]] + (a.skip(1) + by + replaced(rest, pat, by)) =~= a + by + replaced(
            rest,
            pat,
            by,
        ));
    }
}

/// The clauses differ in nothing but the number of their placeholder: each is
/// one common text with its placeholder put in, has no other placeholder, and
/// is what the clause for the third argument becomes when the placeholder is
/// replaced there.
pub proof fn law_clauses_differ_in_their_placeholder(idx: nat)
    requires
        3 <= idx <= 5,
    ensures
        dedup_clause(idx as int) == dedup_with(placeholder(idx)),
        ("(NOT "@ + placeholder(idx) + " OR NOT EXISTS ("@).is_prefix_of(dedup_clause(idx as int)),
        forall|k: int|
            0 <= k < dedup_clause(idx as int).len() && #[trigger] dedup_clause(idx as int)[k] == '$'
                ==> k == 5,
        replaced(dedup_clause(3), placeholder(3), placeholder(idx)) == dedup_clause(idx as int),
{
    lemma_third();
    lemma_fourth();
    lemma_fifth();
    lemma_placeholder(idx);
    lemma_placeholder(3);
    reveal_strlit("(NOT ");
    reveal_strlit(" OR NOT EXISTS (");
    reveal_strlit("(NOT $3 OR NOT EXISTS (");
    reveal_strlit("(NOT $4");
    reveal_strlit("(NOT $5");
    let s = dedup_clause(idx as int);
    let third = DEDUP_3@;
    let tail = third.skip(7);
    let opening = "(NOT "@ + placeholder(idx) + " OR NOT EXISTS ("@;
    assert(third.take(7) =~= third.take(23).take(7));
    assert(s.skip(7) =~= tail);
    assert(s =~= s.take(7) + s.skip(7));
    assert(s.take(7) =~= "(NOT "@ + placeholder(idx));
    assert(s =~= dedup_with(placeholder(idx)));
    assert(third =~= third.take(7) + tail);
    assert(third.take(7) =~= "(NOT "@ + placeholder(3));
    assert(third =~= "(NOT "@ + placeholder(3) + tail);
    assert forall|k: int| 0 <= k < tail.len() implies #[trigger] tail[k] != '$' by {
        assert(third[k + 7] != '$');
    }
    assert(tail.take(16) =~= third.take(23).skip(7));
    assert(tail.take(16) =~= " OR NOT EXISTS ("@);
    assert(s.take(23) =~= s.take(7) + tail.take(16));
    assert(s.subrange(0, opening.len() as int) =~= opening);
    assert forall|k: int| 0 <= k < s.len() && #[trigger] s[k] == '$' implies k == 5 by {
        if k >= 7 {
            assert(tail[k - 7] == s[k]);
        } else {
            assert(s.take(7)[k] == s[k]);
        }
    }
    lemma_first_mark("(NOT "@, tail, placeholder(3), placeholder(idx));
    lemma_unmarked_stays(tail, placeholder(3), placeholder(idx));
}

} // verus!
