//! What the statements of `dedup` say.
use vstd::prelude::*;

use crate::meaning::{ends_plainly, mentions, part_at, says};
use crate::queries::dedup::{DEDUP_3, DEDUP_4, DEDUP_5};

verus! {

/// What the text of [`DEDUP_3`] says.
#[verifier::rlimit(50)]
pub proof fn dedup_3_text()
    ensures
        mentions(DEDUP_3@, "(NOT "@, 3),
        says(DEDUP_3@, "WHERE p_dup.id < p_self.id"@),
        says(DEDUP_3@, "AND f_dup.relative_path = f.relative_path"@),
        says(DEDUP_3@, "AND p_dup.git_common_dir = p_self.git_common_dir)"@),
        says(DEDUP_3@, "AND p_dup.git_root_commits = p_self.git_root_commits)"@),
        says(DEDUP_3@, "FROM projects"@),
        says(DEDUP_3@, "JOIN indexed_files f_dup ON f_dup.project_id = p_dup.id"@),
        says(DEDUP_3@, "JOIN projects p_self ON p_self.id = f.project_id"@),
        ends_plainly(DEDUP_3@),
{
    reveal_strlit(
        "(NOT $3 OR NOT EXISTS (
    SELECT 1 FROM projects p_dup
    JOIN indexed_files f_dup ON f_dup.project_id = p_dup.id
    JOIN projects p_self ON p_self.id = f.project_id
    WHERE p_dup.id < p_self.id
      AND f_dup.relative_path = f.relative_path
      AND (
          (p_dup.git_common_dir IS NOT NULL AND p_self.git_common_dir IS NOT NULL
           AND p_dup.git_common_dir = p_self.git_common_dir)
          OR
          (p_dup.git_root_commits IS NOT NULL AND p_self.git_root_commits IS NOT NULL
           AND p_dup.git_root_commits = p_self.git_root_commits)
      )
))",
    );
    reveal_strlit("(NOT ");
    reveal_strlit("AND f_dup.relative_path = f.relative_path");
    reveal_strlit("AND p_dup.git_common_dir = p_self.git_common_dir)");
    reveal_strlit("AND p_dup.git_root_commits = p_self.git_root_commits)");
    reveal_strlit("FROM projects");
    reveal_strlit("JOIN indexed_files f_dup ON f_dup.project_id = p_dup.id");
    reveal_strlit("JOIN projects p_self ON p_self.id = f.project_id");
    reveal_strlit("WHERE p_dup.id < p_self.id");
    let t = DEDUP_3@;
    assert(part_at(t, 0, "(NOT "@));
    assert(part_at(t, 174, "WHERE p_dup.id < p_self.id"@));
    assert(part_at(t, 207, "AND f_dup.relative_path = f.relative_path"@));
    assert(part_at(t, 354, "AND p_dup.git_common_dir = p_self.git_common_dir)"@));
    assert(part_at(t, 514, "AND p_dup.git_root_commits = p_self.git_root_commits)"@));
    assert(part_at(t, 37, "FROM projects"@));
    assert(part_at(t, 61, "JOIN indexed_files f_dup ON f_dup.project_id = p_dup.id"@));
    assert(part_at(t, 121, "JOIN projects p_self ON p_self.id = f.project_id"@));
}

/// What the text of [`DEDUP_4`] says.
#[verifier::rlimit(50)]
pub proof fn dedup_4_text()
    ensures
        mentions(DEDUP_4@, "(NOT "@, 4),
        says(DEDUP_4@, "WHERE p_dup.id < p_self.id"@),
        says(DEDUP_4@, "AND f_dup.relative_path = f.relative_path"@),
        says(DEDUP_4@, "AND p_dup.git_common_dir = p_self.git_common_dir)"@),
        says(DEDUP_4@, "AND p_dup.git_root_commits = p_self.git_root_commits)"@),
        says(DEDUP_4@, "FROM projects"@),
        says(DEDUP_4@, "JOIN indexed_files f_dup ON f_dup.project_id = p_dup.id"@),
        says(DEDUP_4@, "JOIN projects p_self ON p_self.id = f.project_id"@),
        ends_plainly(DEDUP_4@),
{
    reveal_strlit(
        "(NOT $4 OR NOT EXISTS (
    SELECT 1 FROM projects p_dup
    JOIN indexed_files f_dup ON f_dup.project_id = p_dup.id
    JOIN projects p_self ON p_self.id = f.project_id
    WHERE p_dup.id < p_self.id
      AND f_dup.relative_path = f.relative_path
      AND (
          (p_dup.git_common_dir IS NOT NULL AND p_self.git_common_dir IS NOT NULL
           AND p_dup.git_common_dir = p_self.git_common_dir)
          OR
          (p_dup.git_root_commits IS NOT NULL AND p_self.git_root_commits IS NOT NULL
           AND p_dup.git_root_commits = p_self.git_root_commits)
      )
))",
    );
    reveal_strlit("(NOT ");
    reveal_strlit("AND f_dup.relative_path = f.relative_path");
    reveal_strlit("AND p_dup.git_common_dir = p_self.git_common_dir)");
    reveal_strlit("AND p_dup.git_root_commits = p_self.git_root_commits)");
    reveal_strlit("FROM projects");
    reveal_strlit("JOIN indexed_files f_dup ON f_dup.project_id = p_dup.id");
    reveal_strlit("JOIN projects p_self ON p_self.id = f.project_id");
    reveal_strlit("WHERE p_dup.id < p_self.id");
    let t = DEDUP_4@;
    assert(part_at(t, 0, "(NOT "@));
    assert(part_at(t, 174, "WHERE p_dup.id < p_self.id"@));
    assert(part_at(t, 207, "AND f_dup.relative_path = f.relative_path"@));
    assert(part_at(t, 354, "AND p_dup.git_common_dir = p_self.git_common_dir)"@));
    assert(part_at(t, 514, "AND p_dup.git_root_commits = p_self.git_root_commits)"@));
    assert(part_at(t, 37, "FROM projects"@));
    assert(part_at(t, 61, "JOIN indexed_files f_dup ON f_dup.project_id = p_dup.id"@));
    assert(part_at(t, 121, "JOIN projects p_self ON p_self.id = f.project_id"@));
}

/// What the text of [`DEDUP_5`] says.
#[verifier::rlimit(50)]
pub proof fn dedup_5_text()
    ensures
        mentions(DEDUP_5@, "(NOT "@, 5),
        says(DEDUP_5@, "WHERE p_dup.id < p_self.id"@),
        says(DEDUP_5@, "AND f_dup.relative_path = f.relative_path"@),
        says(DEDUP_5@, "AND p_dup.git_common_dir = p_self.git_common_dir)"@),
        says(DEDUP_5@, "AND p_dup.git_root_commits = p_self.git_root_commits)"@),
        says(DEDUP_5@, "FROM projects"@),
        says(DEDUP_5@, "JOIN indexed_files f_dup ON f_dup.project_id = p_dup.id"@),
        says(DEDUP_5@, "JOIN projects p_self ON p_self.id = f.project_id"@),
        ends_plainly(DEDUP_5@),
{
    reveal_strlit(
        "(NOT $5 OR NOT EXISTS (
    SELECT 1 FROM projects p_dup
    JOIN indexed_files f_dup ON f_dup.project_id = p_dup.id
    JOIN projects p_self ON p_self.id = f.project_id
    WHERE p_dup.id < p_self.id
      AND f_dup.relative_path = f.relative_path
      AND (
          (p_dup.git_common_dir IS NOT NULL AND p_self.git_common_dir IS NOT NULL
           AND p_dup.git_common_dir = p_self.git_common_dir)
          OR
          (p_dup.git_root_commits IS NOT NULL AND p_self.git_root_commits IS NOT NULL
           AND p_dup.git_root_commits = p_self.git_root_commits)
      )
))",
    );
    reveal_strlit("(NOT ");
    reveal_strlit("AND f_dup.relative_path = f.relative_path");
    reveal_strlit("AND p_dup.git_common_dir = p_self.git_common_dir)");
    reveal_strlit("AND p_dup.git_root_commits = p_self.git_root_commits)");
    reveal_strlit("FROM projects");
    reveal_strlit("JOIN indexed_files f_dup ON f_dup.project_id = p_dup.id");
    reveal_strlit("JOIN projects p_self ON p_self.id = f.project_id");
    reveal_strlit("WHERE p_dup.id < p_self.id");
    let t = DEDUP_5@;
    assert(part_at(t, 0, "(NOT "@));
    assert(part_at(t, 174, "WHERE p_dup.id < p_self.id"@));
    assert(part_at(t, 207, "AND f_dup.relative_path = f.relative_path"@));
    assert(part_at(t, 354, "AND p_dup.git_common_dir = p_self.git_common_dir)"@));
    assert(part_at(t, 514, "AND p_dup.git_root_commits = p_self.git_root_commits)"@));
    assert(part_at(t, 37, "FROM projects"@));
    assert(part_at(t, 61, "JOIN indexed_files f_dup ON f_dup.project_id = p_dup.id"@));
    assert(part_at(t, 121, "JOIN projects p_self ON p_self.id = f.project_id"@));
}

} // verus!
