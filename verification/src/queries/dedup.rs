//! The clause that hides copies of a file in sibling worktrees.
use vstd::prelude::*;

verus! {

pub const DEDUP_3: &'static str = "(NOT $3 OR NOT EXISTS (
    SELECT 1 FROM projects p_dup
    JOIN indexed_files f_dup ON f_dup.project_id = p_dup.id
    JOIN projects p_self ON p_self.id = f.project_id
    WHERE p_dup.id < p_self.id
      AND f_dup.relative_path = f.relative_path
      AND (
          (p_dup.git_common_dir IS NOT NULL AND p_self.git_common_dir IS NOT NULL
           AND p_dup.git_common_dir = p_self.git_common_dir)
          OR
          (p_dup.git_root_commits IS NOT NULL AND p_self.git_root_commits IS NOT NULL
           AND p_dup.git_root_commits = p_self.git_root_commits)
      )
))";

pub const DEDUP_4: &'static str = "(NOT $4 OR NOT EXISTS (
    SELECT 1 FROM projects p_dup
    JOIN indexed_files f_dup ON f_dup.project_id = p_dup.id
    JOIN projects p_self ON p_self.id = f.project_id
    WHERE p_dup.id < p_self.id
      AND f_dup.relative_path = f.relative_path
      AND (
          (p_dup.git_common_dir IS NOT NULL AND p_self.git_common_dir IS NOT NULL
           AND p_dup.git_common_dir = p_self.git_common_dir)
          OR
          (p_dup.git_root_commits IS NOT NULL AND p_self.git_root_commits IS NOT NULL
           AND p_dup.git_root_commits = p_self.git_root_commits)
      )
))";

pub const DEDUP_5: &'static str = "(NOT $5 OR NOT EXISTS (
    SELECT 1 FROM projects p_dup
    JOIN indexed_files f_dup ON f_dup.project_id = p_dup.id
    JOIN projects p_self ON p_self.id = f.project_id
    WHERE p_dup.id < p_self.id
      AND f_dup.relative_path = f.relative_path
      AND (
          (p_dup.git_common_dir IS NOT NULL AND p_self.git_common_dir IS NOT NULL
           AND p_dup.git_common_dir = p_self.git_common_dir)
          OR
          (p_dup.git_root_commits IS NOT NULL AND p_self.git_root_commits IS NOT NULL
           AND p_dup.git_root_commits = p_self.git_root_commits)
      )
))";

/// The clause whose flag is the argument with number `idx`.
pub open spec fn dedup_clause(idx: int) -> Seq<char> {
    if idx == 3 {
        DEDUP_3@
    } else if idx == 4 {
        DEDUP_4@
    } else {
        DEDUP_5@
    }
}

/// The clause whose flag is the argument with number `idx`, the third to the
/// fifth: where the flag is set, a row is dropped when a sibling worktree
/// with a lower id holds a file with the same relative path.
pub fn worktree_dedup_clause(idx: u8) -> (r: &'static str)
    requires
        3 <= idx <= 5,
    ensures
        r@ == dedup_clause(idx as int),
{
    if idx == 3 {
        DEDUP_3
    } else if idx == 4 {
        DEDUP_4
    } else {
        DEDUP_5
    }
}

} // verus!
