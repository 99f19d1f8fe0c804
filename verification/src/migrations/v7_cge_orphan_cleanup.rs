//! Removal of edges that lost their target file.
use vstd::prelude::*;

use crate::migrations::change::{changes, run, runs, Change, ChangeView};

verus! {

/// The number of the step.
pub const CGE_ORPHAN_CLEANUP_V1: i32 = 7;

/// The name of the step.
pub const CGE_ORPHAN_CLEANUP_V1_NAME: &'static str = "cge_orphan_cleanup_v1";

pub const DELETE_FROM_CODE_GRAPH_EDGES: &'static str = "DELETE FROM code_graph_edges
          WHERE target_file_id IS NULL AND target_raw IS NULL";

/// The changes of the step, in their order.
pub open spec fn steps() -> Seq<ChangeView> {
    seq![runs(DELETE_FROM_CODE_GRAPH_EDGES@)]
}

/// Deletes the edges of the code graph that have neither a target file nor an
/// import text. Unresolved imports stay.
pub fn apply() -> (r: Vec<Change>)
    ensures
        changes(r@) == steps(),
{
    let r = vec![
        run(DELETE_FROM_CODE_GRAPH_EDGES),
    ];
    assert(changes(r@) =~= steps());
    r
}

} // verus!
