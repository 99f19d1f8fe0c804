//! Mandates that hold everywhere.
use vstd::prelude::*;

use crate::migrations::change::{changes, check, checks, Change, ChangeView};

verus! {

/// The number of the step.
pub const GLOBAL_MANDATES: i32 = 65;

/// The name of the step.
pub const GLOBAL_MANDATES_NAME: &'static str = "durable_mandates_global_scope";

/// The changes of the step, in their order.
pub open spec fn steps() -> Seq<ChangeView> {
    seq![checks(
            "durable_mandates"@,
            "durable_mandates_scope_check"@,
            "scope IN ('global','project','workspace')"@,
        )]
}

/// Admits mandates of global scope beside those of a project or a workspace.
pub fn apply() -> (r: Vec<Change>)
    ensures
        changes(r@) == steps(),
{
    let r = vec![
        check(
            "durable_mandates",
            "durable_mandates_scope_check",
            "scope IN ('global','project','workspace')",
        ),
    ];
    assert(changes(r@) =~= steps());
    r
}

} // verus!
