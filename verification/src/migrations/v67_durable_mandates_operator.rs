//! Who wrote a mandate, and when it was retired.
use vstd::prelude::*;

use crate::migrations::change::{changes, run, runs, Change, ChangeView};

verus! {

/// The number of the step.
pub const DURABLE_MANDATES_OPERATOR: i32 = 67;

/// The name of the step.
pub const DURABLE_MANDATES_OPERATOR_NAME: &'static str = "durable_mandates_operator_columns";

pub const ADD_DURABLE_MANDATES_CREATED_BY: &'static str =
    "ALTER TABLE durable_mandates ADD COLUMN IF NOT EXISTS created_by TEXT";

pub const ADD_DURABLE_MANDATES_UPDATED_AT: &'static str =
    "ALTER TABLE durable_mandates ADD COLUMN IF NOT EXISTS updated_at TIMESTAMPTZ";

pub const ADD_DURABLE_MANDATES_RETIRED_AT: &'static str =
    "ALTER TABLE durable_mandates ADD COLUMN IF NOT EXISTS retired_at TIMESTAMPTZ";

/// The changes of the step, in their order.
pub open spec fn steps() -> Seq<ChangeView> {
    seq![
        runs(ADD_DURABLE_MANDATES_CREATED_BY@),
        runs(ADD_DURABLE_MANDATES_UPDATED_AT@),
        runs(ADD_DURABLE_MANDATES_RETIRED_AT@),
    ]
}

/// Adds the columns of provenance and retirement to durable mandates.
pub fn apply() -> (r: Vec<Change>)
    ensures
        changes(r@) == steps(),
{
    let r = vec![
        run(ADD_DURABLE_MANDATES_CREATED_BY),
        run(ADD_DURABLE_MANDATES_UPDATED_AT),
        run(ADD_DURABLE_MANDATES_RETIRED_AT),
    ];
    assert(changes(r@) =~= steps());
    r
}

} // verus!
