//! A further source of file events.
use vstd::prelude::*;

use crate::migrations::change::{changes, check, checks, one_of, write_one_of, Change, ChangeView};

verus! {

/// The number of the step.
pub const PRELOAD_SOURCE_V1: i32 = 62;

/// The name of the step.
pub const PRELOAD_SOURCE_V1_NAME: &'static str = "preload_source_v1";

/// The changes of the step, in their order.
pub open spec fn steps(sources: Seq<char>) -> Seq<ChangeView> {
    seq![checks(
            "client_file_events"@,
            "client_file_events_source_check"@,
            one_of("source"@, sources),
        )]
}

/// Widens the constraint on where a file event comes from.
pub fn apply(sources: &str) -> (r: Vec<Change>)
    ensures
        changes(r@) == steps(sources@),
{
    let r = vec![
        check(
            "client_file_events",
            "client_file_events_source_check",
            write_one_of("source", sources).as_str(),
        ),
    ];
    assert(changes(r@) =~= steps(sources@));
    r
}

} // verus!
