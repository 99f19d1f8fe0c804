//! Cards for DisCoPy in the tool catalog.
use vstd::prelude::*;

use crate::migrations::catalog::{catalog, seed_catalog};
use crate::migrations::change::{changes, Change};

verus! {

/// The number of the step.
pub const TOOLBOX_DISCOPY: i32 = 70;

/// The name of the step.
pub const TOOLBOX_DISCOPY_NAME: &'static str = "toolbox_discopy";

/// Writes the bundled catalog over the stored one, so that installations
/// that already have a catalog get the new cards.
pub fn apply(categories: usize, tools: usize) -> (r: Vec<Change>)
    ensures
        changes(r@) == catalog(categories as int, tools as int),
{
    seed_catalog(categories, tools)
}

} // verus!
