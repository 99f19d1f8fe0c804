//! Cards for the Wolfram language in the tool catalog.
use vstd::prelude::*;

use crate::migrations::catalog::{catalog, seed_catalog};
use crate::migrations::change::{changes, Change};

verus! {

/// The number of the step.
pub const TOOLBOX_WOLFRAM: i32 = 63;

/// The name of the step.
pub const TOOLBOX_WOLFRAM_NAME: &'static str = "toolbox_wolfram";

/// Writes the bundled catalog over the stored one, so that installations
/// that already have a catalog get the new cards.
pub fn apply(categories: usize, tools: usize) -> (r: Vec<Change>)
    ensures
        changes(r@) == catalog(categories as int, tools as int),
{
    seed_catalog(categories, tools)
}

} // verus!
