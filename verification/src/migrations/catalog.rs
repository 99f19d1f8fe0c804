//! Seeding of the tool catalog.
use vstd::prelude::*;

use crate::migrations::change::{changes, Change, ChangeView};

verus! {

/// All categories, then all cards: a card refers to its category.
pub open spec fn catalog(categories: int, tools: int) -> Seq<ChangeView> {
    Seq::new(categories as nat, |i: int| ChangeView::Category(i)) + Seq::new(
        tools as nat,
        |i: int| ChangeView::Tool(i),
    )
}

/// Inserts or updates the whole catalog, of `categories` categories and
/// `tools` cards.
pub fn seed_catalog(categories: usize, tools: usize) -> (r: Vec<Change>)
    ensures
        changes(r@) == catalog(categories as int, tools as int),
{
    let mut r: Vec<Change> = Vec::new();
    let mut i: usize = 0;
    while i < categories
        invariant
            i <= categories,
            changes(r@) =~= catalog(i as int, 0),
        decreases categories - i,
    {
        let ghost before = r@;
        r.push(Change::Category(i));
        assert(changes(r@) =~= changes(before).push(ChangeView::Category(i as int)));
        i = i + 1;
    }
    let mut j: usize = 0;
    while j < tools
        invariant
            j <= tools,
            changes(r@) =~= catalog(categories as int, j as int),
        decreases tools - j,
    {
        let ghost before = r@;
        r.push(Change::Tool(j));
        assert(changes(r@) =~= changes(before).push(ChangeView::Tool(j as int)));
        j = j + 1;
    }
    r
}

/// Every card of the catalog is written after all categories.
pub proof fn law_categories_come_first(categories: nat, tools: nat, c: int, t: int)
    requires
        0 <= c < categories + tools,
        0 <= t < categories + tools,
        catalog(categories as int, tools as int)[c] is Category,
        catalog(categories as int, tools as int)[t] is Tool,
    ensures
        c < t,
{
}

} // verus!
