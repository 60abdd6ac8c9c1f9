//! Display names of items.
use vstd::prelude::*;

verus! {

use crate::strings::LocEntry;
use crate::strings::build_entries;
use crate::strings::entries_match;

/// Declared entries of this category.
pub const TABLE: [(&'static str, &'static str); 3] = [
    ("CopperShortsword", "Copper Shortsword"),
    ("IronShortsword", "Iron Shortsword"),
    ("WoodenSword", "Wooden Sword"),
];

/// Builds this category's entry list.
pub fn get() -> (v: Vec<LocEntry>)
    ensures
        entries_match(v@, TABLE@),
{
    build_entries(&TABLE)
}

} // verus!
