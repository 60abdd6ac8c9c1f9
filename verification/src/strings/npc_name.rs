//! Display names of non-player characters.
use vstd::prelude::*;

verus! {

use crate::strings::LocEntry;
use crate::strings::build_entries;
use crate::strings::entries_match;

/// Declared entries of this category.
pub const TABLE: [(&'static str, &'static str); 6] = [
    ("WallofFlesh", "Wall of Flesh"),
    ("TravellingMerchant", "Traveling Merchant"),
    ("BlueSlime", "Blue Slime"),
    ("GreenSlime", "Green Slime"),
    ("KingSlime", "King Slime"),
    ("EyeofCthulhu", "Eye of Cthulhu"),
];

/// Builds this category's entry list.
pub fn get() -> (v: Vec<LocEntry>)
    ensures
        entries_match(v@, TABLE@),
{
    build_entries(&TABLE)
}

} // verus!
