//! World-event announcements (boss arrivals and defeats).
use vstd::prelude::*;

verus! {

use crate::strings::LocEntry;
use crate::strings::build_entries;
use crate::strings::entries_match;

/// Declared entries of this category.
pub const TABLE: [(&'static str, &'static str); 4] = [
    ("HasBeenDefeated_Single", "{0} has been defeated!"),
    ("HasBeenDefeated_Plural", "{0} have been defeated!"),
    ("HasAwoken", "{0} has awoken!"),
    ("HasArrived", "{0} has arrived!"),
];

/// Builds this category's entry list.
pub fn get() -> (v: Vec<LocEntry>)
    ensures
        entries_match(v@, TABLE@),
{
    build_entries(&TABLE)
}

} // verus!
