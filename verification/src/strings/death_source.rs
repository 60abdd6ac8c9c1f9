//! Outer death templates, one per cause of death.
use vstd::prelude::*;

verus! {

use crate::strings::LocEntry;
use crate::strings::build_entries;
use crate::strings::entries_match;

/// Declared entries of this category.
pub const TABLE: [(&'static str, &'static str); 3] = [
    ("Player", "{0} by {1}'s {2}."),
    ("NPC", "{0} by {1}."),
    ("Projectile", "{0} by {1}."),
];

/// Builds this category's entry list.
pub fn get() -> (v: Vec<LocEntry>)
    ensures
        entries_match(v@, TABLE@),
{
    build_entries(&TABLE)
}

} // verus!
