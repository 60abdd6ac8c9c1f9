//! The localization table: a two-level lookup from category name and key to
//! a template string, assembled once at startup and immutable afterwards.
//!
//! Keys of the form `"Category.Key"` are resolved by splitting at the first
//! `.`; a miss at either level is reported as `None`.
pub mod announcement;
pub mod death_source;
pub mod death_text;
pub mod death_text_generic;
pub mod game;
pub mod item_name;
pub mod legacy_misc;
pub mod legacy_multiplayer;
pub mod misc;
pub mod npc_name;

use vstd::prelude::*;

verus! {

use vstd::string::StringSliceAdditionalSpecFns;
use crate::bytestr::find_spec;
use crate::bytestr::find_first;
use crate::bytestr::bytes_eq;
use crate::bytestr::to_vec;

/// One localization entry: a key and its template text, both UTF-8 bytes.
pub struct LocEntry {
    pub key: Vec<u8>,
    pub text: Vec<u8>,
}

/// One category of the table, holding its entries in declaration order.
pub struct LocCategory {
    pub name: Vec<u8>,
    pub entries: Vec<LocEntry>,
}

/// The whole two-level table.
pub struct LocTable {
    pub cats: Vec<LocCategory>,
}

/// The built entries carry exactly the keys and texts of the declared
/// pairs, in order.
pub open spec fn entries_match(v: Seq<LocEntry>, p: Seq<(&str, &str)>) -> bool {
    &&& v.len() == p.len()
    &&& forall|i: int|
        0 <= i < v.len() ==> #[trigger] v[i].key@ == p[i].0.spec_bytes() && v[i].text@
            == p[i].1.spec_bytes()
}

/// Builds the entry list of one category from its declared pairs.
pub fn build_entries<const N: usize>(pairs: &[(&'static str, &'static str); N]) -> (v: Vec<
    LocEntry,
>)
    ensures
        entries_match(v@, pairs@),
{
    let mut v: Vec<LocEntry> = Vec::new();
    let mut j: usize = 0;
    while j < N
        invariant
            j <= N,
            v@.len() == j,
            forall|i: int|
                0 <= i < j ==> #[trigger] v@[i].key@ == pairs@[i].0.spec_bytes() && v@[i].text@
                    == pairs@[i].1.spec_bytes(),
        decreases N - j,
    {
        let p = pairs[j];
        let e = LocEntry { key: to_vec(p.0.as_bytes()), text: to_vec(p.1.as_bytes()) };
        v.push(e);
        j += 1;
    }
    v
}

/// Text of the first entry at or after `i` whose key is `key`, if any.
pub open spec fn entries_lookup_from(es: Seq<LocEntry>, key: Seq<u8>, i: int) -> Option<Seq<u8>>
    decreases es.len() + 1 - i,
{
    if i < 0 || i >= es.len() {
        None
    } else if es[i].key@ == key {
        Some(es[i].text@)
    } else {
        entries_lookup_from(es, key, i + 1)
    }
}

/// Entries of the first category at or after `i` named `name`, if any.
pub open spec fn cats_lookup_from(cats: Seq<LocCategory>, name: Seq<u8>, i: int) -> Option<
    Seq<LocEntry>,
>
    decreases cats.len() + 1 - i,
{
    if i < 0 || i >= cats.len() {
        None
    } else if cats[i].name@ == name {
        Some(cats[i].entries@)
    } else {
        cats_lookup_from(cats, name, i + 1)
    }
}

/// Two-level lookup: category name, then key within the category.
pub open spec fn table_lookup(t: LocTable, cat: Seq<u8>, key: Seq<u8>) -> Option<Seq<u8>> {
    match cats_lookup_from(t.cats@, cat, 0) {
        None => None,
        Some(es) => entries_lookup_from(es, key, 0),
    }
}

/// Lookup of a dotted key `"Category.Key"`, split at the first `.`; a key
/// without a dot resolves to nothing.
pub open spec fn dotted_lookup(t: LocTable, s: Seq<u8>) -> Option<Seq<u8>> {
    match find_spec(s, seq![46u8]) {
        None => None,
        Some(i) => table_lookup(t, s.subrange(0, i), s.subrange(i + 1, s.len() as int)),
    }
}

/// The single byte `.` used to split dotted keys.
fn dot_pattern() -> (v: &'static [u8])
    ensures
        v@ == seq![46u8],
{
    let v = ".".as_bytes();
    proof {
        reveal_strlit(".");
        assert(vstd::string::is_ascii(".")) by {
            assert(forall|i: int| 0 <= i < "."@.len() ==> ("."@[i] as u32) < 128);
        }
        vstd::string::is_ascii_spec_bytes(".");
        assert(v@ =~= seq![46u8]);
    }
    v
}

/// Text stored under the key `key` in the category entries `es`, if any.
fn entries_get(es: &Vec<LocEntry>, key: &[u8]) -> (r: Option<Vec<u8>>)
    ensures
        match r {
            Some(v) => entries_lookup_from(es@, key@, 0) == Some(v@),
            None => entries_lookup_from(es@, key@, 0) is None,
        },
{
    let n = es.len();
    let mut i: usize = 0;
    while i < n
        invariant
            n == es@.len(),
            i <= n,
            entries_lookup_from(es@, key@, 0) == entries_lookup_from(es@, key@, i as int),
        decreases n - i,
    {
        if bytes_eq(es[i].key.as_slice(), key) {
            return Some(es[i].text.clone());
        }
        i += 1;
    }
    None
}

/// Resolves a dotted key `"Category.Key"` against the table.
///
/// Splits at the first `.`; both a missing dot and a miss at either level
/// of the table give `None`.
pub fn lookup_string(s: &[u8], table: &LocTable) -> (r: Option<Vec<u8>>)
    ensures
        match r {
            Some(v) => dotted_lookup(*table, s@) == Some(v@),
            None => dotted_lookup(*table, s@) is None,
        },
{
    let dot = match find_first(s, dot_pattern()) {
        None => {
            return None;
        },
        Some(d) => d,
    };
    proof {
        crate::bytestr::lemma_first_match_is_match(s@, seq![46u8], 0, dot as int);
    }
    let slen = s.len();
    let cat: &[u8] = &s[0..dot];
    let key: &[u8] = &s[dot + 1..slen];
    let n = table.cats.len();
    let mut i: usize = 0;
    while i < n
        invariant
            n == table.cats@.len(),
            i <= n,
            cats_lookup_from(table.cats@, cat@, 0) == cats_lookup_from(
                table.cats@,
                cat@,
                i as int,
            ),
            find_spec(s@, seq![46u8]) == Some(dot as int),
            dot + 1 <= s@.len(),
            cat@ == s@.subrange(0, dot as int),
            key@ == s@.subrange(dot as int + 1, s@.len() as int),
        decreases n - i,
    {
        if bytes_eq(table.cats[i].name.as_slice(), cat) {
            assert(cats_lookup_from(table.cats@, cat@, i as int) == Some(
                table.cats@[i as int].entries@,
            ));
            return entries_get(&table.cats[i].entries, key);
        }
        i += 1;
    }
    None
}

/// One category under its name, built from a submodule's declared pairs.
pub open spec fn category_matches(c: LocCategory, name: &str, p: Seq<(&str, &str)>) -> bool {
    c.name@ == name.spec_bytes() && entries_match(c.entries@, p)
}

/// Assembles the whole localization table.
pub fn get() -> (t: LocTable)
    ensures
        t.cats@.len() == 10,
        category_matches(t.cats@[0], "Announcement", announcement::TABLE@),
        category_matches(t.cats@[1], "DeathSource", death_source::TABLE@),
        category_matches(t.cats@[2], "DeathText", death_text::TABLE@),
        category_matches(t.cats@[3], "DeathTextGeneric", death_text_generic::TABLE@),
        category_matches(t.cats@[4], "Game", game::TABLE@),
        category_matches(t.cats@[5], "ItemName", item_name::TABLE@),
        category_matches(t.cats@[6], "LegacyMisc", legacy_misc::TABLE@),
        category_matches(t.cats@[7], "LegacyMultiplayer", legacy_multiplayer::TABLE@),
        category_matches(t.cats@[8], "Misc", misc::TABLE@),
        category_matches(t.cats@[9], "NPCName", npc_name::TABLE@),
{
    let mut cats: Vec<LocCategory> = Vec::new();
    cats.push(
        LocCategory { name: to_vec("Announcement".as_bytes()), entries: announcement::get() },
    );
    cats.push(
        LocCategory { name: to_vec("DeathSource".as_bytes()), entries: death_source::get() },
    );
    cats.push(LocCategory { name: to_vec("DeathText".as_bytes()), entries: death_text::get() });
    cats.push(
        LocCategory {
            name: to_vec("DeathTextGeneric".as_bytes()),
            entries: death_text_generic::get(),
        },
    );
    cats.push(LocCategory { name: to_vec("Game".as_bytes()), entries: game::get() });
    cats.push(LocCategory { name: to_vec("ItemName".as_bytes()), entries: item_name::get() });
    cats.push(LocCategory { name: to_vec("LegacyMisc".as_bytes()), entries: legacy_misc::get() });
    cats.push(
        LocCategory {
            name: to_vec("LegacyMultiplayer".as_bytes()),
            entries: legacy_multiplayer::get(),
        },
    );
    cats.push(LocCategory { name: to_vec("Misc".as_bytes()), entries: misc::get() });
    cats.push(LocCategory { name: to_vec("NPCName".as_bytes()), entries: npc_name::get() });
    LocTable { cats }
}

} // verus!
