//! Decoder for the generic localized-text encoding.
//!
//! A node is a 1-byte mode, a length-prefixed string, and — for a nonzero
//! mode — a 1-byte substitution count followed by that many recursively
//! encoded child nodes.  A mode-0 node is a literal; a nonzero mode names a
//! localization key whose template receives the children's texts at the
//! placeholders `{0}`, `{1}`, ....  Decoding returns the resolved text
//! together with the number of bytes consumed, so a caller can continue
//! with sibling nodes.
use vstd::prelude::*;

verus! {

use vstd::string::StringSliceAdditionalSpecFns;
use vstd::utf8::valid_utf8;
use crate::bytestr::is_prefix;
use crate::bytestr::dec_digits;
use crate::bytestr::replace_first_spec;
use crate::bytestr::replace_first;
use crate::bytestr::starts_with;
use crate::bytestr::bytes_eq;
use crate::bytestr::to_vec;
use crate::bytestr::push_bytes;
use crate::bytestr::u64_to_dec;
use crate::strings::LocTable;
use crate::strings::dotted_lookup;
use crate::strings::lookup_string;
use crate::utf8check::is_valid_utf8;

/// The length-prefixed string starting at `start`: one length byte `L`,
/// then `L` bytes of text, which must be valid UTF-8.
pub open spec fn spec_get_string(d: Seq<u8>, start: int) -> Option<Seq<u8>> {
    if !(0 <= start < d.len()) {
        None
    } else {
        let l = d[start] as int;
        if start + 1 + l > d.len() {
            None
        } else {
            let s = d.subrange(start + 1, start + 1 + l);
            if valid_utf8(s) {
                Some(s)
            } else {
                None
            }
        }
    }
}

/// Reads the length-prefixed string starting at `start`, rejecting a
/// truncated or non-UTF-8 one.
pub fn get_string<'a>(packet: &'a [u8], start: usize) -> (r: Option<&'a [u8]>)
    ensures
        match r {
            Some(s) => spec_get_string(packet@, start as int) == Some(s@),
            None => spec_get_string(packet@, start as int) is None,
        },
{
    let n = packet.len();
    if start >= n {
        return None;
    }
    let l = packet[start] as usize;
    if l > n - start - 1 {
        return None;
    }
    let s: &[u8] = &packet[start + 1..start + 1 + l];
    if is_valid_utf8(s) {
        Some(s)
    } else {
        None
    }
}

/// The placeholder `{i}` as bytes.
pub open spec fn placeholder(i: int) -> Seq<u8>
    recommends
        0 <= i,
{
    seq![123u8] + dec_digits(i as nat) + seq![125u8]
}

/// Builds the placeholder `{i}`.
pub fn make_placeholder(i: usize) -> (v: Vec<u8>)
    ensures
        v@ == placeholder(i as int),
{
    let mut v: Vec<u8> = Vec::new();
    v.push(123);
    let digits = u64_to_dec(i as u64);
    push_bytes(&mut v, digits.as_slice());
    v.push(125);
    assert(v@ =~= placeholder(i as int));
    v
}

/// `tpl` with `{i}` replaced by `subs[i]`, one full pass per index in
/// ascending order from `i` on, each placeholder replaced once.
pub open spec fn subst_from(tpl: Seq<u8>, subs: Seq<Seq<u8>>, i: int) -> Seq<u8>
    decreases subs.len() + 1 - i,
{
    if i < 0 || i >= subs.len() {
        tpl
    } else {
        subst_from(replace_first_spec(tpl, placeholder(i), subs[i]), subs, i + 1)
    }
}

/// `tpl` with each `{i}` replaced by `subs[i]`.
pub open spec fn subst_all(tpl: Seq<u8>, subs: Seq<Seq<u8>>) -> Seq<u8> {
    subst_from(tpl, subs, 0)
}

/// Keys that this decoder intentionally leaves alone: command-line texts,
/// the join greeting, and the legacy multiplayer join/leave lines, which a
/// separate, simpler path reports.
pub open spec fn filtered_key(k: Seq<u8>) -> bool {
    ||| is_prefix(("CLI.").spec_bytes(), k)
    ||| k == ("Game.JoinGreeting").spec_bytes()
    ||| is_prefix(("LegacyMultiplayer.").spec_bytes(), k)
}

fn is_filtered_key(k: &[u8]) -> (r: bool)
    ensures
        r == filtered_key(k@),
{
    starts_with(k, "CLI.".as_bytes()) || bytes_eq(k, "Game.JoinGreeting".as_bytes())
        || starts_with(k, "LegacyMultiplayer.".as_bytes())
}

/// Views of a sequence of byte vectors.
pub open spec fn views(s: Seq<Vec<u8>>) -> Seq<Seq<u8>> {
    s.map_values(|v: Vec<u8>| v@)
}

/// Decode of one generic node at the start of `d`: the resolved text and
/// the number of bytes consumed, or nothing when the node is malformed,
/// filtered, or uses an unknown key.
pub open spec fn node_decode(t: LocTable, d: Seq<u8>) -> Option<(Seq<u8>, int)>
    decreases d.len(), 0int, 0int,
{
    match spec_get_string(d, 1) {
        None => None,
        Some(key) => {
            let mode = d[0];
            let consumed = 2 + d[1] as int;
            if mode == 0 {
                Some((key, consumed))
            } else if filtered_key(key) {
                None
            } else if consumed >= d.len() {
                None
            } else {
                let n = d[consumed] as int;
                match children_decode(t, d.skip(consumed + 1), n) {
                    None => None,
                    Some(rest) => match dotted_lookup(t, key) {
                        None => None,
                        Some(tpl) => Some((subst_all(tpl, rest.0), consumed + 1 + rest.1)),
                    },
                }
            }
        },
    }
}

/// Decode of `n` sibling nodes at the start of `d`: their texts in order
/// and the total bytes consumed.
pub open spec fn children_decode(t: LocTable, d: Seq<u8>, n: int) -> Option<(Seq<Seq<u8>>, int)>
    decreases d.len(), 1int, n,
{
    if n <= 0 {
        Some((Seq::empty(), 0))
    } else {
        match node_decode(t, d) {
            None => None,
            Some(first) => {
                let c = first.1;
                if c <= 0 || c > d.len() {
                    None
                } else {
                    match children_decode(t, d.skip(c), n - 1) {
                        None => None,
                        Some(rest) => Some((seq![first.0] + rest.0, c + rest.1)),
                    }
                }
            },
        }
    }
}

/// Decodes one generic node: mode byte, key string, and — for a nonzero
/// mode — the substitution count and that many recursively decoded
/// children, substituted into the key's localized template.
///
/// Returns the resolved text and the bytes consumed, or `None` for a
/// malformed or truncated node, a filtered key, or a key the table does
/// not hold.
pub fn try_generic(data: &[u8], table: &LocTable) -> (r: Option<(Vec<u8>, usize)>)
    ensures
        match r {
            Some(p) => {
                &&& node_decode(*table, data@) == Some((p.0@, p.1 as int))
                &&& 2 <= p.1 <= data@.len()
            },
            None => node_decode(*table, data@) is None,
        },
    decreases data@.len(),
{
    let key = match get_string(data, 1) {
        None => {
            return None;
        },
        Some(k) => k,
    };
    let mode = data[0];
    let consumed: usize = 2 + (data[1] as usize);
    if mode == 0 {
        return Some((to_vec(key), consumed));
    }
    if is_filtered_key(key) {
        return None;
    }
    if consumed >= data.len() {
        return None;
    }
    let n = data[consumed] as usize;
    let start: usize = consumed + 1;
    let ghost d0 = data@.skip(start as int);
    let mut texts: Vec<Vec<u8>> = Vec::new();
    let mut offset: usize = start;
    let mut k: usize = 0;
    while k < n
        invariant
            n < 256,
            k <= n,
            texts@.len() == k,
            start <= offset <= data@.len(),
            spec_get_string(data@, 1) == Some(key@),
            data@[0] != 0,
            !filtered_key(key@),
            consumed == 2 + data@[1] as int,
            consumed < data@.len(),
            n == data@[consumed as int] as int,
            start == consumed + 1,
            d0 == data@.skip(start as int),
            match children_decode(*table, data@.skip(offset as int), n - k) {
                None => children_decode(*table, d0, n as int) is None,
                Some(rest) => children_decode(*table, d0, n as int) == Some(
                    (views(texts@) + rest.0, offset - start + rest.1),
                ),
            },
        decreases n - k,
    {
        let sub = match try_generic(&data[offset..data.len()], table) {
            None => {
                proof {
                    assert(children_decode(*table, data@.skip(offset as int), n - k) is None);
                }
                return None;
            },
            Some(s) => s,
        };
        let c = sub.1;
        proof {
            let tail = data@.skip(offset as int);
            assert(children_decode(*table, tail, n - k) == (match children_decode(
                *table,
                tail.skip(c as int),
                n - k - 1,
            ) {
                None => None::<(Seq<Seq<u8>>, int)>,
                Some(rest) => Some((seq![sub.0@] + rest.0, c + rest.1)),
            }));
            assert(tail.skip(c as int) =~= data@.skip(offset + c));
        }
        texts.push(sub.0);
        proof {
            assert(views(texts@) =~= views(texts@.drop_last()) + seq![sub.0@]);
        }
        offset += c;
        k += 1;
        proof {
            assert(forall|a: Seq<Seq<u8>>, b: Seq<Seq<u8>>, cc: Seq<Seq<u8>>|
                (a + b) + cc =~= a + (b + cc));
        }
    }
    proof {
        assert(children_decode(*table, data@.skip(offset as int), 0) == Some(
            (Seq::<Seq<u8>>::empty(), 0int),
        ));
        assert(views(texts@) + Seq::<Seq<u8>>::empty() =~= views(texts@));
    }
    let tpl = match lookup_string(key, table) {
        None => {
            return None;
        },
        Some(t) => t,
    };
    let mut val = tpl;
    let ghost tpl0 = val@;
    let ghost subs = views(texts@);
    proof {
        assert(node_decode(*table, data@) == Some(
            (subst_all(tpl0, subs), offset as int),
        ));
    }
    let mut i: usize = 0;
    while i < n
        invariant
            i <= n,
            n == texts@.len(),
            subs == views(texts@),
            3 <= offset <= data@.len(),
            node_decode(*table, data@) == Some((subst_all(tpl0, subs), offset as int)),
            subst_all(tpl0, subs) == subst_from(val@, subs, i as int),
        decreases n - i,
    {
        let pat = make_placeholder(i);
        let rep = replace_first(val.as_slice(), pat.as_slice(), texts[i].as_slice());
        proof {
            assert(subs[i as int] == texts@[i as int]@);
        }
        val = rep;
        i += 1;
    }
    Some((val, offset))
}

/// Decoding is deterministic: identical payload bytes always give the
/// identical resolved text and consumed-byte count.
pub proof fn lemma_decode_deterministic(t: LocTable, d1: Seq<u8>, d2: Seq<u8>)
    requires
        d1 == d2,
    ensures
        node_decode(t, d1) == node_decode(t, d2),
{
}

/// A literal (mode 0) node round-trips: it decodes to its text unchanged
/// and consumes exactly `2 + length_byte` bytes.
pub proof fn lemma_literal_roundtrip(t: LocTable, d: Seq<u8>)
    requires
        d.len() >= 2,
        d[0] == 0,
        2 + d[1] <= d.len(),
        valid_utf8(d.subrange(2, 2 + d[1] as int)),
    ensures
        node_decode(t, d) == Some((d.subrange(2, 2 + d[1] as int), 2 + d[1] as int)),
{
    assert(spec_get_string(d, 1) == Some(d.subrange(2, 2 + d[1] as int)));
}

/// A non-literal node bearing a filtered key yields no result, however
/// well-formed the rest of the payload is.
pub proof fn lemma_filtered_key_no_result(t: LocTable, d: Seq<u8>, k: Seq<u8>)
    requires
        d.len() >= 1,
        d[0] != 0,
        spec_get_string(d, 1) == Some(k),
        filtered_key(k),
    ensures
        node_decode(t, d) is None,
{
}

} // verus!
