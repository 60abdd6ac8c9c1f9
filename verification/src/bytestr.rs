//! Byte-string helpers: equality, prefix tests, first-occurrence search and
//! single replacement, and decimal rendering of integers.
//!
//! The wire protocol and the localization templates are handled as raw UTF-8
//! bytes throughout the crate, so all text manipulation bottoms out here.
use vstd::prelude::*;

verus! {

/// `p` is a prefix of `h`.
pub open spec fn is_prefix(p: Seq<u8>, h: Seq<u8>) -> bool {
    p.len() <= h.len() && h.subrange(0, p.len() as int) == p
}

/// The pattern `p` occurs in `h` at position `i`.
pub open spec fn match_at(h: Seq<u8>, p: Seq<u8>, i: int) -> bool {
    0 <= i && i + p.len() <= h.len() && h.subrange(i, i + p.len() as int) == p
}

/// Position of the first occurrence of `p` in `h` at or after `i`, if any.
pub open spec fn first_match_from(h: Seq<u8>, p: Seq<u8>, i: int) -> Option<int>
    decreases h.len() + 1 - i,
{
    if i < 0 || i + p.len() > h.len() {
        None
    } else if match_at(h, p, i) {
        Some(i)
    } else {
        first_match_from(h, p, i + 1)
    }
}

/// Position of the first occurrence of `p` in `h`, if any.
pub open spec fn find_spec(h: Seq<u8>, p: Seq<u8>) -> Option<int> {
    first_match_from(h, p, 0)
}

/// `h` with the first occurrence of `p` (if any) replaced by `r`.
pub open spec fn replace_first_spec(h: Seq<u8>, p: Seq<u8>, r: Seq<u8>) -> Seq<u8> {
    match find_spec(h, p) {
        None => h,
        Some(i) => h.subrange(0, i) + r + h.subrange(i + p.len() as int, h.len() as int),
    }
}

/// A found position is a genuine match position.
pub proof fn lemma_first_match_is_match(h: Seq<u8>, p: Seq<u8>, i: int, j: int)
    requires
        first_match_from(h, p, i) == Some(j),
    ensures
        match_at(h, p, j),
        i <= j,
    decreases h.len() + 1 - i,
{
    if !(i < 0 || i + p.len() > h.len()) && !match_at(h, p, i) {
        lemma_first_match_is_match(h, p, i + 1, j);
    }
}

pub fn bytes_eq(a: &[u8], b: &[u8]) -> (r: bool)
    ensures
        r == (a@ == b@),
{
    if a.len() != b.len() {
        assert(a@ != b@) by {
            assert(a@.len() != b@.len());
        }
        return false;
    }
    let n = a.len();
    let mut i: usize = 0;
    while i < n
        invariant
            n == a@.len() == b@.len(),
            i <= n,
            forall|j: int| 0 <= j < i ==> a@[j] == b@[j],
        decreases n - i,
    {
        if a[i] != b[i] {
            return false;
        }
        i += 1;
    }
    assert(a@ =~= b@);
    true
}

pub fn starts_with(h: &[u8], p: &[u8]) -> (r: bool)
    ensures
        r == is_prefix(p@, h@),
{
    if p.len() > h.len() {
        return false;
    }
    let head: &[u8] = &h[0..p.len()];
    bytes_eq(head, p)
}

/// Appends all of `s` to `out`.
pub fn push_bytes(out: &mut Vec<u8>, s: &[u8])
    ensures
        final(out)@ == old(out)@ + s@,
{
    let mut i: usize = 0;
    let n = s.len();
    while i < n
        invariant
            n == s@.len(),
            i <= n,
            out@ == old(out)@ + s@.subrange(0, i as int),
        decreases n - i,
    {
        let b = s[i];
        out.push(b);
        assert(out@ =~= old(out)@ + s@.subrange(0, i + 1 as int));
        i += 1;
    }
    assert(out@ =~= old(out)@ + s@);
}

/// Copies a slice into a fresh vector.
pub fn to_vec(s: &[u8]) -> (out: Vec<u8>)
    ensures
        out@ == s@,
{
    let mut out: Vec<u8> = Vec::new();
    push_bytes(&mut out, s);
    assert(out@ =~= s@);
    out
}

/// Whether `p` occurs in `h` at position `i`.
fn occurs_at(h: &[u8], p: &[u8], i: usize) -> (r: bool)
    requires
        i + p@.len() <= h@.len(),
    ensures
        r == match_at(h@, p@, i as int),
{
    let hl = h.len();
    let pl = p.len();
    assert(i + pl <= hl);
    let part: &[u8] = &h[i..i + pl];
    bytes_eq(part, p)
}

/// First occurrence of `p` in `h`, scanning left to right.
pub fn find_first(h: &[u8], p: &[u8]) -> (r: Option<usize>)
    ensures
        match r {
            Some(i) => find_spec(h@, p@) == Some(i as int),
            None => find_spec(h@, p@) is None,
        },
{
    let hl = h.len();
    let pl = p.len();
    if pl > hl {
        return None;
    }
    if pl == 0 {
        assert(h@.subrange(0, 0) =~= p@);
        assert(match_at(h@, p@, 0));
        return Some(0);
    }
    let mut i: usize = 0;
    while i <= hl - pl
        invariant
            hl == h@.len(),
            pl == p@.len(),
            0 < pl <= hl,
            i <= hl - pl + 1,
            find_spec(h@, p@) == first_match_from(h@, p@, i as int),
        decreases hl - i,
    {
        if occurs_at(h, p, i) {
            return Some(i);
        }
        i += 1;
    }
    None
}

/// `h` with the first occurrence of `p` (if any) replaced by `r`.
pub fn replace_first(h: &[u8], p: &[u8], r: &[u8]) -> (out: Vec<u8>)
    ensures
        out@ == replace_first_spec(h@, p@, r@),
{
    match find_first(h, p) {
        None => to_vec(h),
        Some(i) => {
            proof {
                lemma_first_match_is_match(h@, p@, 0, i as int);
            }
            let hl = h.len();
            let pl = p.len();
            let mut out: Vec<u8> = Vec::new();
            push_bytes(&mut out, &h[0..i]);
            push_bytes(&mut out, r);
            push_bytes(&mut out, &h[i + pl..hl]);
            assert(out@ =~= h@.subrange(0, i as int) + r@ + h@.subrange(
                i + p@.len() as int,
                h@.len() as int,
            ));
            out
        },
    }
}

/// Decimal digits of `n`, most significant first, as ASCII bytes.
pub open spec fn dec_digits(n: nat) -> Seq<u8>
    decreases n,
{
    if n < 10 {
        seq![(48 + n) as u8]
    } else {
        dec_digits(n / 10).push((48 + n % 10) as u8)
    }
}

/// Decimal rendering of a possibly negative count, ASCII, with a leading `-`
/// when negative.
pub open spec fn dec_int(n: int) -> Seq<u8> {
    if n < 0 {
        seq![45u8] + dec_digits((-n) as nat)
    } else {
        dec_digits(n as nat)
    }
}

pub fn u64_to_dec(n: u64) -> (out: Vec<u8>)
    ensures
        out@ == dec_digits(n as nat),
    decreases n,
{
    if n < 10 {
        let mut out: Vec<u8> = Vec::new();
        out.push(48 + (n as u8));
        assert(out@ =~= dec_digits(n as nat));
        out
    } else {
        let mut out = u64_to_dec(n / 10);
        out.push(48 + ((n % 10) as u8));
        out
    }
}

pub fn i64_to_dec(n: i64) -> (out: Vec<u8>)
    ensures
        out@ == dec_int(n as int),
{
    if n >= 0 {
        u64_to_dec(n as u64)
    } else {
        let mag: u64 = (n as i128 * -1) as u64;
        let mut out: Vec<u8> = Vec::new();
        out.push(45);
        let digits = u64_to_dec(mag);
        push_bytes(&mut out, digits.as_slice());
        assert(out@ =~= seq![45u8] + dec_digits(mag as nat));
        out
    }
}

} // verus!
