//! Frame validation and the per-frame decode pipeline.
//!
//! A captured frame is validated (declared length, protocol signature),
//! classified as a death or a generic frame, decoded by the matching
//! decoder, and deduplicated.  The caller supplies capture timestamps and
//! the per-victim death history; the decisions taken on them live here.
use vstd::prelude::*;

verus! {

use vstd::string::StringSliceAdditionalSpecFns;
use crate::bytestr::push_bytes;
use crate::bytestr::to_vec;
use crate::death::Death;
use crate::death::build_death;
use crate::death::death_decode;
use crate::death::spec_friendly_duration;
use crate::death::friendly_duration;
use crate::generic::node_decode;
use crate::generic::try_generic;
use crate::strings::LocTable;

/// What a candidate frame is: structurally invalid, a death event, or a
/// generic message.
#[derive(Clone, Copy, Debug, PartialEq, Eq, Structural)]
pub enum FrameClass {
    Reject,
    Death,
    Generic,
}

/// Classification of a raw frame, in order: minimum length, the declared
/// 16-bit length (high byte second) matching the actual byte count, the
/// 5-byte protocol signature, and the death marker `"Death"` at byte 8.
pub open spec fn spec_classify(d: Seq<u8>) -> FrameClass {
    if d.len() < 14 {
        FrameClass::Reject
    } else if (d[1] as int) * 256 + (d[0] as int) != d.len() {
        FrameClass::Reject
    } else if !(d[2] == 0x52 && d[3] == 0x01 && d[4] == 0x00 && d[5] == 0xff && d[6] == 0x02) {
        FrameClass::Reject
    } else if d[8] == 0x44 && d[9] == 0x65 && d[10] == 0x61 && d[11] == 0x74 && d[12] == 0x68 {
        FrameClass::Death
    } else {
        FrameClass::Generic
    }
}

/// Validates and classifies one raw captured frame.
pub fn classify_frame(data: &[u8]) -> (c: FrameClass)
    ensures
        c == spec_classify(data@),
{
    let n = data.len();
    if n < 14 {
        return FrameClass::Reject;
    }
    let declared: usize = (data[1] as usize) * 256 + (data[0] as usize);
    if declared != n {
        return FrameClass::Reject;
    }
    if !(data[2] == 0x52 && data[3] == 0x01 && data[4] == 0x00 && data[5] == 0xff && data[6]
        == 0x02) {
        return FrameClass::Reject;
    }
    if data[8] == 0x44 && data[9] == 0x65 && data[10] == 0x61 && data[11] == 0x74 && data[12]
        == 0x68 {
        FrameClass::Death
    } else {
        FrameClass::Generic
    }
}

/// Short-horizon cache of recently emitted messages, keyed by the full
/// message text; used to drop bursts of duplicate captures.
pub struct DedupCache {
    entries: Vec<(Vec<u8>, u32)>,
}

/// The emission second stored for `k`, scanning entries from `i` on.
pub open spec fn dedup_lookup_from(es: Seq<(Vec<u8>, u32)>, k: Seq<u8>, i: int) -> Option<u32>
    decreases es.len() + 1 - i,
{
    if i < 0 || i >= es.len() {
        None
    } else if es[i].0@ == k {
        Some(es[i].1)
    } else {
        dedup_lookup_from(es, k, i + 1)
    }
}

/// The emission second the cache stores for message `k`, if any.
pub closed spec fn cache_lookup(c: DedupCache, k: Seq<u8>) -> Option<u32> {
    dedup_lookup_from(c.entries@, k, 0)
}

/// Updating an entry in place, key kept equal, leaves every other key's
/// lookup unchanged.
proof fn lemma_lookup_update_other(
    es: Seq<(Vec<u8>, u32)>,
    i: int,
    e: (Vec<u8>, u32),
    k: Seq<u8>,
    j: int,
)
    requires
        0 <= i < es.len(),
        e.0@ == es[i].0@,
        k != es[i].0@,
    ensures
        dedup_lookup_from(es.update(i, e), k, j) == dedup_lookup_from(es, k, j),
    decreases es.len() + 1 - j,
{
    if !(j < 0 || j >= es.len()) {
        lemma_lookup_update_other(es, i, e, k, j + 1);
    }
}

/// Updating the first entry holding `k` makes `k` look up the new value.
proof fn lemma_lookup_update_hit(es: Seq<(Vec<u8>, u32)>, i: int, e: (Vec<u8>, u32), j: int)
    requires
        0 <= i < es.len(),
        e.0@ == es[i].0@,
        0 <= j <= i,
        forall|l: int| j <= l < i ==> es[l].0@ != es[i].0@,
    ensures
        dedup_lookup_from(es.update(i, e), es[i].0@, j) == Some(e.1),
    decreases i - j,
{
    if j < i {
        lemma_lookup_update_hit(es, i, e, j + 1);
    }
}

/// Appending an entry changes only the lookup of keys the list did not
/// hold, which now find the new entry.
proof fn lemma_lookup_push(es: Seq<(Vec<u8>, u32)>, e: (Vec<u8>, u32), k: Seq<u8>, j: int)
    requires
        0 <= j <= es.len(),
    ensures
        dedup_lookup_from(es.push(e), k, j) == (match dedup_lookup_from(es, k, j) {
            Some(t) => Some(t),
            None => if e.0@ == k {
                Some(e.1)
            } else {
                None
            },
        }),
    decreases es.len() - j,
{
    if j < es.len() {
        assert(es.push(e)[j] == es[j]);
        if es[j].0@ != k {
            lemma_lookup_push(es, e, k, j + 1);
        }
    } else {
        assert(es.push(e)[j] == e);
        assert(dedup_lookup_from(es.push(e), k, j + 1) is None);
    }
}

impl DedupCache {
    /// An empty cache: no message has been emitted yet.
    pub fn new() -> (c: DedupCache)
        ensures
            forall|k: Seq<u8>| cache_lookup(c, k) is None,
    {
        DedupCache { entries: Vec::new() }
    }

    /// Records that `msg` is being considered at second `now` and says
    /// whether to emit it: a message emitted less than five seconds ago is
    /// suppressed, and the stored second is refreshed either way.
    pub fn note(&mut self, msg: &[u8], now: u32) -> (emit: bool)
        ensures
            emit == match cache_lookup(*old(self), msg@) {
                None => true,
                Some(t) => !((now as int) - (t as int) < 5),
            },
            cache_lookup(*final (self), msg@) == Some(now),
            forall|k: Seq<u8>|
                k != msg@ ==> cache_lookup(*final (self), k) == cache_lookup(*old(self), k),
    {
        let n = self.entries.len();
        let mut i: usize = 0;
        while i < n
            invariant
                n == self.entries@.len(),
                i <= n,
                self == old(self),
                forall|l: int| 0 <= l < i ==> self.entries@[l].0@ != msg@,
                dedup_lookup_from(self.entries@, msg@, 0) == dedup_lookup_from(
                    self.entries@,
                    msg@,
                    i as int,
                ),
            decreases n - i,
        {
            if crate::bytestr::bytes_eq(self.entries[i].0.as_slice(), msg) {
                let t = self.entries[i].1;
                let emit = !(((now as i64) - (t as i64)) < 5);
                let fresh = (to_vec(msg), now);
                proof {
                    lemma_lookup_update_hit(self.entries@, i as int, fresh, 0);
                }
                assert(forall|k: Seq<u8>|
                    k != msg@ ==> dedup_lookup_from(
                        self.entries@.update(i as int, fresh),
                        k,
                        0,
                    ) == dedup_lookup_from(self.entries@, k, 0)) by {
                    assert forall|k: Seq<u8>| k != msg@ implies dedup_lookup_from(
                        self.entries@.update(i as int, fresh),
                        k,
                        0,
                    ) == dedup_lookup_from(self.entries@, k, 0) by {
                        lemma_lookup_update_other(self.entries@, i as int, fresh, k, 0);
                    }
                }
                self.entries[i] = fresh;
                return emit;
            }
            i += 1;
        }
        let ghost oldes = self.entries@;
        self.entries.push((to_vec(msg), now));
        proof {
            let e = self.entries@[n as int];
            assert(self.entries@ == oldes.push(e));
            assert(e.0@ == msg@ && e.1 == now);
            assert(dedup_lookup_from(oldes, msg@, n as int) is None);
            assert forall|k: Seq<u8>| #[trigger] dedup_lookup_from(self.entries@, k, 0) == (
            match dedup_lookup_from(oldes, k, 0) {
                Some(t) => Some(t),
                None => if msg@ == k {
                    Some(now)
                } else {
                    None
                },
            }) by {
                lemma_lookup_push(oldes, e, k, 0);
            }
        }
        true
    }
}

/// The decision taken on a decoded death, given the victim's previous
/// death second and the current one.
#[derive(Clone, Copy, Debug, PartialEq, Eq, Structural)]
pub enum HistoryDecision {
    /// The previous death was under nine seconds ago: a retransmitted
    /// duplicate, to be dropped without a write or a notification.
    Duplicate,
    /// A genuine death, to be recorded and announced, annotated with the
    /// elapsed seconds when they are known and fit.
    Record { elapsed: Option<i32> },
}

/// Decision on a death at second `now` whose victim last died at `last`:
/// under nine seconds since the previous death is a duplicate; otherwise
/// the elapsed seconds annotate the record, left out when unknown or too
/// large to represent.
pub open spec fn spec_history(last: Option<int>, now: int) -> HistoryDecision {
    match last {
        None => HistoryDecision::Record { elapsed: None },
        Some(l) => if now - l < 9 {
            HistoryDecision::Duplicate
        } else if now - l > 0x7fffffff {
            HistoryDecision::Record { elapsed: None }
        } else {
            HistoryDecision::Record { elapsed: Some((now - l) as i32) }
        },
    }
}

/// Applies the death-history rule to a queried previous death second.
pub fn history_decision(last: Option<i64>, now: i64) -> (r: HistoryDecision)
    ensures
        r == spec_history(
            match last {
                None => None,
                Some(l) => Some(l as int),
            },
            now as int,
        ),
{
    match last {
        None => HistoryDecision::Record { elapsed: None },
        Some(l) => {
            let diff: i128 = (now as i128) - (l as i128);
            if diff < 9 {
                HistoryDecision::Duplicate
            } else if diff > 0x7fffffff {
                HistoryDecision::Record { elapsed: None }
            } else {
                HistoryDecision::Record { elapsed: Some(diff as i32) }
            }
        },
    }
}

/// `msg`, annotated with the elapsed time since the victim's previous
/// death when it is known.
pub open spec fn spec_annotated(msg: Seq<u8>, elapsed: Option<i32>) -> Seq<u8> {
    match elapsed {
        None => msg,
        Some(s) => msg + ("  *(").spec_bytes() + spec_friendly_duration(s as int) + (
        " since last death)*").spec_bytes(),
    }
}

/// Appends the elapsed-time annotation to a death message.
pub fn annotate_death(msg: &[u8], elapsed: Option<i32>) -> (out: Vec<u8>)
    ensures
        out@ == spec_annotated(msg@, elapsed),
{
    match elapsed {
        None => to_vec(msg),
        Some(s) => {
            let mut out = to_vec(msg);
            push_bytes(&mut out, "  *(".as_bytes());
            let dur = friendly_duration(s);
            push_bytes(&mut out, dur.as_slice());
            push_bytes(&mut out, " since last death)*".as_bytes());
            assert(out@ =~= spec_annotated(msg@, elapsed));
            out
        },
    }
}

/// What one frame amounts to.
pub enum FrameOutcome {
    /// Nothing to announce: the frame was rejected, undecodable, filtered,
    /// or a duplicate.
    Silent,
    /// A generic message to deliver.
    Announce(Vec<u8>),
    /// A decoded death event; the caller resolves the victim's history,
    /// annotates, deduplicates and records it.
    DeathEvent(Death),
}

/// Processes one captured frame: validates and classifies it, decodes the
/// matching schema, and — for generic messages — applies deduplication at
/// the capture second `now`.
///
/// A death frame is handed back decoded and leaves the cache untouched:
/// its message is deduplicated by the caller once the victim's history is
/// resolved and the annotation attached.
pub fn process_frame(data: &[u8], table: &LocTable, dedup: &mut DedupCache, now: u32) -> (r:
    FrameOutcome)
    ensures
        spec_classify(data@) == FrameClass::Reject ==> r is Silent && *final (dedup) == *old(
            dedup,
        ),
        spec_classify(data@) == FrameClass::Death ==> *final (dedup) == *old(dedup) && (
        match death_decode(*table, data@.skip(7)) {
            Ok(m) => r matches FrameOutcome::DeathEvent(d) && d@ == m,
            Err(_) => r is Silent,
        }),
        spec_classify(data@) == FrameClass::Generic ==> (match node_decode(
            *table,
            data@.skip(6),
        ) {
            None => r is Silent && *final (dedup) == *old(dedup),
            Some(p) => {
                &&& cache_lookup(*final (dedup), p.0) == Some(now)
                &&& (forall|k: Seq<u8>|
                    k != p.0 ==> cache_lookup(*final (dedup), k) == cache_lookup(*old(dedup), k))
                &&& (match cache_lookup(*old(dedup), p.0) {
                    None => r matches FrameOutcome::Announce(v) && v@ == p.0,
                    Some(t) => if (now as int) - (t as int) < 5 {
                        r is Silent
                    } else {
                        r matches FrameOutcome::Announce(v) && v@ == p.0
                    },
                })
            },
        }),
{
    let n = data.len();
    match classify_frame(data) {
        FrameClass::Reject => FrameOutcome::Silent,
        FrameClass::Death => {
            match build_death(&data[7..n], table) {
                Err(_) => FrameOutcome::Silent,
                Ok(d) => FrameOutcome::DeathEvent(d),
            }
        },
        FrameClass::Generic => {
            match try_generic(&data[6..n], table) {
                None => FrameOutcome::Silent,
                Some(p) => {
                    let emit = dedup.note(p.0.as_slice(), now);
                    if emit {
                        FrameOutcome::Announce(p.0)
                    } else {
                        FrameOutcome::Silent
                    }
                },
            }
        },
    }
}

/// A death of a victim whose previous death lies under nine seconds back
/// is classified a retransmitted duplicate: nothing is recorded and
/// nothing announced for it.
pub proof fn lemma_duplicate_death_suppressed(last: int, now: int)
    requires
        now - last < 9,
    ensures
        spec_history(Some(last), now) == HistoryDecision::Duplicate,
{
}

/// A frame whose declared 16-bit length does not match its actual byte
/// count is rejected outright, before any decoding.
pub proof fn lemma_length_mismatch_rejected(d: Seq<u8>)
    requires
        (d[1] as int) * 256 + (d[0] as int) != d.len(),
    ensures
        spec_classify(d) == FrameClass::Reject,
{
}

} // verus!

