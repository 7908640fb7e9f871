use vstd::multiset::*;
use vstd::prelude::*;

use crate::collection::digest_views;
use crate::fingerprint::to_u64;

verus! {

broadcast use {group_multiset_axioms, group_multiset_properties, vstd::seq_lib::group_to_multiset_ensures};

/// Content-identity comparison between raw and normalized history.
#[derive(Clone, Copy, Debug, PartialEq, Eq, Structural)]
pub struct ContextNormalizationSummary {
    /// Items with identical complete serialization in both collections, counted as a multiset.
    pub unchanged_items: u64,
    /// Raw item identities that do not occur in normalized history.
    pub raw_only_items: u64,
    /// Normalized item identities that do not occur in raw history.
    pub normalized_only_items: u64,
    /// Whether normalization changed item identity, count, or order.
    pub changed: bool,
}

/// Number of identities shared by two collections, counted as a multiset.
pub open spec fn shared_identities(raw: Seq<Seq<u8>>, normalized: Seq<Seq<u8>>) -> nat {
    raw.to_multiset().intersection_with(normalized.to_multiset()).len()
}

/// The summary of two identity sequences.
pub open spec fn normalization_summary(
    raw: Seq<Seq<u8>>,
    normalized: Seq<Seq<u8>>,
) -> ContextNormalizationSummary {
    let shared = shared_identities(raw, normalized);
    ContextNormalizationSummary {
        unchanged_items: shared as u64,
        raw_only_items: (raw.len() - shared) as u64,
        normalized_only_items: (normalized.len() - shared) as u64,
        changed: raw != normalized,
    }
}

proof fn lemma_intersection_insert<V>(r: Multiset<V>, n: Multiset<V>, d: V)
    ensures
        r.intersection_with(n.insert(d)) == if r.count(d) > n.count(d) {
            r.intersection_with(n).insert(d)
        } else {
            r.intersection_with(n)
        },
        r.difference_with(n.insert(d)) == if r.count(d) > n.count(d) {
            r.difference_with(n).remove(d)
        } else {
            r.difference_with(n)
        },
{
    if r.count(d) > n.count(d) {
        assert(r.intersection_with(n.insert(d)) =~= r.intersection_with(n).insert(d));
        assert(r.difference_with(n.insert(d)) =~= r.difference_with(n).remove(d));
    } else {
        assert(r.intersection_with(n.insert(d)) =~= r.intersection_with(n));
        assert(r.difference_with(n.insert(d)) =~= r.difference_with(n));
    }
}

proof fn lemma_remove_len<V>(m: Multiset<V>, d: V)
    requires
        m.count(d) > 0,
    ensures
        m.remove(d).len() == m.len() - 1,
{
    assert(Multiset::singleton(d).subset_of(m));
}

/// The shared and remaining parts of `r` against the first `i` normalized identities.
proof fn lemma_shared_prefix<V>(r: Multiset<V>, normalized: Seq<V>, i: int)
    requires
        0 <= i <= normalized.len(),
    ensures
        r.intersection_with(normalized.take(i).to_multiset()).len() + r.difference_with(
            normalized.take(i).to_multiset(),
        ).len() == r.len(),
        r.intersection_with(normalized.take(i).to_multiset()).len() <= i,
    decreases i,
{
    let m = normalized.take(i).to_multiset();
    if i == 0 {
        assert(normalized.take(0) =~= Seq::<V>::empty());
        assert(m =~= Multiset::empty());
        assert(r.intersection_with(m) =~= Multiset::empty());
        assert(r.difference_with(m) =~= r);
    } else {
        lemma_shared_prefix(r, normalized, i - 1);
        let prev = normalized.take(i - 1).to_multiset();
        let d = normalized[i - 1];
        assert(normalized.take(i) =~= normalized.take(i - 1).push(d));
        assert(m =~= prev.insert(d));
        lemma_intersection_insert(r, prev, d);
        if r.count(d) > prev.count(d) {
            assert(r.difference_with(prev).count(d) > 0);
            lemma_remove_len(r.difference_with(prev), d);
        }
    }
}

/// The shared count never exceeds either collection's length.
pub proof fn lemma_shared_identities_bounded(raw: Seq<Seq<u8>>, normalized: Seq<Seq<u8>>)
    ensures
        shared_identities(raw, normalized) <= raw.len(),
        shared_identities(raw, normalized) <= normalized.len(),
{
    lemma_shared_prefix(raw.to_multiset(), normalized, normalized.len() as int);
    assert(normalized.take(normalized.len() as int) =~= normalized);
}

/// Every raw identity is either unchanged or raw-only, and every normalized identity is either
/// unchanged or normalized-only.
pub proof fn lemma_summary_partitions_both_collections(
    raw: Seq<Seq<u8>>,
    normalized: Seq<Seq<u8>>,
)
    requires
        raw.len() <= u64::MAX,
        normalized.len() <= u64::MAX,
    ensures
        ({
            let summary = normalization_summary(raw, normalized);
            &&& summary.unchanged_items + summary.raw_only_items == raw.len()
            &&& summary.unchanged_items + summary.normalized_only_items == normalized.len()
        }),
{
    lemma_shared_identities_bounded(raw, normalized);
}

/// Comparing a collection with itself reports every item as unchanged and nothing as changed.
pub proof fn lemma_identical_collections_are_unchanged(items: Seq<Seq<u8>>)
    requires
        items.len() <= u64::MAX,
    ensures
        normalization_summary(items, items) == (ContextNormalizationSummary {
            unchanged_items: items.len() as u64,
            raw_only_items: 0,
            normalized_only_items: 0,
            changed: false,
        }),
{
    let m = items.to_multiset();
    assert(m.intersection_with(m) =~= m);
}

/// Reordering alone never makes an identity raw-only or normalized-only; it is reported only
/// through `changed`.
pub proof fn lemma_reordering_keeps_every_identity(raw: Seq<Seq<u8>>, normalized: Seq<Seq<u8>>)
    requires
        raw.to_multiset() == normalized.to_multiset(),
        raw.len() <= u64::MAX,
    ensures
        normalization_summary(raw, normalized).unchanged_items == raw.len(),
        normalization_summary(raw, normalized).raw_only_items == 0,
        normalization_summary(raw, normalized).normalized_only_items == 0,
        normalization_summary(raw, normalized).changed == (raw != normalized),
{
    let m = raw.to_multiset();
    assert(m.intersection_with(m) =~= m);
}

/// Swapping the two collections swaps raw-only and normalized-only counts and keeps the rest.
pub proof fn lemma_summary_is_symmetric(raw: Seq<Seq<u8>>, normalized: Seq<Seq<u8>>)
    ensures
        normalization_summary(normalized, raw).unchanged_items == normalization_summary(
            raw,
            normalized,
        ).unchanged_items,
        normalization_summary(normalized, raw).raw_only_items == normalization_summary(
            raw,
            normalized,
        ).normalized_only_items,
        normalization_summary(normalized, raw).normalized_only_items == normalization_summary(
            raw,
            normalized,
        ).raw_only_items,
        normalization_summary(normalized, raw).changed == normalization_summary(
            raw,
            normalized,
        ).changed,
{
    let a = raw.to_multiset();
    let b = normalized.to_multiset();
    assert(a.intersection_with(b) =~= b.intersection_with(a));
}

fn same_digest(a: &[u8; 32], b: &[u8; 32]) -> (same: bool)
    ensures
        same == (a@ == b@),
{
    let mut i: usize = 0;
    while i < 32
        invariant
            i <= 32,
            a@.len() == 32,
            b@.len() == 32,
            forall|j: int| 0 <= j < i ==> a@[j] == b@[j],
        decreases 32 - i,
    {
        if a[i] != b[i] {
            return false;
        }
        i = i + 1;
    }
    assert(a@ =~= b@);
    true
}

fn same_digest_sequence(a: &[[u8; 32]], b: &[[u8; 32]]) -> (same: bool)
    ensures
        same == (digest_views(a@) == digest_views(b@)),
{
    if a.len() != b.len() {
        assert(digest_views(a@).len() != digest_views(b@).len());
        return false;
    }
    let mut i: usize = 0;
    while i < a.len()
        invariant
            a@.len() == b@.len(),
            i <= a@.len(),
            forall|j: int| 0 <= j < i ==> a@[j]@ == b@[j]@,
        decreases a@.len() - i,
    {
        if !same_digest(&a[i], &b[i]) {
            assert(digest_views(a@)[i as int] != digest_views(b@)[i as int]);
            return false;
        }
        i = i + 1;
    }
    assert(digest_views(a@) =~= digest_views(b@));
    true
}

fn find_digest(candidates: &Vec<[u8; 32]>, digest: &[u8; 32]) -> (found: Option<usize>)
    ensures
        match found {
            Some(j) => j < candidates@.len() && candidates@[j as int]@ == digest@,
            None => !digest_views(candidates@).contains(digest@),
        },
{
    let mut j: usize = 0;
    while j < candidates.len()
        invariant
            j <= candidates@.len(),
            forall|k: int| 0 <= k < j ==> candidates@[k]@ != digest@,
        decreases candidates@.len() - j,
    {
        if same_digest(&candidates[j], digest) {
            return Some(j);
        }
        j = j + 1;
    }
    assert forall|k: int| 0 <= k < digest_views(candidates@).len() implies digest_views(
        candidates@,
    )[k] != digest@ by {
        assert(candidates@[k]@ != digest@);
    }
    None
}

fn copy_digests(digests: &Vec<[u8; 32]>) -> (copy: Vec<[u8; 32]>)
    ensures
        copy@ == digests@,
{
    let mut copy: Vec<[u8; 32]> = Vec::new();
    let mut i: usize = 0;
    while i < digests.len()
        invariant
            i <= digests@.len(),
            copy@ == digests@.take(i as int),
        decreases digests@.len() - i,
    {
        copy.push(digests[i]);
        assert(digests@.take(i + 1) =~= digests@.take(i as int).push(digests@[i as int]));
        i = i + 1;
    }
    assert(digests@.take(digests@.len() as int) =~= digests@);
    copy
}

/// Compares raw and normalized item digests as multisets, and as sequences for `changed`.
///
/// The raw digests not yet matched are kept in a `Vec` and searched linearly. A `HashMap`
/// from digest to count would be quicker, but vstd specifies `HashMap` lookups only for keys
/// whose hashing it models (integers, `bool`, boxes of those), and a 32-byte digest array is
/// not one of them, so nothing could be proved of the counts. The multiset of the unmatched
/// raw digests is the loop invariant instead.
pub(crate) fn summarize_normalization(
    raw_fingerprints: &Vec<[u8; 32]>,
    normalized_fingerprints: &Vec<[u8; 32]>,
) -> (summary: ContextNormalizationSummary)
    ensures
        summary == normalization_summary(
            digest_views(raw_fingerprints@),
            digest_views(normalized_fingerprints@),
        ),
{
    let ghost raw = digest_views(raw_fingerprints@);
    let ghost normalized = digest_views(normalized_fingerprints@);
    let ghost r = raw.to_multiset();
    let mut remaining = copy_digests(raw_fingerprints);
    let mut unchanged_items: usize = 0;
    let mut i: usize = 0;
    assert(normalized.take(0) =~= Seq::<Seq<u8>>::empty());
    assert(normalized.take(0).to_multiset() =~= Multiset::empty());
    assert(r.difference_with(Multiset::empty()) =~= r);
    assert(r.intersection_with(Multiset::empty()) =~= Multiset::empty());
    while i < normalized_fingerprints.len()
        invariant
            raw == digest_views(raw_fingerprints@),
            normalized == digest_views(normalized_fingerprints@),
            r == raw.to_multiset(),
            i <= normalized.len(),
            digest_views(remaining@).to_multiset() == r.difference_with(
                normalized.take(i as int).to_multiset(),
            ),
            unchanged_items == r.intersection_with(normalized.take(i as int).to_multiset()).len(),
            unchanged_items <= i,
        decreases normalized.len() - i,
    {
        let digest = &normalized_fingerprints[i];
        let ghost prev = normalized.take(i as int).to_multiset();
        proof {
            assert(normalized.take(i + 1) =~= normalized.take(i as int).push(digest@));
            lemma_intersection_insert(r, prev, digest@);
        }
        match find_digest(&remaining, digest) {
            Some(j) => {
                let ghost before = digest_views(remaining@);
                proof {
                    assert(before[j as int] == digest@);
                    assert(before.contains(digest@));
                }
                remaining.remove(j);
                proof {
                    assert(digest_views(remaining@) =~= before.remove(j as int));
                    assert(r.difference_with(prev).count(digest@) > 0);
                }
                unchanged_items = unchanged_items + 1;
            },
            None => {
                proof {
                    assert(r.difference_with(prev).count(digest@) == 0);
                }
            },
        }
        i = i + 1;
    }
    assert(normalized.take(normalized.len() as int) =~= normalized);
    proof {
        lemma_shared_identities_bounded(raw, normalized);
    }
    let raw_only_items = raw_fingerprints.len() - unchanged_items;
    let normalized_only_items = normalized_fingerprints.len() - unchanged_items;
    ContextNormalizationSummary {
        unchanged_items: to_u64(unchanged_items),
        raw_only_items: to_u64(raw_only_items),
        normalized_only_items: to_u64(normalized_only_items),
        changed: !same_digest_sequence(raw_fingerprints.as_slice(), normalized_fingerprints.as_slice()),
    }
}

} // verus!
