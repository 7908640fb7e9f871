use vstd::prelude::*;
use vstd::utf8::encode_utf8;

use crate::fingerprint::be_bytes;
use crate::fingerprint::fingerprint_text;
use crate::fingerprint::format_fingerprint;
use crate::fingerprint::push_be_bytes;
use crate::fingerprint::push_bytes;
use crate::fingerprint::sha256;
use crate::fingerprint::sha256_digest;
use crate::fingerprint::to_u64;
use crate::limits::ContextInspectionLimits;
use crate::metadata::bounded_metadata_text;
use crate::metadata::bounded_text;

verus! {

/// Version tag that starts the digest input of every collection fingerprint.
pub const COLLECTION_FINGERPRINT_VERSION: &'static str = "codex-context-items-v1\0";

/// One response item in the form the projection reads: its complete serialization and the
/// `type` and `role` tags read back from that serialization.
#[derive(Debug)]
pub struct SerializedItem {
    /// Complete serialized item; never disclosed.
    pub serialized: Vec<u8>,
    /// The item's `type` tag, when it has one.
    pub kind: Option<String>,
    /// The item's `role`, when it has one.
    pub role: Option<String>,
}

/// Metadata for one response item.
#[derive(Debug, PartialEq, Eq)]
pub struct ContextInspectionItem {
    /// Zero-based position in the inspected collection.
    pub index: u64,
    /// Bounded serialized `type` tag.
    pub kind: String,
    /// Bounded serialized role, when the item has one.
    pub role: Option<String>,
    /// Size of the complete serialized item, including content that is not disclosed.
    pub serialized_bytes: u64,
}

/// Abstract value of a [`ContextInspectionItem`].
pub struct ItemView {
    pub index: u64,
    pub kind: Seq<char>,
    pub role: Option<Seq<char>>,
    pub serialized_bytes: u64,
}

/// Abstract value of an optional string.
pub open spec fn optional_text(text: Option<String>) -> Option<Seq<char>> {
    match text {
        Some(t) => Some(t@),
        None => None,
    }
}

impl View for ContextInspectionItem {
    type V = ItemView;

    open spec fn view(&self) -> ItemView {
        ItemView {
            index: self.index,
            kind: self.kind@,
            role: optional_text(self.role),
            serialized_bytes: self.serialized_bytes,
        }
    }
}

impl Clone for ContextInspectionItem {
    fn clone(&self) -> (copy: Self)
        ensures
            copy == *self,
    {
        let role = match &self.role {
            Some(role) => Some(role.clone()),
            None => None,
        };
        ContextInspectionItem {
            index: self.index,
            kind: self.kind.clone(),
            role,
            serialized_bytes: self.serialized_bytes,
        }
    }
}

/// A bounded projection and complete aggregate statistics for one item collection.
#[derive(Debug, PartialEq, Eq)]
pub struct ContextItemCollection {
    /// Versioned SHA-256 fingerprint of all complete serialized items in order.
    pub fingerprint: String,
    /// Total number of items in the collection.
    pub total_items: u64,
    /// Number of item metadata records returned.
    pub represented_items: u64,
    /// Number of item metadata records omitted by the applied limit.
    pub omitted_items: u64,
    /// Sum of complete serialized item sizes.
    pub total_serialized_bytes: u64,
    /// Bounded item metadata records.
    pub items: Vec<ContextInspectionItem>,
}

/// Abstract value of a [`ContextItemCollection`].
pub struct CollectionView {
    pub fingerprint: Seq<char>,
    pub total_items: u64,
    pub represented_items: u64,
    pub omitted_items: u64,
    pub total_serialized_bytes: u64,
    pub items: Seq<ItemView>,
}

/// Abstract values of a sequence of items.
pub open spec fn item_views(items: Seq<ContextInspectionItem>) -> Seq<ItemView> {
    items.map_values(|item: ContextInspectionItem| item@)
}

impl View for ContextItemCollection {
    type V = CollectionView;

    open spec fn view(&self) -> CollectionView {
        CollectionView {
            fingerprint: self.fingerprint@,
            total_items: self.total_items,
            represented_items: self.represented_items,
            omitted_items: self.omitted_items,
            total_serialized_bytes: self.total_serialized_bytes,
            items: item_views(self.items@),
        }
    }
}

impl Clone for ContextItemCollection {
    fn clone(&self) -> (copy: Self)
        ensures
            copy@ == self@,
    {
        let items = self.items.clone();
        assert(items@ =~= self.items@);
        ContextItemCollection {
            fingerprint: self.fingerprint.clone(),
            total_items: self.total_items,
            represented_items: self.represented_items,
            omitted_items: self.omitted_items,
            total_serialized_bytes: self.total_serialized_bytes,
            items,
        }
    }
}

/// The serializations of a sequence of items.
pub open spec fn serializations(items: Seq<SerializedItem>) -> Seq<Seq<u8>> {
    items.map_values(|item: SerializedItem| item.serialized@)
}

/// The per-item SHA-256 digests of a sequence of items.
pub open spec fn item_digests(items: Seq<SerializedItem>) -> Seq<Seq<u8>> {
    items.map_values(|item: SerializedItem| sha256(item.serialized@))
}

/// Every serialization preceded by its big-endian byte length, in order.
pub open spec fn framed_serializations(serialized: Seq<Seq<u8>>) -> Seq<u8>
    decreases serialized.len(),
{
    if serialized.len() == 0 {
        seq![]
    } else {
        framed_serializations(serialized.drop_last()) + be_bytes(
            serialized.last().len() as u64,
        ) + serialized.last()
    }
}

/// The exact bytes hashed into a collection fingerprint.
pub open spec fn collection_digest_input(serialized: Seq<Seq<u8>>) -> Seq<u8> {
    encode_utf8(COLLECTION_FINGERPRINT_VERSION@) + framed_serializations(serialized)
}

/// The fingerprint text of a collection of serializations.
pub open spec fn collection_fingerprint(serialized: Seq<Seq<u8>>) -> Seq<char> {
    fingerprint_text(sha256(collection_digest_input(serialized)))
}

/// Total length of a sequence of serializations.
pub open spec fn total_length(serialized: Seq<Seq<u8>>) -> nat
    decreases serialized.len(),
{
    if serialized.len() == 0 {
        0
    } else {
        total_length(serialized.drop_last()) + serialized.last().len()
    }
}

/// `n` as a `u64`, saturating at `u64::MAX`.
pub open spec fn saturating_u64(n: nat) -> u64 {
    if n <= u64::MAX {
        n as u64
    } else {
        u64::MAX
    }
}

/// The smaller of two counts.
pub open spec fn min_count(a: nat, b: nat) -> nat {
    if a <= b {
        a
    } else {
        b
    }
}

/// Kind text of an item before bounding; items without a tag are reported as `unknown`.
pub open spec fn raw_kind(item: SerializedItem) -> Seq<char> {
    match item.kind {
        Some(kind) => kind@,
        None => "unknown"@,
    }
}

/// Metadata record of the item at `index`.
pub open spec fn projected_item(index: int, item: SerializedItem) -> ItemView {
    ItemView {
        index: index as u64,
        kind: bounded_text(raw_kind(item)),
        role: match item.role {
            Some(role) => Some(bounded_text(role@)),
            None => None,
        },
        serialized_bytes: item.serialized@.len() as u64,
    }
}

/// The projection of `items` under an item metadata limit of `max_items`.
pub open spec fn projected_collection(items: Seq<SerializedItem>, max_items: nat) -> CollectionView {
    let represented = min_count(items.len(), max_items);
    CollectionView {
        fingerprint: collection_fingerprint(serializations(items)),
        total_items: items.len() as u64,
        represented_items: represented as u64,
        omitted_items: (items.len() - represented) as u64,
        total_serialized_bytes: saturating_u64(total_length(serializations(items))),
        items: Seq::new(represented, |i: int| projected_item(i, items[i])),
    }
}

/// A collection projection together with the digest of every item, for identity comparison.
pub(crate) struct CollectionProjection {
    pub(crate) collection: ContextItemCollection,
    pub(crate) item_fingerprints: Vec<[u8; 32]>,
}

/// The byte sequences of a sequence of digests.
pub open spec fn digest_views(digests: Seq<[u8; 32]>) -> Seq<Seq<u8>> {
    digests.map_values(|digest: [u8; 32]| digest@)
}

fn project_item(index: usize, item: &SerializedItem) -> (projected: ContextInspectionItem)
    ensures
        projected@ == projected_item(index as int, *item),
{
    let kind = match &item.kind {
        Some(kind) => bounded_metadata_text(kind.as_str()),
        None => bounded_metadata_text("unknown"),
    };
    let role = match &item.role {
        Some(role) => Some(bounded_metadata_text(role.as_str())),
        None => None,
    };
    ContextInspectionItem {
        index: to_u64(index),
        kind,
        role,
        serialized_bytes: to_u64(item.serialized.len()),
    }
}

proof fn lemma_serializations_step(items: Seq<SerializedItem>, i: int)
    requires
        0 <= i < items.len(),
    ensures
        serializations(items.take(i + 1)).drop_last() == serializations(items.take(i)),
        serializations(items.take(i + 1)).last() == items[i].serialized@,
        serializations(items.take(i + 1)).len() == i + 1,
{
    assert(serializations(items.take(i + 1)).drop_last() =~= serializations(items.take(i)));
}

/// Projects `items` into a bounded collection and the digest of every item.
pub(crate) fn project_collection(
    items: &[SerializedItem],
    limits: ContextInspectionLimits,
) -> (projection: CollectionProjection)
    ensures
        projection.collection@ == projected_collection(items@, limits.spec_max_items() as nat),
        digest_views(projection.item_fingerprints@) == item_digests(items@),
{
    let max_items = limits.max_items();
    let mut represented: Vec<ContextInspectionItem> = Vec::new();
    let mut item_fingerprints: Vec<[u8; 32]> = Vec::new();
    let mut total_serialized_bytes: u64 = 0;
    let mut digest_input: Vec<u8> = Vec::new();
    push_bytes(&mut digest_input, COLLECTION_FINGERPRINT_VERSION.as_bytes());
    let ghost all = items@;
    let mut index: usize = 0;
    assert(serializations(all.take(0)) =~= Seq::<Seq<u8>>::empty());
    while index < items.len()
        invariant
            all == items@,
            index <= all.len(),
            max_items == limits.spec_max_items(),
            digest_input@ == collection_digest_input(serializations(all.take(index as int))),
            total_serialized_bytes == saturating_u64(
                total_length(serializations(all.take(index as int))),
            ),
            item_fingerprints@.len() == index,
            forall|j: int|
                0 <= j < index ==> #[trigger] item_fingerprints@[j]@ == sha256(
                    all[j].serialized@,
                ),
            represented@.len() == min_count(index as nat, max_items as nat),
            forall|j: int|
                0 <= j < represented@.len() ==> #[trigger] represented@[j]@ == projected_item(
                    j,
                    all[j],
                ),
        decreases all.len() - index,
    {
        let item = &items[index];
        proof {
            lemma_serializations_step(all, index as int);
        }
        let serialized_bytes = to_u64(item.serialized.len());
        total_serialized_bytes = total_serialized_bytes.saturating_add(serialized_bytes);
        push_be_bytes(&mut digest_input, serialized_bytes);
        push_bytes(&mut digest_input, item.serialized.as_slice());
        item_fingerprints.push(sha256_digest(item.serialized.as_slice()));
        if represented.len() < max_items {
            represented.push(project_item(index, item));
        }
        index = index + 1;
    }
    assert(all.take(all.len() as int) =~= all);
    let total_items = to_u64(items.len());
    let represented_items = to_u64(represented.len());
    let digest = sha256_digest(digest_input.as_slice());
    let collection = ContextItemCollection {
        fingerprint: format_fingerprint(digest),
        total_items,
        represented_items,
        omitted_items: total_items - represented_items,
        total_serialized_bytes,
        items: represented,
    };
    assert(item_views(collection.items@) =~= projected_collection(
        all,
        max_items as nat,
    ).items);
    assert(digest_views(item_fingerprints@) =~= item_digests(all));
    CollectionProjection { collection, item_fingerprints }
}

impl ContextItemCollection {
    /// Keeps only the first `limits.max_items()` item records and recounts them.
    pub(crate) fn apply_limit(&mut self, limits: ContextInspectionLimits)
        ensures
            final(self)@ == limit_collection(old(self)@, limits.spec_max_items() as nat),
    {
        let max_items = limits.max_items();
        self.items.truncate(max_items);
        self.represented_items = to_u64(self.items.len());
        self.omitted_items = self.total_items.saturating_sub(self.represented_items);
        assert(item_views(self.items@) =~= limit_collection(
            old(self)@,
            max_items as nat,
        ).items);
    }
}

/// A collection view re-limited to at most `max_items` item records.
pub open spec fn limit_collection(collection: CollectionView, max_items: nat) -> CollectionView {
    let kept = min_count(collection.items.len(), max_items);
    CollectionView {
        represented_items: kept as u64,
        omitted_items: if collection.total_items >= kept {
            (collection.total_items - kept) as u64
        } else {
            0
        },
        items: collection.items.take(kept as int),
        ..collection
    }
}

/// Framing read from the front: the first serialization's length and bytes, then the rest.
proof fn lemma_framing_from_front(serialized: Seq<Seq<u8>>)
    requires
        serialized.len() > 0,
    ensures
        framed_serializations(serialized) == be_bytes(serialized[0].len() as u64) + serialized[0]
            + framed_serializations(serialized.drop_first()),
    decreases serialized.len(),
{
    if serialized.len() == 1 {
        assert(serialized.drop_last() =~= Seq::<Seq<u8>>::empty());
        assert(serialized.drop_first() =~= Seq::<Seq<u8>>::empty());
        assert(framed_serializations(serialized.drop_last()) =~= Seq::<u8>::empty());
        assert(framed_serializations(serialized.drop_first()) =~= Seq::<u8>::empty());
        assert(serialized.last() == serialized[0]);
        assert(framed_serializations(serialized) =~= be_bytes(serialized[0].len() as u64)
            + serialized[0]);
    } else {
        let init = serialized.drop_last();
        lemma_framing_from_front(init);
        assert(init.drop_first() =~= serialized.drop_first().drop_last());
        assert(serialized.drop_first().last() == serialized.last());
        assert(framed_serializations(serialized) =~= be_bytes(serialized[0].len() as u64)
            + serialized[0] + framed_serializations(serialized.drop_first()));
    }
}

proof fn lemma_be_bytes_injective(x: u64, y: u64)
    requires
        be_bytes(x) == be_bytes(y),
    ensures
        x == y,
{
    assert(be_bytes(x)[0] == be_bytes(y)[0]);
    assert(be_bytes(x)[1] == be_bytes(y)[1]);
    assert(be_bytes(x)[2] == be_bytes(y)[2]);
    assert(be_bytes(x)[3] == be_bytes(y)[3]);
    assert(be_bytes(x)[4] == be_bytes(y)[4]);
    assert(be_bytes(x)[5] == be_bytes(y)[5]);
    assert(be_bytes(x)[6] == be_bytes(y)[6]);
    assert(be_bytes(x)[7] == be_bytes(y)[7]);
    assert(((x >> 56) as u8 == (y >> 56) as u8 && (x >> 48) as u8 == (y >> 48) as u8 && (x
        >> 40) as u8 == (y >> 40) as u8 && (x >> 32) as u8 == (y >> 32) as u8 && (x >> 24) as u8
        == (y >> 24) as u8 && (x >> 16) as u8 == (y >> 16) as u8 && (x >> 8) as u8 == (y >> 8) as u8
        && x as u8 == y as u8) ==> x == y) by (bit_vector);
}

proof fn lemma_framing_injective(a: Seq<Seq<u8>>, b: Seq<Seq<u8>>)
    requires
        forall|i: int| 0 <= i < a.len() ==> #[trigger] a[i].len() <= u64::MAX,
        forall|i: int| 0 <= i < b.len() ==> #[trigger] b[i].len() <= u64::MAX,
        framed_serializations(a) == framed_serializations(b),
    ensures
        a == b,
    decreases a.len(),
{
    if a.len() == 0 {
        assert(framed_serializations(a) =~= Seq::<u8>::empty());
        if b.len() > 0 {
            lemma_framing_from_front(b);
            assert(framed_serializations(b).len() >= 8);
        }
        assert(a =~= b);
    } else if b.len() == 0 {
        lemma_framing_from_front(a);
        assert(framed_serializations(a).len() >= 8);
    } else {
        lemma_framing_from_front(a);
        lemma_framing_from_front(b);
        let fa = framed_serializations(a);
        let la = a[0].len() as int;
        let lb = b[0].len() as int;
        assert(fa.subrange(0, 8) =~= be_bytes(la as u64));
        assert(fa.subrange(0, 8) =~= be_bytes(lb as u64));
        lemma_be_bytes_injective(la as u64, lb as u64);
        assert(la == lb);
        assert(fa.subrange(8, 8 + la) =~= a[0]);
        assert(fa.subrange(8, 8 + lb) =~= b[0]);
        assert(fa.subrange(8 + la, fa.len() as int) =~= framed_serializations(a.drop_first()));
        assert(fa.subrange(8 + lb, fa.len() as int) =~= framed_serializations(b.drop_first()));
        lemma_framing_injective(a.drop_first(), b.drop_first());
        assert(a =~= seq![a[0]] + a.drop_first());
        assert(b =~= seq![b[0]] + b.drop_first());
    }
}

/// The bytes hashed into a collection fingerprint determine the collection: equal inputs come
/// only from the same serialized items in the same order, so reordering, adding, removing or
/// changing an item always changes what is hashed.
pub proof fn lemma_digest_input_determines_collection(a: Seq<Seq<u8>>, b: Seq<Seq<u8>>)
    requires
        forall|i: int| 0 <= i < a.len() ==> #[trigger] a[i].len() <= u64::MAX,
        forall|i: int| 0 <= i < b.len() ==> #[trigger] b[i].len() <= u64::MAX,
        collection_digest_input(a) == collection_digest_input(b),
    ensures
        a == b,
{
    let version = encode_utf8(COLLECTION_FINGERPRINT_VERSION@);
    let ia = collection_digest_input(a);
    assert(ia.subrange(version.len() as int, ia.len() as int) =~= framed_serializations(a));
    assert(ia.subrange(version.len() as int, ia.len() as int) =~= framed_serializations(b));
    lemma_framing_injective(a, b);
}

/// Every item of a projected collection is either represented or omitted, represented items
/// never exceed the limit, and each record describes the item at its own position.
pub proof fn lemma_collection_accounts_for_every_item(items: Seq<SerializedItem>, max_items: nat)
    requires
        items.len() <= u64::MAX,
        forall|i: int| 0 <= i < items.len() ==> #[trigger] items[i].serialized@.len() <= u64::MAX,
    ensures
        ({
            let c = projected_collection(items, max_items);
            &&& c.represented_items + c.omitted_items == c.total_items
            &&& c.total_items == items.len()
            &&& c.represented_items <= max_items
            &&& c.items.len() == c.represented_items
            &&& forall|i: int|
                0 <= i < c.items.len() ==> (#[trigger] c.items[i]).index == i
                    && c.items[i].serialized_bytes == items[i].serialized@.len()
        }),
{
}

/// Re-limiting a collection stored under a larger limit gives exactly the collection projected
/// under the smaller limit.
pub proof fn lemma_relimit_equals_direct_projection(
    items: Seq<SerializedItem>,
    stored_max: nat,
    max_items: nat,
)
    requires
        max_items <= stored_max,
        items.len() <= u64::MAX,
    ensures
        limit_collection(projected_collection(items, stored_max), max_items) == projected_collection(
            items,
            max_items,
        ),
{
    let stored = projected_collection(items, stored_max);
    let direct = projected_collection(items, max_items);
    let limited = limit_collection(stored, max_items);
    assert(limited.items =~= direct.items);
}

} // verus!
