use vstd::prelude::*;
use vstd::utf8::encode_utf8;

use crate::collection::optional_text;
use crate::collection::project_collection;
use crate::collection::projected_item;
use crate::collection::serializations;
use crate::collection::projected_collection;
use crate::collection::limit_collection;
use crate::collection::CollectionView;
use crate::collection::collection_fingerprint;
use crate::collection::min_count;
use crate::collection::saturating_u64;
use crate::collection::total_length;
use crate::collection::ContextItemCollection;
use crate::collection::SerializedItem;
use crate::fingerprint::be_bytes;
use crate::fingerprint::fingerprint_text;
use crate::fingerprint::format_fingerprint;
use crate::fingerprint::push_be_bytes;
use crate::fingerprint::push_bytes;
use crate::fingerprint::sha256;
use crate::fingerprint::sha256_digest;
use crate::fingerprint::to_u64;
use crate::limits::ContextInspectionLimits;
use crate::limits::HARD_MAX_ITEMS;
use crate::metadata::bounded_metadata_text;
use crate::metadata::bounded_text;

verus! {

/// Version tag that starts the digest input of a complete request fingerprint.
pub const REQUEST_FINGERPRINT_VERSION: &'static str = "codex-model-request-v2\0";

/// Version tag that starts the digest input of a request component fingerprint.
pub const COMPONENT_FINGERPRINT_VERSION: &'static str = "codex-model-request-component-v2\0";

/// The JSON serialization of a string, as produced by `serde_json::to_vec`.
pub uninterp spec fn json_string(text: Seq<char>) -> Seq<u8>;

/// Serializes `text` as a JSON string with `serde_json::to_vec`.
///
/// Trusted: the bytes are exactly what `serde_json` produces for the string, a function of its
/// characters alone. Serializing a string into a `Vec` cannot fail in `serde_json` (the writer
/// never errors), so the error arm is unreachable; nothing is claimed about the escaping rules.
#[verifier::external_body]
fn serialize_json_string(text: &str) -> (serialized: Vec<u8>)
    ensures
        serialized@ == json_string(text@),
{
    match serde_json::to_vec(text) {
        Ok(serialized) => serialized,
        Err(_) => Vec::new(),
    }
}

/// Provider transport used for a model request attempt.
#[derive(Clone, Copy, Debug, PartialEq, Eq, Structural)]
pub enum ModelRequestTransport {
    ResponsesHttp,
    ResponsesWebsocket,
}

/// Furthest lifecycle point observed for a model request attempt.
#[derive(Clone, Copy, Debug, PartialEq, Eq, Structural)]
pub enum ModelRequestAttemptStatus {
    Prepared,
    Sent,
    Failed,
}

/// Metadata-only identity and size for one request component.
#[derive(Debug, PartialEq, Eq)]
pub struct ModelRequestComponentSummary {
    pub fingerprint: String,
    pub serialized_bytes: u64,
}

/// Abstract value of a [`ModelRequestComponentSummary`].
pub struct ComponentView {
    pub fingerprint: Seq<char>,
    pub serialized_bytes: u64,
}

impl View for ModelRequestComponentSummary {
    type V = ComponentView;

    open spec fn view(&self) -> ComponentView {
        ComponentView { fingerprint: self.fingerprint@, serialized_bytes: self.serialized_bytes }
    }
}

impl Clone for ModelRequestComponentSummary {
    fn clone(&self) -> (copy: Self)
        ensures
            copy@ == self@,
    {
        ModelRequestComponentSummary {
            fingerprint: self.fingerprint.clone(),
            serialized_bytes: self.serialized_bytes,
        }
    }
}

/// Metadata-only identity, size, and cardinality for a JSON value collection.
#[derive(Debug, PartialEq, Eq)]
pub struct ModelRequestValueCollectionSummary {
    pub fingerprint: String,
    pub total_items: u64,
    pub serialized_bytes: u64,
}

/// Abstract value of a [`ModelRequestValueCollectionSummary`].
pub struct ValueCollectionView {
    pub fingerprint: Seq<char>,
    pub total_items: u64,
    pub serialized_bytes: u64,
}

impl View for ModelRequestValueCollectionSummary {
    type V = ValueCollectionView;

    open spec fn view(&self) -> ValueCollectionView {
        ValueCollectionView {
            fingerprint: self.fingerprint@,
            total_items: self.total_items,
            serialized_bytes: self.serialized_bytes,
        }
    }
}

impl Clone for ModelRequestValueCollectionSummary {
    fn clone(&self) -> (copy: Self)
        ensures
            copy@ == self@,
    {
        ModelRequestValueCollectionSummary {
            fingerprint: self.fingerprint.clone(),
            total_items: self.total_items,
            serialized_bytes: self.serialized_bytes,
        }
    }
}

/// Inputs needed to project one complete logical provider request without retaining its
/// contents.
pub struct ModelRequestProjection<'a> {
    pub sequence: u64,
    pub captured_at: i64,
    pub transport: ModelRequestTransport,
    pub transport_uses_delta: bool,
    pub connection_reused: bool,
    pub transport_input_items: usize,
    pub model: &'a str,
    pub provider: &'a str,
    /// Complete serialized logical provider request.
    pub serialized_request: &'a [u8],
    pub normalized_input: &'a [SerializedItem],
    pub provider_input: &'a [SerializedItem],
    pub instructions: Option<&'a str>,
    /// Complete serialization of every tool definition, in order.
    pub tools: Option<&'a [Vec<u8>]>,
    /// Complete serialization of the output schema.
    pub output_schema: Option<&'a [u8]>,
}

/// Bounded, metadata-only projection of one complete logical provider request.
#[derive(Debug, PartialEq, Eq)]
pub struct ModelRequestSnapshot {
    pub sequence: u64,
    /// Unix timestamp in seconds when the request was prepared.
    pub captured_at: i64,
    pub status: ModelRequestAttemptStatus,
    pub transport: ModelRequestTransport,
    /// Whether the WebSocket transport sent only a delta with `previous_response_id`.
    pub transport_uses_delta: bool,
    /// Whether the WebSocket connection was reused. Always false for HTTP.
    pub connection_reused: bool,
    /// Number of input items present in the actual transport payload.
    pub transport_input_items: u64,
    pub model: String,
    pub provider: String,
    /// Identity of the complete logical provider request, not a WebSocket delta payload.
    pub fingerprint: String,
    pub serialized_bytes: u64,
    /// Production prompt input before provider-specific request adaptation.
    pub normalized_input: ContextItemCollection,
    /// Complete logical input after provider-specific request adaptation.
    pub provider_input: ContextItemCollection,
    pub instructions: Option<ModelRequestComponentSummary>,
    pub tools: Option<ModelRequestValueCollectionSummary>,
    pub output_schema: Option<ModelRequestComponentSummary>,
}

/// Abstract value of a [`ModelRequestSnapshot`].
pub struct RequestView {
    pub sequence: u64,
    pub captured_at: i64,
    pub status: ModelRequestAttemptStatus,
    pub transport: ModelRequestTransport,
    pub transport_uses_delta: bool,
    pub connection_reused: bool,
    pub transport_input_items: u64,
    pub model: Seq<char>,
    pub provider: Seq<char>,
    pub fingerprint: Seq<char>,
    pub serialized_bytes: u64,
    pub normalized_input: CollectionView,
    pub provider_input: CollectionView,
    pub instructions: Option<ComponentView>,
    pub tools: Option<ValueCollectionView>,
    pub output_schema: Option<ComponentView>,
}

/// Abstract value of an optional component summary.
pub open spec fn optional_component(
    component: Option<ModelRequestComponentSummary>,
) -> Option<ComponentView> {
    match component {
        Some(c) => Some(c@),
        None => None,
    }
}

/// Abstract value of an optional value collection summary.
pub open spec fn optional_value_collection(
    collection: Option<ModelRequestValueCollectionSummary>,
) -> Option<ValueCollectionView> {
    match collection {
        Some(c) => Some(c@),
        None => None,
    }
}

impl View for ModelRequestSnapshot {
    type V = RequestView;

    open spec fn view(&self) -> RequestView {
        RequestView {
            sequence: self.sequence,
            captured_at: self.captured_at,
            status: self.status,
            transport: self.transport,
            transport_uses_delta: self.transport_uses_delta,
            connection_reused: self.connection_reused,
            transport_input_items: self.transport_input_items,
            model: self.model@,
            provider: self.provider@,
            fingerprint: self.fingerprint@,
            serialized_bytes: self.serialized_bytes,
            normalized_input: self.normalized_input@,
            provider_input: self.provider_input@,
            instructions: optional_component(self.instructions),
            tools: optional_value_collection(self.tools),
            output_schema: optional_component(self.output_schema),
        }
    }
}

fn clone_component(
    component: &Option<ModelRequestComponentSummary>,
) -> (copy: Option<ModelRequestComponentSummary>)
    ensures
        optional_component(copy) == optional_component(*component),
{
    match component {
        Some(c) => Some(c.clone()),
        None => None,
    }
}

impl Clone for ModelRequestSnapshot {
    fn clone(&self) -> (copy: Self)
        ensures
            copy@ == self@,
    {
        let tools = match &self.tools {
            Some(tools) => Some(tools.clone()),
            None => None,
        };
        ModelRequestSnapshot {
            sequence: self.sequence,
            captured_at: self.captured_at,
            status: self.status,
            transport: self.transport,
            transport_uses_delta: self.transport_uses_delta,
            connection_reused: self.connection_reused,
            transport_input_items: self.transport_input_items,
            model: self.model.clone(),
            provider: self.provider.clone(),
            fingerprint: self.fingerprint.clone(),
            serialized_bytes: self.serialized_bytes,
            normalized_input: self.normalized_input.clone(),
            provider_input: self.provider_input.clone(),
            instructions: clone_component(&self.instructions),
            tools,
            output_schema: clone_component(&self.output_schema),
        }
    }
}

/// Summary of a serialized value under a version tag: the fingerprint covers the tag, the
/// serialization, and the serialization's big-endian length, in that order.
pub open spec fn serialized_component(version: &str, serialized: Seq<u8>) -> ComponentView {
    ComponentView {
        fingerprint: fingerprint_text(
            sha256(encode_utf8(version@) + serialized + be_bytes(serialized.len() as u64)),
        ),
        serialized_bytes: serialized.len() as u64,
    }
}

/// Elements separated by commas.
pub open spec fn comma_joined(elements: Seq<Seq<u8>>) -> Seq<u8>
    decreases elements.len(),
{
    if elements.len() == 0 {
        seq![]
    } else if elements.len() == 1 {
        elements[0]
    } else {
        comma_joined(elements.drop_last()) + seq![',' as u8] + elements.last()
    }
}

/// Compact JSON array text of already serialized elements.
pub open spec fn json_array(elements: Seq<Seq<u8>>) -> Seq<u8> {
    seq!['[' as u8] + comma_joined(elements) + seq![']' as u8]
}

/// The serializations held by a slice of byte vectors.
pub open spec fn byte_views(values: Seq<Vec<u8>>) -> Seq<Seq<u8>> {
    values.map_values(|value: Vec<u8>| value@)
}

/// Summary of a tool collection.
pub open spec fn value_collection(values: Seq<Seq<u8>>) -> ValueCollectionView {
    let summary = serialized_component(COMPONENT_FINGERPRINT_VERSION, json_array(values));
    ValueCollectionView {
        fingerprint: summary.fingerprint,
        total_items: values.len() as u64,
        serialized_bytes: summary.serialized_bytes,
    }
}

/// The projection of a complete logical request.
pub open spec fn projected_request(projection: ModelRequestProjection) -> RequestView {
    let request = serialized_component(
        REQUEST_FINGERPRINT_VERSION,
        projection.serialized_request@,
    );
    RequestView {
        sequence: projection.sequence,
        captured_at: projection.captured_at,
        status: ModelRequestAttemptStatus::Prepared,
        transport: projection.transport,
        transport_uses_delta: projection.transport_uses_delta,
        connection_reused: projection.connection_reused,
        transport_input_items: projection.transport_input_items as u64,
        model: bounded_text(projection.model@),
        provider: bounded_text(projection.provider@),
        fingerprint: request.fingerprint,
        serialized_bytes: request.serialized_bytes,
        normalized_input: projected_collection(projection.normalized_input@, HARD_MAX_ITEMS as nat),
        provider_input: projected_collection(projection.provider_input@, HARD_MAX_ITEMS as nat),
        instructions: match projection.instructions {
            Some(text) => Some(
                serialized_component(COMPONENT_FINGERPRINT_VERSION, json_string(text@)),
            ),
            None => None,
        },
        tools: match projection.tools {
            Some(tools) => Some(value_collection(byte_views(tools@))),
            None => None,
        },
        output_schema: match projection.output_schema {
            Some(schema) => Some(serialized_component(COMPONENT_FINGERPRINT_VERSION, schema@)),
            None => None,
        },
    }
}

/// Fingerprints and measures an already serialized value under a version tag.
pub(crate) fn serialized_summary(version: &str, serialized: &[u8]) -> (summary:
    ModelRequestComponentSummary)
    ensures
        summary@ == serialized_component(version, serialized@),
{
    let serialized_bytes = to_u64(serialized.len());
    let mut digest_input: Vec<u8> = Vec::new();
    push_bytes(&mut digest_input, version.as_bytes());
    push_bytes(&mut digest_input, serialized);
    push_be_bytes(&mut digest_input, serialized_bytes);
    ModelRequestComponentSummary {
        fingerprint: format_fingerprint(sha256_digest(digest_input.as_slice())),
        serialized_bytes,
    }
}

/// Summary of one component value: instructions text serialized as a JSON string.
fn instructions_summary(instructions: &str) -> (summary: ModelRequestComponentSummary)
    ensures
        summary@ == serialized_component(COMPONENT_FINGERPRINT_VERSION, json_string(instructions@)),
{
    let serialized = serialize_json_string(instructions);
    serialized_summary(COMPONENT_FINGERPRINT_VERSION, serialized.as_slice())
}

/// Summary of a tool collection serialized as a compact JSON array.
fn value_collection_summary(values: &[Vec<u8>]) -> (summary: ModelRequestValueCollectionSummary)
    ensures
        summary@ == value_collection(byte_views(values@)),
{
    let ghost elements = byte_views(values@);
    let mut array: Vec<u8> = Vec::new();
    array.push('[' as u8);
    let mut i: usize = 0;
    while i < values.len()
        invariant
            elements == byte_views(values@),
            i <= values@.len(),
            array@ == seq!['[' as u8] + comma_joined(elements.take(i as int)),
        decreases values@.len() - i,
    {
        proof {
            assert(elements.take(i + 1).drop_last() =~= elements.take(i as int));
        }
        if i > 0 {
            array.push(',' as u8);
        } else {
            assert(elements.take(0) =~= Seq::<Seq<u8>>::empty());
        }
        push_bytes(&mut array, values[i].as_slice());
        assert(array@ =~= seq!['[' as u8] + comma_joined(elements.take(i + 1)));
        i = i + 1;
    }
    array.push(']' as u8);
    assert(elements.take(values@.len() as int) =~= elements);
    assert(array@ =~= json_array(elements));
    let summary = serialized_summary(COMPONENT_FINGERPRINT_VERSION, array.as_slice());
    ModelRequestValueCollectionSummary {
        fingerprint: summary.fingerprint,
        total_items: to_u64(values.len()),
        serialized_bytes: summary.serialized_bytes,
    }
}

/// Whether two items have the same serialization and the same tags.
pub open spec fn same_item(a: SerializedItem, b: SerializedItem) -> bool {
    &&& a.serialized@ == b.serialized@
    &&& optional_text(a.kind) == optional_text(b.kind)
    &&& optional_text(a.role) == optional_text(b.role)
}

fn same_bytes(a: &[u8], b: &[u8]) -> (same: bool)
    ensures
        same == (a@ == b@),
{
    if a.len() != b.len() {
        return false;
    }
    let mut i: usize = 0;
    while i < a.len()
        invariant
            a@.len() == b@.len(),
            i <= a@.len(),
            forall|j: int| 0 <= j < i ==> a@[j] == b@[j],
        decreases a@.len() - i,
    {
        if a[i] != b[i] {
            return false;
        }
        i = i + 1;
    }
    assert(a@ =~= b@);
    true
}

fn same_text(a: &Option<String>, b: &Option<String>) -> (same: bool)
    ensures
        same == (optional_text(*a) == optional_text(*b)),
{
    match (a, b) {
        (Some(x), Some(y)) => *x == *y,
        (None, None) => true,
        _ => false,
    }
}

fn same_items(a: &[SerializedItem], b: &[SerializedItem]) -> (same: bool)
    ensures
        same == (a@.len() == b@.len() && forall|j: int|
            0 <= j < a@.len() ==> #[trigger] same_item(a@[j], b@[j])),
{
    if a.len() != b.len() {
        return false;
    }
    let mut i: usize = 0;
    while i < a.len()
        invariant
            a@.len() == b@.len(),
            i <= a@.len(),
            forall|j: int| 0 <= j < i ==> #[trigger] same_item(a@[j], b@[j]),
        decreases a@.len() - i,
    {
        let x = &a[i];
        let y = &b[i];
        if !same_bytes(x.serialized.as_slice(), y.serialized.as_slice()) || !same_text(
            &x.kind,
            &y.kind,
        ) || !same_text(&x.role, &y.role) {
            assert(!same_item(a@[i as int], b@[i as int]));
            return false;
        }
        i = i + 1;
    }
    true
}

proof fn lemma_same_items_project_equally(
    a: Seq<SerializedItem>,
    b: Seq<SerializedItem>,
    max_items: nat,
)
    requires
        a.len() == b.len(),
        forall|j: int| 0 <= j < a.len() ==> #[trigger] same_item(a[j], b[j]),
    ensures
        projected_collection(a, max_items) == projected_collection(b, max_items),
{
    assert forall|i: int| 0 <= i < a.len() implies serializations(a)[i] == serializations(
        b,
    )[i] by {
        assert(same_item(a[i], b[i]));
    }
    assert(serializations(a) =~= serializations(b));
    let pa = projected_collection(a, max_items);
    let pb = projected_collection(b, max_items);
    assert forall|i: int| 0 <= i < pa.items.len() implies pa.items[i] == pb.items[i] by {
        assert(same_item(a[i], b[i]));
        assert(projected_item(i, a[i]) == projected_item(i, b[i]));
    }
    assert(pa.items =~= pb.items);
}

impl ModelRequestSnapshot {
    /// Projects one complete logical provider request, keeping at most [`HARD_MAX_ITEMS`]
    /// item records per input collection.
    pub fn project(projection: ModelRequestProjection<'_>) -> (snapshot: Self)
        ensures
            snapshot@ == projected_request(projection),
    {
        let storage_limits = ContextInspectionLimits::with_max_items(HARD_MAX_ITEMS);
        let normalized_input = project_collection(projection.normalized_input, storage_limits);
        let provider_input = if same_items(projection.normalized_input, projection.provider_input) {
            proof {
                lemma_same_items_project_equally(
                    projection.normalized_input@,
                    projection.provider_input@,
                    HARD_MAX_ITEMS as nat,
                );
            }
            normalized_input.collection.clone()
        } else {
            project_collection(projection.provider_input, storage_limits).collection
        };
        let request = serialized_summary(REQUEST_FINGERPRINT_VERSION, projection.serialized_request);
        let instructions = match projection.instructions {
            Some(text) => Some(instructions_summary(text)),
            None => None,
        };
        let tools = match projection.tools {
            Some(values) => Some(value_collection_summary(values)),
            None => None,
        };
        let output_schema = match projection.output_schema {
            Some(schema) => Some(serialized_summary(COMPONENT_FINGERPRINT_VERSION, schema)),
            None => None,
        };
        ModelRequestSnapshot {
            sequence: projection.sequence,
            captured_at: projection.captured_at,
            status: ModelRequestAttemptStatus::Prepared,
            transport: projection.transport,
            transport_uses_delta: projection.transport_uses_delta,
            connection_reused: projection.connection_reused,
            transport_input_items: to_u64(projection.transport_input_items),
            model: bounded_metadata_text(projection.model),
            provider: bounded_metadata_text(projection.provider),
            fingerprint: request.fingerprint,
            serialized_bytes: request.serialized_bytes,
            normalized_input: normalized_input.collection,
            provider_input,
            instructions,
            tools,
            output_schema,
        }
    }

    fn apply_limit(&mut self, limits: ContextInspectionLimits)
        ensures
            final(self)@ == limit_request(old(self)@, limits.spec_max_items() as nat),
    {
        self.normalized_input.apply_limit(limits);
        self.provider_input.apply_limit(limits);
    }
}

/// A request view with both input collections re-limited to `max_items` item records.
pub open spec fn limit_request(request: RequestView, max_items: nat) -> RequestView {
    RequestView {
        normalized_input: limit_collection(request.normalized_input, max_items),
        provider_input: limit_collection(request.provider_input, max_items),
        ..request
    }
}

/// Session-scoped observations for the latest attempt and latest sent request.
#[derive(Debug, PartialEq, Eq)]
pub struct ModelRequestInspection {
    pub latest_attempt: Option<ModelRequestSnapshot>,
    pub last_actual: Option<ModelRequestSnapshot>,
    /// `None` until a request has been sent successfully at the transport boundary.
    pub current_normalized_matches_last_actual: Option<bool>,
}

/// Abstract value of a [`ModelRequestInspection`].
pub struct InspectionView {
    pub latest_attempt: Option<RequestView>,
    pub last_actual: Option<RequestView>,
    pub current_normalized_matches_last_actual: Option<bool>,
}

/// Abstract value of an optional request snapshot.
pub open spec fn optional_request(request: Option<ModelRequestSnapshot>) -> Option<RequestView> {
    match request {
        Some(r) => Some(r@),
        None => None,
    }
}

/// An optional request view re-limited to `max_items` item records.
pub open spec fn limit_optional_request(
    request: Option<RequestView>,
    max_items: nat,
) -> Option<RequestView> {
    match request {
        Some(r) => Some(limit_request(r, max_items)),
        None => None,
    }
}

impl View for ModelRequestInspection {
    type V = InspectionView;

    open spec fn view(&self) -> InspectionView {
        InspectionView {
            latest_attempt: optional_request(self.latest_attempt),
            last_actual: optional_request(self.last_actual),
            current_normalized_matches_last_actual: self.current_normalized_matches_last_actual,
        }
    }
}

impl Default for ModelRequestInspection {
    fn default() -> (inspection: Self)
        ensures
            inspection@ == (InspectionView {
                latest_attempt: None,
                last_actual: None,
                current_normalized_matches_last_actual: None,
            }),
    {
        ModelRequestInspection {
            latest_attempt: None,
            last_actual: None,
            current_normalized_matches_last_actual: None,
        }
    }
}

fn clone_request(request: &Option<ModelRequestSnapshot>) -> (copy: Option<ModelRequestSnapshot>)
    ensures
        optional_request(copy) == optional_request(*request),
{
    match request {
        Some(r) => Some(r.clone()),
        None => None,
    }
}

impl Clone for ModelRequestInspection {
    fn clone(&self) -> (copy: Self)
        ensures
            copy@ == self@,
    {
        ModelRequestInspection {
            latest_attempt: clone_request(&self.latest_attempt),
            last_actual: clone_request(&self.last_actual),
            current_normalized_matches_last_actual: self.current_normalized_matches_last_actual,
        }
    }
}

fn limit_snapshot(
    request: Option<ModelRequestSnapshot>,
    limits: ContextInspectionLimits,
) -> (limited: Option<ModelRequestSnapshot>)
    ensures
        optional_request(limited) == limit_optional_request(
            optional_request(request),
            limits.spec_max_items() as nat,
        ),
{
    match request {
        Some(mut snapshot) => {
            snapshot.apply_limit(limits);
            Some(snapshot)
        },
        None => None,
    }
}

impl ModelRequestInspection {
    /// Re-limits the item records of both observed requests to `limits`.
    pub fn with_limits(self, limits: ContextInspectionLimits) -> (limited: Self)
        ensures
            limited@ == (InspectionView {
                latest_attempt: limit_optional_request(
                    self@.latest_attempt,
                    limits.spec_max_items() as nat,
                ),
                last_actual: limit_optional_request(
                    self@.last_actual,
                    limits.spec_max_items() as nat,
                ),
                ..self@
            }),
    {
        ModelRequestInspection {
            latest_attempt: limit_snapshot(self.latest_attempt, limits),
            last_actual: limit_snapshot(self.last_actual, limits),
            current_normalized_matches_last_actual: self.current_normalized_matches_last_actual,
        }
    }
}

/// Re-limiting a collection changes only its item records: the fingerprint, the item total
/// and the byte total stay, the records kept are the first ones, at most `max_items` of them,
/// and the represented and omitted counts describe what was kept.
pub proof fn lemma_limit_keeps_collection_aggregates(collection: CollectionView, max_items: nat)
    ensures
        limit_collection(collection, max_items).fingerprint == collection.fingerprint,
        limit_collection(collection, max_items).total_items == collection.total_items,
        limit_collection(collection, max_items).total_serialized_bytes
            == collection.total_serialized_bytes,
        limit_collection(collection, max_items).items.len() <= max_items,
        limit_collection(collection, max_items).items.len() <= collection.items.len(),
        collection.items.len() <= max_items ==> limit_collection(collection, max_items).items
            == collection.items,
        collection.items.len() > max_items ==> limit_collection(collection, max_items).items.len()
            == max_items,
        forall|i: int|
            0 <= i < limit_collection(collection, max_items).items.len() ==> #[trigger] limit_collection(
                collection,
                max_items,
            ).items[i] == collection.items[i],
        limit_collection(collection, max_items).represented_items == limit_collection(
            collection,
            max_items,
        ).items.len() as u64,
        collection.total_items >= limit_collection(collection, max_items).items.len() ==> limit_collection(
            collection,
            max_items,
        ).omitted_items + limit_collection(collection, max_items).represented_items
            == collection.total_items,
{
    let limited = limit_collection(collection, max_items);
    if collection.items.len() <= max_items {
        assert(limited.items =~= collection.items);
    }
}

/// Re-limiting a request view changes only the item records of its two input collections:
/// every other field stays, and each input collection keeps its own fingerprint, totals and
/// leading records, so the provider input never takes on the normalized input's values.
pub proof fn lemma_limit_changes_only_request_item_records(request: RequestView, max_items: nat)
    ensures
        (RequestView {
            normalized_input: request.normalized_input,
            provider_input: request.provider_input,
            ..limit_request(request, max_items)
        }) == request,
        limit_request(request, max_items).normalized_input.fingerprint
            == request.normalized_input.fingerprint,
        limit_request(request, max_items).normalized_input.total_items
            == request.normalized_input.total_items,
        limit_request(request, max_items).normalized_input.total_serialized_bytes
            == request.normalized_input.total_serialized_bytes,
        limit_request(request, max_items).normalized_input.items == request.normalized_input.items.take(
            limit_request(request, max_items).normalized_input.items.len() as int,
        ),
        limit_request(request, max_items).normalized_input.items.len() == min_count(
            request.normalized_input.items.len(),
            max_items,
        ),
        limit_request(request, max_items).provider_input.fingerprint
            == request.provider_input.fingerprint,
        limit_request(request, max_items).provider_input.total_items
            == request.provider_input.total_items,
        limit_request(request, max_items).provider_input.total_serialized_bytes
            == request.provider_input.total_serialized_bytes,
        limit_request(request, max_items).provider_input.items == request.provider_input.items.take(
            limit_request(request, max_items).provider_input.items.len() as int,
        ),
        limit_request(request, max_items).provider_input.items.len() == min_count(
            request.provider_input.items.len(),
            max_items,
        ),
{
    lemma_limit_keeps_collection_aggregates(request.normalized_input, max_items);
    lemma_limit_keeps_collection_aggregates(request.provider_input, max_items);
}

/// Each input collection of a request snapshot is projected from its own items alone: two
/// projections with the same provider items report the same provider input, and two with the
/// same normalized items the same normalized input, whatever the other input holds. The
/// provider input carries the fingerprint of the provider items' serializations in order, their
/// count and byte total, and one record per provider item up to the hard cap.
pub proof fn lemma_inputs_are_projected_from_their_own_items<'a>(
    first: ModelRequestProjection<'a>,
    second: ModelRequestProjection<'a>,
)
    ensures
        first.provider_input@ == second.provider_input@ ==> projected_request(first).provider_input
            == projected_request(second).provider_input,
        first.normalized_input@ == second.normalized_input@ ==> projected_request(
            first,
        ).normalized_input == projected_request(second).normalized_input,
        projected_request(first).provider_input.fingerprint == collection_fingerprint(
            serializations(first.provider_input@),
        ),
        projected_request(first).provider_input.total_items == first.provider_input@.len() as u64,
        projected_request(first).provider_input.total_serialized_bytes == saturating_u64(
            total_length(serializations(first.provider_input@)),
        ),
        projected_request(first).provider_input.items.len() == min_count(
            first.provider_input@.len(),
            HARD_MAX_ITEMS as nat,
        ),
        forall|i: int|
            0 <= i < projected_request(first).provider_input.items.len() ==> #[trigger] projected_request(
                first,
            ).provider_input.items[i] == projected_item(i, first.provider_input@[i]),
        projected_request(first).normalized_input.fingerprint == collection_fingerprint(
            serializations(first.normalized_input@),
        ),
{
}

} // verus!
