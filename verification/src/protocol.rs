//! Wire types of the thread context inspection request and response.

use vstd::prelude::*;

use crate::collection::optional_text;
use crate::collection::CollectionView;
use crate::collection::ItemView;
use crate::request::ComponentView;
use crate::request::InspectionView;
use crate::request::RequestView;
use crate::request::ValueCollectionView;

verus! {

/// Parameters of a thread context inspection request.
#[derive(Debug, PartialEq, Eq)]
pub struct ThreadContextInspectParams {
    pub thread_id: String,
    /// Maximum number of item metadata records to return for each collection.
    /// The server clamps this value to its hard limit.
    pub max_items: Option<u32>,
}

/// Response to a thread context inspection request.
#[derive(Debug, PartialEq, Eq)]
pub struct ThreadContextInspectResponse {
    pub snapshot: ContextInspectionSnapshot,
}

/// Whether model-visible content is disclosed in a snapshot.
#[derive(Clone, Copy, Debug, PartialEq, Eq, Structural)]
pub enum ContextContentDisclosure {
    /// Only bounded metadata is disclosed; content, arguments, outputs, schemas, and IDs are not.
    MetadataOnly,
}

/// Limits applied to a snapshot.
#[derive(Clone, Copy, Debug, PartialEq, Eq, Structural)]
pub struct ContextInspectionLimits {
    pub max_items: u64,
}

/// Metadata for one response item.
#[derive(Debug, PartialEq, Eq)]
pub struct ContextInspectionItem {
    pub index: u64,
    /// Bounded serialized response item type tag.
    pub kind: String,
    /// Bounded serialized role when the item has one.
    pub role: Option<String>,
    /// Size of the complete serialized item, including undisclosed content.
    pub serialized_bytes: u64,
}

impl View for ContextInspectionItem {
    type V = ItemView;

    open spec fn view(&self) -> ItemView {
        ItemView {
            index: self.index,
            kind: self.kind@,
            role: optional_text(self.role),
            serialized_bytes: self.serialized_bytes,
        }
    }
}

/// A bounded projection and complete aggregate statistics for one item collection.
#[derive(Debug, PartialEq, Eq)]
pub struct ContextInspectionCollection {
    /// Versioned SHA-256 fingerprint of all complete serialized items in order.
    pub fingerprint: String,
    pub total_items: u64,
    pub represented_items: u64,
    pub omitted_items: u64,
    /// Sum of complete serialized item sizes, including undisclosed content.
    pub total_serialized_bytes: u64,
    pub items: Vec<ContextInspectionItem>,
}

/// Abstract values of a sequence of wire items.
pub open spec fn wire_item_views(items: Seq<ContextInspectionItem>) -> Seq<ItemView> {
    items.map_values(|item: ContextInspectionItem| item@)
}

impl View for ContextInspectionCollection {
    type V = CollectionView;

    open spec fn view(&self) -> CollectionView {
        CollectionView {
            fingerprint: self.fingerprint@,
            total_items: self.total_items,
            represented_items: self.represented_items,
            omitted_items: self.omitted_items,
            total_serialized_bytes: self.total_serialized_bytes,
            items: wire_item_views(self.items@),
        }
    }
}

/// Content-identity comparison between raw and normalized history.
#[derive(Clone, Copy, Debug, PartialEq, Eq, Structural)]
pub struct ContextNormalizationSummary {
    /// Items with identical complete serialization in both collections, counted as a multiset.
    pub unchanged_items: u64,
    pub raw_only_items: u64,
    pub normalized_only_items: u64,
    /// Whether normalization changed item identity, count, or order.
    pub changed: bool,
}

/// Provider transport used for a model request attempt.
#[derive(Clone, Copy, Debug, PartialEq, Eq, Structural)]
pub enum ModelRequestTransport {
    ResponsesHttp,
    ResponsesWebsocket,
}

/// Furthest lifecycle point observed for a model request attempt.
#[derive(Clone, Copy, Debug, PartialEq, Eq, Structural)]
pub enum ModelRequestAttemptStatus {
    Prepared,
    Sent,
    Failed,
}

/// The library status a wire status stands for.
pub open spec fn status_meaning(status: ModelRequestAttemptStatus) -> crate::request::ModelRequestAttemptStatus {
    match status {
        ModelRequestAttemptStatus::Prepared => crate::request::ModelRequestAttemptStatus::Prepared,
        ModelRequestAttemptStatus::Sent => crate::request::ModelRequestAttemptStatus::Sent,
        ModelRequestAttemptStatus::Failed => crate::request::ModelRequestAttemptStatus::Failed,
    }
}

/// The library transport a wire transport stands for.
pub open spec fn transport_meaning(transport: ModelRequestTransport) -> crate::request::ModelRequestTransport {
    match transport {
        ModelRequestTransport::ResponsesHttp => crate::request::ModelRequestTransport::ResponsesHttp,
        ModelRequestTransport::ResponsesWebsocket => crate::request::ModelRequestTransport::ResponsesWebsocket,
    }
}

/// Metadata-only identity and size for one request component.
#[derive(Debug, PartialEq, Eq)]
pub struct ModelRequestComponentSummary {
    pub fingerprint: String,
    pub serialized_bytes: u64,
}

impl View for ModelRequestComponentSummary {
    type V = ComponentView;

    open spec fn view(&self) -> ComponentView {
        ComponentView { fingerprint: self.fingerprint@, serialized_bytes: self.serialized_bytes }
    }
}

/// Metadata-only identity, size, and cardinality for a JSON value collection.
#[derive(Debug, PartialEq, Eq)]
pub struct ModelRequestValueCollectionSummary {
    pub fingerprint: String,
    pub total_items: u64,
    pub serialized_bytes: u64,
}

impl View for ModelRequestValueCollectionSummary {
    type V = ValueCollectionView;

    open spec fn view(&self) -> ValueCollectionView {
        ValueCollectionView {
            fingerprint: self.fingerprint@,
            total_items: self.total_items,
            serialized_bytes: self.serialized_bytes,
        }
    }
}

/// Bounded, metadata-only projection of one complete logical provider request.
#[derive(Debug, PartialEq, Eq)]
pub struct ModelRequestSnapshot {
    pub sequence: u64,
    pub captured_at: i64,
    pub status: ModelRequestAttemptStatus,
    pub transport: ModelRequestTransport,
    pub transport_uses_delta: bool,
    pub connection_reused: bool,
    pub transport_input_items: u64,
    pub model: String,
    pub provider: String,
    pub fingerprint: String,
    pub serialized_bytes: u64,
    pub normalized_input: ContextInspectionCollection,
    pub provider_input: ContextInspectionCollection,
    pub instructions: Option<ModelRequestComponentSummary>,
    pub tools: Option<ModelRequestValueCollectionSummary>,
    pub output_schema: Option<ModelRequestComponentSummary>,
}

/// Abstract value of an optional wire component summary.
pub open spec fn wire_component(component: Option<ModelRequestComponentSummary>) -> Option<ComponentView> {
    match component {
        Some(c) => Some(c@),
        None => None,
    }
}

impl View for ModelRequestSnapshot {
    type V = RequestView;

    open spec fn view(&self) -> RequestView {
        RequestView {
            sequence: self.sequence,
            captured_at: self.captured_at,
            status: status_meaning(self.status),
            transport: transport_meaning(self.transport),
            transport_uses_delta: self.transport_uses_delta,
            connection_reused: self.connection_reused,
            transport_input_items: self.transport_input_items,
            model: self.model@,
            provider: self.provider@,
            fingerprint: self.fingerprint@,
            serialized_bytes: self.serialized_bytes,
            normalized_input: self.normalized_input@,
            provider_input: self.provider_input@,
            instructions: wire_component(self.instructions),
            tools: match self.tools {
                Some(tools) => Some(tools@),
                None => None,
            },
            output_schema: wire_component(self.output_schema),
        }
    }
}

/// Session-scoped observations for the latest attempt and latest sent request.
#[derive(Debug, PartialEq, Eq)]
pub struct ModelRequestInspection {
    pub latest_attempt: Option<ModelRequestSnapshot>,
    pub last_actual: Option<ModelRequestSnapshot>,
    pub current_normalized_matches_last_actual: Option<bool>,
}

/// Abstract value of an optional wire request snapshot.
pub open spec fn wire_request(request: Option<ModelRequestSnapshot>) -> Option<RequestView> {
    match request {
        Some(r) => Some(r@),
        None => None,
    }
}

impl View for ModelRequestInspection {
    type V = InspectionView;

    open spec fn view(&self) -> InspectionView {
        InspectionView {
            latest_attempt: wire_request(self.latest_attempt),
            last_actual: wire_request(self.last_actual),
            current_normalized_matches_last_actual: self.current_normalized_matches_last_actual,
        }
    }
}

/// A point-in-time projection of current raw and normalized history.
#[derive(Debug, PartialEq, Eq)]
pub struct ContextInspectionSnapshot {
    /// History rewrite generation from the live context manager.
    pub history_version: u64,
    pub content_disclosure: ContextContentDisclosure,
    pub applied_limits: ContextInspectionLimits,
    /// Current history before production prompt normalization.
    pub raw: ContextInspectionCollection,
    /// Current history after production prompt normalization.
    pub normalized: ContextInspectionCollection,
    pub normalization: ContextNormalizationSummary,
    pub request: ModelRequestInspection,
}

/// Abstract value of a [`ContextInspectionSnapshot`].
pub struct WireSnapshotView {
    pub history_version: u64,
    pub content_disclosure: ContextContentDisclosure,
    pub applied_max_items: u64,
    pub raw: CollectionView,
    pub normalized: CollectionView,
    pub normalization: ContextNormalizationSummary,
    pub request: InspectionView,
}

impl View for ContextInspectionSnapshot {
    type V = WireSnapshotView;

    open spec fn view(&self) -> WireSnapshotView {
        WireSnapshotView {
            history_version: self.history_version,
            content_disclosure: self.content_disclosure,
            applied_max_items: self.applied_limits.max_items,
            raw: self.raw@,
            normalized: self.normalized@,
            normalization: self.normalization,
            request: self.request@,
        }
    }
}

} // verus!
