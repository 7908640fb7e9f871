//! Conversion of library snapshots into wire snapshots.

use vstd::prelude::*;

use crate::collection::item_views;
use crate::collection::ContextInspectionItem;
use crate::collection::ContextItemCollection;
use crate::fingerprint::to_u64;
use crate::limits::ContextInspectionLimits;
use crate::limits::HARD_MAX_ITEMS;
use crate::protocol;
use crate::protocol::wire_item_views;
use crate::request::ModelRequestAttemptStatus;
use crate::request::ModelRequestComponentSummary;
use crate::request::ModelRequestInspection;
use crate::request::ModelRequestSnapshot;
use crate::request::ModelRequestTransport;
use crate::snapshot::ContentDisclosure;
use crate::snapshot::CurrentContextSnapshot;
use crate::snapshot::SnapshotView;
use crate::collection::CollectionView;
use crate::collection::SerializedItem;
use crate::observer::inspected_context;
use crate::observer::ObserverView;
use crate::request::RequestView;

verus! {

/// The item limit requested by wire parameters: the requested limit clamped to the hard cap,
/// or the default limit when none is requested.
pub open spec fn requested_max_items(max_items: Option<u32>) -> usize {
    match max_items {
        Some(n) => if n <= HARD_MAX_ITEMS {
            n as usize
        } else {
            HARD_MAX_ITEMS
        },
        None => crate::limits::DEFAULT_MAX_ITEMS,
    }
}

/// Limits requested by wire parameters: the requested item limit clamped to the hard cap, or
/// the default limit when none is requested.
pub fn limits_from_params(max_items: Option<u32>) -> (limits: ContextInspectionLimits)
    ensures
        limits.spec_max_items() == requested_max_items(max_items),
{
    match max_items {
        Some(n) => {
            let requested: usize = if n as u64 <= HARD_MAX_ITEMS as u64 {
                n as usize
            } else {
                HARD_MAX_ITEMS
            };
            ContextInspectionLimits::with_max_items(requested)
        },
        None => ContextInspectionLimits::default(),
    }
}

fn api_context_inspection_item(item: &ContextInspectionItem) -> (wire: protocol::ContextInspectionItem)
    ensures
        wire@ == item@,
{
    let role = match &item.role {
        Some(role) => Some(role.clone()),
        None => None,
    };
    protocol::ContextInspectionItem {
        index: item.index,
        kind: item.kind.clone(),
        role,
        serialized_bytes: item.serialized_bytes,
    }
}

/// Wire form of an item collection.
pub fn api_context_inspection_collection(collection: ContextItemCollection) -> (wire:
    protocol::ContextInspectionCollection)
    ensures
        wire@ == collection@,
{
    let mut items: Vec<protocol::ContextInspectionItem> = Vec::new();
    let mut i: usize = 0;
    while i < collection.items.len()
        invariant
            i <= collection.items@.len(),
            items@.len() == i,
            wire_item_views(items@) == item_views(collection.items@.take(i as int)),
        decreases collection.items@.len() - i,
    {
        let ghost previous = items@;
        let wire = api_context_inspection_item(&collection.items[i]);
        items.push(wire);
        assert forall|j: int| 0 <= j < i + 1 implies wire_item_views(items@)[j] == item_views(
            collection.items@.take(i + 1),
        )[j] by {
            if j < i {
                assert(wire_item_views(previous)[j] == item_views(collection.items@.take(i as int))[j]);
            }
        }
        assert(wire_item_views(items@) =~= item_views(collection.items@.take(i + 1)));
        i = i + 1;
    }
    assert(collection.items@.take(collection.items@.len() as int) =~= collection.items@);
    protocol::ContextInspectionCollection {
        fingerprint: collection.fingerprint,
        total_items: collection.total_items,
        represented_items: collection.represented_items,
        omitted_items: collection.omitted_items,
        total_serialized_bytes: collection.total_serialized_bytes,
        items,
    }
}

/// Wire form of a component summary.
pub fn api_model_request_component(component: ModelRequestComponentSummary) -> (wire:
    protocol::ModelRequestComponentSummary)
    ensures
        wire@ == component@,
{
    protocol::ModelRequestComponentSummary {
        fingerprint: component.fingerprint,
        serialized_bytes: component.serialized_bytes,
    }
}

fn api_optional_component(component: Option<ModelRequestComponentSummary>) -> (wire: Option<
    protocol::ModelRequestComponentSummary,
>)
    ensures
        protocol::wire_component(wire) == crate::request::optional_component(component),
{
    match component {
        Some(c) => Some(api_model_request_component(c)),
        None => None,
    }
}

/// Wire form of a request snapshot.
pub fn api_model_request_snapshot(snapshot: ModelRequestSnapshot) -> (wire:
    protocol::ModelRequestSnapshot)
    ensures
        wire@ == snapshot@,
{
    let status = match snapshot.status {
        ModelRequestAttemptStatus::Prepared => protocol::ModelRequestAttemptStatus::Prepared,
        ModelRequestAttemptStatus::Sent => protocol::ModelRequestAttemptStatus::Sent,
        ModelRequestAttemptStatus::Failed => protocol::ModelRequestAttemptStatus::Failed,
    };
    let transport = match snapshot.transport {
        ModelRequestTransport::ResponsesHttp => protocol::ModelRequestTransport::ResponsesHttp,
        ModelRequestTransport::ResponsesWebsocket => {
            protocol::ModelRequestTransport::ResponsesWebsocket
        },
    };
    let tools = match snapshot.tools {
        Some(tools) => Some(
            protocol::ModelRequestValueCollectionSummary {
                fingerprint: tools.fingerprint,
                total_items: tools.total_items,
                serialized_bytes: tools.serialized_bytes,
            },
        ),
        None => None,
    };
    protocol::ModelRequestSnapshot {
        sequence: snapshot.sequence,
        captured_at: snapshot.captured_at,
        status,
        transport,
        transport_uses_delta: snapshot.transport_uses_delta,
        connection_reused: snapshot.connection_reused,
        transport_input_items: snapshot.transport_input_items,
        model: snapshot.model,
        provider: snapshot.provider,
        fingerprint: snapshot.fingerprint,
        serialized_bytes: snapshot.serialized_bytes,
        normalized_input: api_context_inspection_collection(snapshot.normalized_input),
        provider_input: api_context_inspection_collection(snapshot.provider_input),
        instructions: api_optional_component(snapshot.instructions),
        tools,
        output_schema: api_optional_component(snapshot.output_schema),
    }
}

fn api_optional_request(request: Option<ModelRequestSnapshot>) -> (wire: Option<
    protocol::ModelRequestSnapshot,
>)
    ensures
        protocol::wire_request(wire) == crate::request::optional_request(request),
{
    match request {
        Some(r) => Some(api_model_request_snapshot(r)),
        None => None,
    }
}

/// Wire form of a request inspection.
pub fn api_model_request_inspection(inspection: ModelRequestInspection) -> (wire:
    protocol::ModelRequestInspection)
    ensures
        wire@ == inspection@,
{
    protocol::ModelRequestInspection {
        latest_attempt: api_optional_request(inspection.latest_attempt),
        last_actual: api_optional_request(inspection.last_actual),
        current_normalized_matches_last_actual: inspection.current_normalized_matches_last_actual,
    }
}

/// The wire form of a context snapshot.
pub open spec fn wire_snapshot(snapshot: SnapshotView) -> protocol::WireSnapshotView {
    protocol::WireSnapshotView {
        history_version: snapshot.history_version,
        content_disclosure: protocol::ContextContentDisclosure::MetadataOnly,
        applied_max_items: snapshot.applied_limits.spec_max_items() as u64,
        raw: snapshot.raw,
        normalized: snapshot.normalized,
        normalization: protocol::ContextNormalizationSummary {
            unchanged_items: snapshot.normalization.unchanged_items,
            raw_only_items: snapshot.normalization.raw_only_items,
            normalized_only_items: snapshot.normalization.normalized_only_items,
            changed: snapshot.normalization.changed,
        },
        request: snapshot.request,
    }
}

/// Wire form of a context snapshot.
pub fn api_context_inspection_snapshot(snapshot: CurrentContextSnapshot) -> (wire:
    protocol::ContextInspectionSnapshot)
    ensures
        wire@ == wire_snapshot(snapshot@),
{
    let content_disclosure = match snapshot.content_disclosure {
        ContentDisclosure::MetadataOnly => protocol::ContextContentDisclosure::MetadataOnly,
    };
    protocol::ContextInspectionSnapshot {
        history_version: snapshot.history_version,
        content_disclosure,
        applied_limits: protocol::ContextInspectionLimits {
            max_items: to_u64(snapshot.applied_limits.max_items()),
        },
        raw: api_context_inspection_collection(snapshot.raw),
        normalized: api_context_inspection_collection(snapshot.normalized),
        normalization: protocol::ContextNormalizationSummary {
            unchanged_items: snapshot.normalization.unchanged_items,
            raw_only_items: snapshot.normalization.raw_only_items,
            normalized_only_items: snapshot.normalization.normalized_only_items,
            changed: snapshot.normalization.changed,
        },
        request: api_model_request_inspection(snapshot.request),
    }
}

/// The item records kept by an inspection: none in a collection or in an observed request.
pub open spec fn no_item_records(wire: protocol::WireSnapshotView) -> bool {
    &&& wire.raw.items.len() == 0
    &&& wire.normalized.items.len() == 0
    &&& wire.request.latest_attempt matches Some(r) ==> r.normalized_input.items.len() == 0
        && r.provider_input.items.len() == 0
    &&& wire.request.last_actual matches Some(r) ==> r.normalized_input.items.len() == 0
        && r.provider_input.items.len() == 0
}

/// Two collection views with the same fingerprint and totals.
pub open spec fn same_aggregates(left: CollectionView, right: CollectionView) -> bool {
    &&& left.fingerprint == right.fingerprint
    &&& left.total_items == right.total_items
    &&& left.total_serialized_bytes == right.total_serialized_bytes
}

/// Two optional request views that agree on everything but their item records.
pub open spec fn same_request_aggregates(left: Option<RequestView>, right: Option<RequestView>) -> bool {
    match (left, right) {
        (None, None) => true,
        (Some(l), Some(r)) => {
            &&& RequestView { normalized_input: r.normalized_input, provider_input: r.provider_input, ..l } == r
            &&& same_aggregates(l.normalized_input, r.normalized_input)
            &&& same_aggregates(l.provider_input, r.provider_input)
        },
        _ => false,
    }
}

/// An inspection requested with an item limit of zero discloses no item record, and one
/// requested with the largest limit reports the same fingerprints, totals, normalization
/// summary and request aggregates; with at most [`HARD_MAX_ITEMS`] items in a history,
/// every item of it is then represented.
pub proof fn lemma_item_limit_changes_only_item_records(
    observer: ObserverView,
    history_version: u64,
    raw_items: Seq<SerializedItem>,
    normalized_items: Seq<SerializedItem>,
    zero: ContextInspectionLimits,
    widest: ContextInspectionLimits,
)
    requires
        zero.spec_max_items() == requested_max_items(Some(0u32)),
        widest.spec_max_items() == requested_max_items(Some(u32::MAX)),
    ensures
        no_item_records(
            wire_snapshot(
                inspected_context(observer, history_version, raw_items, normalized_items, zero),
            ),
        ),
        ({
            let none = wire_snapshot(
                inspected_context(observer, history_version, raw_items, normalized_items, zero),
            );
            let all = wire_snapshot(
                inspected_context(observer, history_version, raw_items, normalized_items, widest),
            );
            &&& same_aggregates(none.raw, all.raw)
            &&& same_aggregates(none.normalized, all.normalized)
            &&& none.normalization == all.normalization
            &&& none.history_version == all.history_version
            &&& none.request.current_normalized_matches_last_actual
                == all.request.current_normalized_matches_last_actual
            &&& same_request_aggregates(none.request.latest_attempt, all.request.latest_attempt)
            &&& same_request_aggregates(none.request.last_actual, all.request.last_actual)
            &&& raw_items.len() <= HARD_MAX_ITEMS ==> all.raw.represented_items == all.raw.total_items
            &&& normalized_items.len() <= HARD_MAX_ITEMS ==> all.normalized.represented_items
                == all.normalized.total_items
        }),
{
}

} // verus!
