use vstd::prelude::*;

use crate::collection::item_digests;
use crate::collection::project_collection;
use crate::collection::projected_collection;
use crate::collection::CollectionView;
use crate::collection::ContextItemCollection;
use crate::collection::SerializedItem;
use crate::limits::ContextInspectionLimits;
use crate::normalization::lemma_identical_collections_are_unchanged;
use crate::normalization::normalization_summary;
use crate::normalization::summarize_normalization;
use crate::normalization::ContextNormalizationSummary;
use crate::request::InspectionView;
use crate::request::ModelRequestInspection;

verus! {

/// Describes whether model-visible content is included in a snapshot.
#[derive(Clone, Copy, Debug, PartialEq, Eq, Structural)]
pub enum ContentDisclosure {
    /// Only bounded metadata is disclosed; content, arguments, outputs, schemas, and IDs are not.
    MetadataOnly,
}

/// A point-in-time projection of current raw and normalized history.
#[derive(Debug, PartialEq, Eq)]
pub struct CurrentContextSnapshot {
    /// History rewrite generation from the source context manager.
    pub history_version: u64,
    /// Disclosure policy used for this projection.
    pub content_disclosure: ContentDisclosure,
    /// Limits after hard-cap enforcement.
    pub applied_limits: ContextInspectionLimits,
    /// Current history before prompt normalization.
    pub raw: ContextItemCollection,
    /// Current history after prompt normalization.
    pub normalized: ContextItemCollection,
    /// Identity-level summary of normalization effects.
    pub normalization: ContextNormalizationSummary,
    /// Latest prepared request attempt and latest request that was sent.
    pub request: ModelRequestInspection,
}

/// Abstract value of a [`CurrentContextSnapshot`].
pub struct SnapshotView {
    pub history_version: u64,
    pub content_disclosure: ContentDisclosure,
    pub applied_limits: ContextInspectionLimits,
    pub raw: CollectionView,
    pub normalized: CollectionView,
    pub normalization: ContextNormalizationSummary,
    pub request: InspectionView,
}

impl View for CurrentContextSnapshot {
    type V = SnapshotView;

    open spec fn view(&self) -> SnapshotView {
        SnapshotView {
            history_version: self.history_version,
            content_disclosure: self.content_disclosure,
            applied_limits: self.applied_limits,
            raw: self.raw@,
            normalized: self.normalized@,
            normalization: self.normalization,
            request: self.request@,
        }
    }
}

/// An inspection with no observed request.
pub open spec fn no_requests() -> InspectionView {
    InspectionView { latest_attempt: None, last_actual: None, current_normalized_matches_last_actual: None }
}

/// The projection of raw and normalized history under `limits`.
pub open spec fn projected_snapshot(
    history_version: u64,
    raw_items: Seq<SerializedItem>,
    normalized_items: Seq<SerializedItem>,
    limits: ContextInspectionLimits,
) -> SnapshotView {
    SnapshotView {
        history_version,
        content_disclosure: ContentDisclosure::MetadataOnly,
        applied_limits: limits,
        raw: projected_collection(raw_items, limits.spec_max_items() as nat),
        normalized: projected_collection(normalized_items, limits.spec_max_items() as nat),
        normalization: normalization_summary(item_digests(raw_items), item_digests(normalized_items)),
        request: no_requests(),
    }
}

/// A snapshot with `request` attached, comparing current normalized history with the last
/// sent request.
pub open spec fn with_request(snapshot: SnapshotView, request: InspectionView) -> SnapshotView {
    SnapshotView {
        request: InspectionView {
            current_normalized_matches_last_actual: match request.last_actual {
                Some(actual) => Some(
                    actual.normalized_input.fingerprint == snapshot.normalized.fingerprint,
                ),
                None => None,
            },
            ..request
        },
        ..snapshot
    }
}

impl CurrentContextSnapshot {
    /// Projects raw and normalized response items into a bounded, metadata-only snapshot.
    pub fn project(
        history_version: u64,
        raw_items: &[SerializedItem],
        normalized_items: &[SerializedItem],
        limits: ContextInspectionLimits,
    ) -> (snapshot: Self)
        ensures
            snapshot@ == projected_snapshot(history_version, raw_items@, normalized_items@, limits),
    {
        let raw = project_collection(raw_items, limits);
        let normalized = project_collection(normalized_items, limits);
        let normalization = summarize_normalization(
            &raw.item_fingerprints,
            &normalized.item_fingerprints,
        );
        CurrentContextSnapshot {
            history_version,
            content_disclosure: ContentDisclosure::MetadataOnly,
            applied_limits: limits,
            raw: raw.collection,
            normalized: normalized.collection,
            normalization,
            request: ModelRequestInspection::default(),
        }
    }

    /// Attaches the session's request observations and compares current normalized history with
    /// the latest request that was sent.
    pub fn with_request_inspection(self, request: ModelRequestInspection) -> (snapshot: Self)
        ensures
            snapshot@ == with_request(self@, request@),
    {
        let matches = match &request.last_actual {
            Some(actual) => Some(actual.normalized_input.fingerprint == self.normalized.fingerprint),
            None => None,
        };
        CurrentContextSnapshot {
            request: ModelRequestInspection {
                latest_attempt: request.latest_attempt,
                last_actual: request.last_actual,
                current_normalized_matches_last_actual: matches,
            },
            ..self
        }
    }
}

/// When normalization leaves history untouched, both collections are projected identically and
/// every item is reported unchanged.
pub proof fn lemma_identical_histories_project_identically(
    history_version: u64,
    items: Seq<SerializedItem>,
    limits: ContextInspectionLimits,
)
    requires
        items.len() <= u64::MAX,
    ensures
        projected_snapshot(history_version, items, items, limits).raw == projected_snapshot(
            history_version,
            items,
            items,
            limits,
        ).normalized,
        projected_snapshot(history_version, items, items, limits).normalization == (
        ContextNormalizationSummary {
            unchanged_items: items.len() as u64,
            raw_only_items: 0,
            normalized_only_items: 0,
            changed: false,
        }),
{
    lemma_identical_collections_are_unchanged(item_digests(items));
}

} // verus!
