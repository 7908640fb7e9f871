//! Bounded, metadata-only projections of model-visible conversation history.
//!
//! Callers supply the complete serialized form of every response item together with the
//! `type` and `role` tags read back from it. A projection reports sizes, counts, bounded tags
//! and SHA-256 fingerprints; it never retains or discloses item content.
//!
//! Modules:
//! - `limits`: the item metadata limit and its hard cap.
//! - `metadata`: UTF-8 bounding of disclosed tag text.
//! - `fingerprint`: SHA-256 digests and their text form.
//! - `collection`: projection of one item collection.
//! - `normalization`: multiset comparison of raw and normalized item identities.
//! - `snapshot`: the complete context snapshot.
//! - `request`: projection of complete logical model requests.
//! - `observer`: the session record of the latest attempt and the last sent request.
//! - `protocol` and `api`: wire types and the conversion into them.
//! - `render`: the styled text lines of a snapshot for a terminal view.

pub mod api;
pub mod collection;
pub mod fingerprint;
pub mod limits;
pub mod metadata;
pub mod normalization;
pub mod observer;
pub mod protocol;
pub mod render;
pub mod request;
pub mod snapshot;
pub mod text;

pub use collection::ContextInspectionItem;
pub use collection::ContextItemCollection;
pub use collection::SerializedItem;
pub use limits::ContextInspectionLimits;
pub use limits::DEFAULT_MAX_ITEMS;
pub use limits::HARD_MAX_ITEMS;
pub use metadata::MAX_METADATA_TEXT_BYTES;
pub use normalization::ContextNormalizationSummary;
pub use observer::inspect_current_context;
pub use observer::ModelRequestAttempt;
pub use observer::ModelRequestObserver;
pub use observer::PreparedModelRequest;
pub use request::ModelRequestAttemptStatus;
pub use request::ModelRequestComponentSummary;
pub use request::ModelRequestInspection;
pub use request::ModelRequestProjection;
pub use request::ModelRequestSnapshot;
pub use request::ModelRequestTransport;
pub use request::ModelRequestValueCollectionSummary;
pub use snapshot::ContentDisclosure;
pub use snapshot::CurrentContextSnapshot;
