use context_inspector::ContentDisclosure;
use context_inspector::ContextInspectionItem;
use context_inspector::ContextInspectionLimits;
use context_inspector::ContextItemCollection;
use context_inspector::ModelRequestAttemptStatus;
use context_inspector::ModelRequestComponentSummary;
use context_inspector::ModelRequestSnapshot;
use context_inspector::ModelRequestTransport;
use context_inspector::ModelRequestValueCollectionSummary;
use context_inspector::ContextNormalizationSummary;
use context_inspector::CurrentContextSnapshot;
use context_inspector::SerializedItem;
use context_inspector::DEFAULT_MAX_ITEMS;
use context_inspector::HARD_MAX_ITEMS;
use context_inspector::MAX_METADATA_TEXT_BYTES;
use serde_json::Value;

const SECRET_CONTENT: &str = "secret-context-content-must-not-be-disclosed";

fn json_text(text: &str) -> String {
    serde_json::to_string(text).expect("strings always serialize")
}

fn object(fields: Vec<(&str, Value)>) -> Value {
    Value::Object(fields.into_iter().map(|(key, value)| (key.to_string(), value)).collect())
}

fn optional<T>(value: &Option<T>, to_json: impl Fn(&T) -> Value) -> Value {
    value.as_ref().map(to_json).unwrap_or(Value::Null)
}

fn collection_json(collection: &ContextItemCollection) -> Value {
    object(vec![
        ("fingerprint", Value::from(collection.fingerprint.clone())),
        ("totalItems", Value::from(collection.total_items)),
        ("representedItems", Value::from(collection.represented_items)),
        ("omittedItems", Value::from(collection.omitted_items)),
        ("totalSerializedBytes", Value::from(collection.total_serialized_bytes)),
        (
            "items",
            Value::Array(
                collection
                    .items
                    .iter()
                    .map(|item| {
                        object(vec![
                            ("index", Value::from(item.index)),
                            ("kind", Value::from(item.kind.clone())),
                            ("role", optional(&item.role, |role| Value::from(role.clone()))),
                            ("serializedBytes", Value::from(item.serialized_bytes)),
                        ])
                    })
                    .collect(),
            ),
        ),
    ])
}

fn component_json(component: &ModelRequestComponentSummary) -> Value {
    object(vec![
        ("fingerprint", Value::from(component.fingerprint.clone())),
        ("serializedBytes", Value::from(component.serialized_bytes)),
    ])
}

fn request_json(request: &ModelRequestSnapshot) -> Value {
    let status = match request.status {
        ModelRequestAttemptStatus::Prepared => "prepared",
        ModelRequestAttemptStatus::Sent => "sent",
        ModelRequestAttemptStatus::Failed => "failed",
    };
    let transport = match request.transport {
        ModelRequestTransport::ResponsesHttp => "responsesHttp",
        ModelRequestTransport::ResponsesWebsocket => "responsesWebsocket",
    };
    object(vec![
        ("sequence", Value::from(request.sequence)),
        ("capturedAt", Value::from(request.captured_at)),
        ("status", Value::from(status)),
        ("transport", Value::from(transport)),
        ("transportUsesDelta", Value::from(request.transport_uses_delta)),
        ("connectionReused", Value::from(request.connection_reused)),
        ("transportInputItems", Value::from(request.transport_input_items)),
        ("model", Value::from(request.model.clone())),
        ("provider", Value::from(request.provider.clone())),
        ("fingerprint", Value::from(request.fingerprint.clone())),
        ("serializedBytes", Value::from(request.serialized_bytes)),
        ("normalizedInput", collection_json(&request.normalized_input)),
        ("providerInput", collection_json(&request.provider_input)),
        ("instructions", optional(&request.instructions, component_json)),
        (
            "tools",
            optional(&request.tools, |tools: &ModelRequestValueCollectionSummary| {
                object(vec![
                    ("fingerprint", Value::from(tools.fingerprint.clone())),
                    ("totalItems", Value::from(tools.total_items)),
                    ("serializedBytes", Value::from(tools.serialized_bytes)),
                ])
            }),
        ),
        ("outputSchema", optional(&request.output_schema, component_json)),
    ])
}

fn snapshot_json(snapshot: &CurrentContextSnapshot) -> Value {
    let disclosure = match snapshot.content_disclosure {
        ContentDisclosure::MetadataOnly => "metadataOnly",
    };
    object(vec![
        ("historyVersion", Value::from(snapshot.history_version)),
        ("contentDisclosure", Value::from(disclosure)),
        (
            "appliedLimits",
            object(vec![("maxItems", Value::from(snapshot.applied_limits.max_items()))]),
        ),
        ("raw", collection_json(&snapshot.raw)),
        ("normalized", collection_json(&snapshot.normalized)),
        (
            "normalization",
            object(vec![
                ("unchangedItems", Value::from(snapshot.normalization.unchanged_items)),
                ("rawOnlyItems", Value::from(snapshot.normalization.raw_only_items)),
                ("normalizedOnlyItems", Value::from(snapshot.normalization.normalized_only_items)),
                ("changed", Value::from(snapshot.normalization.changed)),
            ]),
        ),
        (
            "request",
            object(vec![
                ("latestAttempt", optional(&snapshot.request.latest_attempt, request_json)),
                ("lastActual", optional(&snapshot.request.last_actual, request_json)),
                (
                    "currentNormalizedMatchesLastActual",
                    optional(&snapshot.request.current_normalized_matches_last_actual, |matches| {
                        Value::from(*matches)
                    }),
                ),
            ]),
        ),
    ])
}

fn message(role: &str, text: &str) -> SerializedItem {
    let serialized = format!(
        "{{\"type\":\"message\",\"role\":{},\"content\":[{{\"type\":\"input_text\",\"text\":{}}}]}}",
        json_text(role),
        json_text(text)
    );
    SerializedItem {
        serialized: serialized.into_bytes(),
        kind: Some("message".to_string()),
        role: Some(role.to_string()),
    }
}

fn function_call(name: &str) -> SerializedItem {
    let serialized = format!(
        "{{\"type\":\"function_call\",\"name\":{},\"arguments\":\"{{}}\",\"call_id\":\"call-1\"}}",
        json_text(name)
    );
    SerializedItem {
        serialized: serialized.into_bytes(),
        kind: Some("function_call".to_string()),
        role: None,
    }
}

fn other() -> SerializedItem {
    SerializedItem {
        serialized: b"{\"type\":\"other\"}".to_vec(),
        kind: Some("other".to_string()),
        role: None,
    }
}

fn copy(item: &SerializedItem) -> SerializedItem {
    SerializedItem {
        serialized: item.serialized.clone(),
        kind: item.kind.clone(),
        role: item.role.clone(),
    }
}

#[test]
fn projection_is_metadata_only() {
    let items = vec![message("user", SECRET_CONTENT)];
    let snapshot =
        CurrentContextSnapshot::project(7, &items, &items, ContextInspectionLimits::default());

    assert_eq!(snapshot.history_version, 7);
    assert_eq!(snapshot.content_disclosure, ContentDisclosure::MetadataOnly);
    assert_eq!(
        snapshot.raw.items,
        vec![ContextInspectionItem {
            index: 0,
            kind: "message".to_string(),
            role: Some("user".to_string()),
            serialized_bytes: snapshot.raw.total_serialized_bytes,
        }]
    );
    let serialized_snapshot = snapshot_json(&snapshot).to_string();
    assert!(!serialized_snapshot.contains(SECRET_CONTENT));
    assert!(!serialized_snapshot.contains("\"content\":"));
}

#[test]
fn item_limit_is_hard_capped() {
    let items = (0..(HARD_MAX_ITEMS + 1))
        .map(|index| message("user", &format!("item {index}")))
        .collect::<Vec<_>>();
    let limits = ContextInspectionLimits::with_max_items(HARD_MAX_ITEMS + 100);
    let snapshot = CurrentContextSnapshot::project(0, &items, &items, limits);

    assert_eq!(snapshot.applied_limits.max_items(), HARD_MAX_ITEMS);
    assert_eq!(snapshot.raw.represented_items, HARD_MAX_ITEMS as u64);
    assert_eq!(snapshot.raw.omitted_items, 1);
    assert_eq!(snapshot.raw.items.len(), HARD_MAX_ITEMS);
}

#[test]
fn zero_limit_returns_complete_aggregates_without_items() {
    let items = vec![message("user", "one"), message("assistant", "two")];
    let snapshot =
        CurrentContextSnapshot::project(0, &items, &items, ContextInspectionLimits::with_max_items(0));

    assert_eq!(snapshot.raw.total_items, 2);
    assert_eq!(snapshot.raw.represented_items, 0);
    assert_eq!(snapshot.raw.omitted_items, 2);
    assert_eq!(snapshot.raw.items, Vec::new());
    assert!(snapshot.raw.total_serialized_bytes > 0);
    assert!(snapshot.raw.fingerprint.starts_with("sha256:"));
}

#[test]
fn collection_fingerprint_is_deterministic_and_order_sensitive() {
    let first = message("user", "first");
    let second = message("assistant", "second");
    let ordered = vec![copy(&first), copy(&second)];
    let reversed = vec![second, first];

    let ordered_snapshot =
        CurrentContextSnapshot::project(0, &ordered, &ordered, ContextInspectionLimits::default());
    let repeated_snapshot =
        CurrentContextSnapshot::project(0, &ordered, &ordered, ContextInspectionLimits::default());
    let reversed_snapshot =
        CurrentContextSnapshot::project(0, &reversed, &reversed, ContextInspectionLimits::default());

    assert_eq!(ordered_snapshot.raw, repeated_snapshot.raw);
    assert_ne!(ordered_snapshot.raw.fingerprint, reversed_snapshot.raw.fingerprint);
}

#[test]
fn normalization_summary_compares_item_identities_as_a_multiset() {
    let repeated = message("user", "same");
    let raw = vec![copy(&repeated), copy(&repeated), message("assistant", "raw only")];
    let normalized = vec![repeated, message("assistant", "normalized only")];

    let snapshot =
        CurrentContextSnapshot::project(0, &raw, &normalized, ContextInspectionLimits::default());

    assert_eq!(
        snapshot.normalization,
        ContextNormalizationSummary {
            unchanged_items: 1,
            raw_only_items: 2,
            normalized_only_items: 1,
            changed: true,
        }
    );
}

#[test]
fn normalization_summary_detects_order_only_changes() {
    let first = message("user", "first");
    let second = message("assistant", "second");
    let raw = vec![copy(&first), copy(&second)];
    let normalized = vec![second, first];

    let snapshot =
        CurrentContextSnapshot::project(0, &raw, &normalized, ContextInspectionLimits::default());

    assert_eq!(
        snapshot.normalization,
        ContextNormalizationSummary {
            unchanged_items: 2,
            raw_only_items: 0,
            normalized_only_items: 0,
            changed: true,
        }
    );
}

#[test]
fn dynamic_metadata_is_utf8_bounded() {
    let long_role = "界".repeat(MAX_METADATA_TEXT_BYTES);
    let items = vec![message(&long_role, "text")];
    let snapshot =
        CurrentContextSnapshot::project(0, &items, &items, ContextInspectionLimits::default());

    let role = snapshot.raw.items[0].role.as_deref().unwrap_or_default();
    assert!(role.len() <= MAX_METADATA_TEXT_BYTES);
    assert!(role.is_char_boundary(role.len()));
}

#[test]
fn ascii_role_is_truncated_to_exactly_max_metadata_bytes() {
    let long_role = "r".repeat(MAX_METADATA_TEXT_BYTES + 50);
    let items = vec![message(&long_role, "text")];
    let snapshot =
        CurrentContextSnapshot::project(0, &items, &items, ContextInspectionLimits::default());

    let role = snapshot.raw.items[0].role.clone().unwrap_or_default();
    assert_eq!(role, "r".repeat(MAX_METADATA_TEXT_BYTES));
}

#[test]
fn default_limits_use_default_max_items() {
    assert_eq!(ContextInspectionLimits::default().max_items(), DEFAULT_MAX_ITEMS);
}

#[test]
fn limits_within_hard_max_are_not_clamped() {
    assert_eq!(
        ContextInspectionLimits::with_max_items(HARD_MAX_ITEMS).max_items(),
        HARD_MAX_ITEMS
    );
    assert_eq!(
        ContextInspectionLimits::with_max_items(HARD_MAX_ITEMS - 1).max_items(),
        HARD_MAX_ITEMS - 1
    );
}

#[test]
fn empty_history_projects_to_empty_collections_without_changes() {
    let items: Vec<SerializedItem> = Vec::new();
    let snapshot =
        CurrentContextSnapshot::project(0, &items, &items, ContextInspectionLimits::default());

    assert_eq!(snapshot.raw.total_items, 0);
    assert_eq!(snapshot.raw.represented_items, 0);
    assert_eq!(snapshot.raw.omitted_items, 0);
    assert_eq!(snapshot.raw.total_serialized_bytes, 0);
    assert_eq!(snapshot.raw.items, Vec::new());
    assert_eq!(snapshot.raw.fingerprint, snapshot.normalized.fingerprint);
    assert_eq!(
        snapshot.normalization,
        ContextNormalizationSummary {
            unchanged_items: 0,
            raw_only_items: 0,
            normalized_only_items: 0,
            changed: false,
        }
    );
}

#[test]
fn identical_collections_are_reported_as_unchanged() {
    let items = vec![message("user", "hello"), message("assistant", "world")];
    let snapshot =
        CurrentContextSnapshot::project(0, &items, &items, ContextInspectionLimits::default());

    assert_eq!(
        snapshot.normalization,
        ContextNormalizationSummary {
            unchanged_items: 2,
            raw_only_items: 0,
            normalized_only_items: 0,
            changed: false,
        }
    );
}

#[test]
fn items_under_the_limit_are_all_represented_with_no_omissions() {
    let items = vec![
        message("user", "one"),
        message("assistant", "two"),
        message("user", "three"),
    ];
    let snapshot =
        CurrentContextSnapshot::project(0, &items, &items, ContextInspectionLimits::default());

    assert_eq!(snapshot.raw.total_items, 3);
    assert_eq!(snapshot.raw.represented_items, 3);
    assert_eq!(snapshot.raw.omitted_items, 0);
    assert_eq!(snapshot.raw.items.len(), 3);
}

#[test]
fn items_without_a_role_are_projected_with_none_role() {
    let items = vec![function_call("shell")];
    let snapshot =
        CurrentContextSnapshot::project(0, &items, &items, ContextInspectionLimits::default());

    assert_eq!(snapshot.raw.items.len(), 1);
    assert_eq!(snapshot.raw.items[0].kind, "function_call");
    assert_eq!(snapshot.raw.items[0].role, None);
}

#[test]
fn fieldless_variant_reports_its_tag_as_the_kind() {
    let items = vec![other()];
    let snapshot =
        CurrentContextSnapshot::project(0, &items, &items, ContextInspectionLimits::default());

    assert_eq!(snapshot.raw.items[0].kind, "other");
    assert_eq!(snapshot.raw.items[0].role, None);
}
