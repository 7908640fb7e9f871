use context_inspector::ContextInspectionLimits;
use context_inspector::ModelRequestAttemptStatus;
use context_inspector::ModelRequestInspection;
use context_inspector::ModelRequestProjection;
use context_inspector::ModelRequestSnapshot;
use context_inspector::ModelRequestTransport;
use context_inspector::ContextItemCollection;
use context_inspector::ModelRequestComponentSummary;
use context_inspector::ModelRequestValueCollectionSummary;
use context_inspector::SerializedItem;
use context_inspector::HARD_MAX_ITEMS;
use context_inspector::MAX_METADATA_TEXT_BYTES;
use serde_json::Value;

const SECRET: &str = "actual-request-secret-must-not-be-disclosed";

fn json_text(text: &str) -> String {
    serde_json::to_string(text).expect("strings always serialize")
}

fn object(fields: Vec<(&str, Value)>) -> Value {
    Value::Object(fields.into_iter().map(|(key, value)| (key.to_string(), value)).collect())
}

fn optional<T>(value: &Option<T>, to_json: impl Fn(&T) -> Value) -> Value {
    value.as_ref().map(to_json).unwrap_or(Value::Null)
}

fn collection_json(collection: &ContextItemCollection) -> Value {
    object(vec![
        ("fingerprint", Value::from(collection.fingerprint.clone())),
        ("totalItems", Value::from(collection.total_items)),
        ("representedItems", Value::from(collection.represented_items)),
        ("omittedItems", Value::from(collection.omitted_items)),
        ("totalSerializedBytes", Value::from(collection.total_serialized_bytes)),
        (
            "items",
            Value::Array(
                collection
                    .items
                    .iter()
                    .map(|item| {
                        object(vec![
                            ("index", Value::from(item.index)),
                            ("kind", Value::from(item.kind.clone())),
                            ("role", optional(&item.role, |role| Value::from(role.clone()))),
                            ("serializedBytes", Value::from(item.serialized_bytes)),
                        ])
                    })
                    .collect(),
            ),
        ),
    ])
}

fn component_json(component: &ModelRequestComponentSummary) -> Value {
    object(vec![
        ("fingerprint", Value::from(component.fingerprint.clone())),
        ("serializedBytes", Value::from(component.serialized_bytes)),
    ])
}

fn request_json(request: &ModelRequestSnapshot) -> Value {
    let status = match request.status {
        ModelRequestAttemptStatus::Prepared => "prepared",
        ModelRequestAttemptStatus::Sent => "sent",
        ModelRequestAttemptStatus::Failed => "failed",
    };
    let transport = match request.transport {
        ModelRequestTransport::ResponsesHttp => "responsesHttp",
        ModelRequestTransport::ResponsesWebsocket => "responsesWebsocket",
    };
    object(vec![
        ("sequence", Value::from(request.sequence)),
        ("capturedAt", Value::from(request.captured_at)),
        ("status", Value::from(status)),
        ("transport", Value::from(transport)),
        ("transportUsesDelta", Value::from(request.transport_uses_delta)),
        ("connectionReused", Value::from(request.connection_reused)),
        ("transportInputItems", Value::from(request.transport_input_items)),
        ("model", Value::from(request.model.clone())),
        ("provider", Value::from(request.provider.clone())),
        ("fingerprint", Value::from(request.fingerprint.clone())),
        ("serializedBytes", Value::from(request.serialized_bytes)),
        ("normalizedInput", collection_json(&request.normalized_input)),
        ("providerInput", collection_json(&request.provider_input)),
        ("instructions", optional(&request.instructions, component_json)),
        (
            "tools",
            optional(&request.tools, |tools: &ModelRequestValueCollectionSummary| {
                object(vec![
                    ("fingerprint", Value::from(tools.fingerprint.clone())),
                    ("totalItems", Value::from(tools.total_items)),
                    ("serializedBytes", Value::from(tools.serialized_bytes)),
                ])
            }),
        ),
        ("outputSchema", optional(&request.output_schema, component_json)),
    ])
}

fn message(text: &str) -> SerializedItem {
    let serialized = format!(
        "{{\"type\":\"message\",\"role\":\"user\",\"content\":[{{\"type\":\"input_text\",\"text\":{}}}]}}",
        json_text(text)
    );
    SerializedItem {
        serialized: serialized.into_bytes(),
        kind: Some("message".to_string()),
        role: Some("user".to_string()),
    }
}

fn json_array(items: &[SerializedItem]) -> Vec<u8> {
    let mut array = b"[".to_vec();
    for (index, item) in items.iter().enumerate() {
        if index > 0 {
            array.push(b',');
        }
        array.extend_from_slice(&item.serialized);
    }
    array.push(b']');
    array
}

#[test]
fn request_projection_is_metadata_only_and_component_aware() {
    let normalized_input = vec![message(SECRET)];
    let provider_input = vec![message(&format!("provider-{SECRET}"))];
    let tools = vec![
        format!("{{\"type\":\"function\",\"description\":{}}}", json_text(SECRET)).into_bytes(),
    ];
    let output_schema = format!("{{\"description\":{}}}", json_text(SECRET)).into_bytes();
    let serialized_request = format!("{{\"input\":{}}}", json_text(SECRET)).into_bytes();
    let snapshot = ModelRequestSnapshot::project(ModelRequestProjection {
        sequence: 3,
        captured_at: 11,
        transport: ModelRequestTransport::ResponsesHttp,
        transport_uses_delta: false,
        connection_reused: false,
        transport_input_items: provider_input.len(),
        model: "test-model",
        provider: "test-provider",
        serialized_request: &serialized_request,
        normalized_input: &normalized_input,
        provider_input: &provider_input,
        instructions: Some(SECRET),
        tools: Some(&tools),
        output_schema: Some(&output_schema),
    });

    assert_eq!(snapshot.status, ModelRequestAttemptStatus::Prepared);
    assert_eq!(snapshot.tools.as_ref().map(|tools| tools.total_items), Some(1));
    assert!(snapshot.instructions.is_some());
    assert!(snapshot.output_schema.is_some());
    let serialized_snapshot = request_json(&snapshot).to_string();
    assert!(!serialized_snapshot.contains(SECRET));
    assert!(!serialized_snapshot.contains("description"));
}

#[test]
fn request_projection_is_hard_capped_then_can_be_limited_at_inspection_time() {
    let items = (0..(HARD_MAX_ITEMS + 1))
        .map(|index| message(&format!("item-{index}")))
        .collect::<Vec<_>>();
    let serialized_request = json_array(&items);
    let snapshot = ModelRequestSnapshot::project(ModelRequestProjection {
        sequence: 1,
        captured_at: 1,
        transport: ModelRequestTransport::ResponsesWebsocket,
        transport_uses_delta: true,
        connection_reused: true,
        transport_input_items: 1,
        model: "model",
        provider: "provider",
        serialized_request: &serialized_request,
        normalized_input: &items,
        provider_input: &items,
        instructions: None,
        tools: None,
        output_schema: None,
    });
    assert_eq!(snapshot.normalized_input.items.len(), HARD_MAX_ITEMS);

    let inspection = ModelRequestInspection {
        latest_attempt: Some(snapshot.clone()),
        last_actual: Some(snapshot),
        current_normalized_matches_last_actual: Some(true),
    }
    .with_limits(ContextInspectionLimits::with_max_items(2));
    let expected = (2, (HARD_MAX_ITEMS - 1) as u64);
    assert_eq!(
        inspection.latest_attempt.as_ref().map(|snapshot| (
            snapshot.normalized_input.items.len(),
            snapshot.normalized_input.omitted_items,
        )),
        Some(expected)
    );
    assert_eq!(
        inspection.last_actual.as_ref().map(|snapshot| (
            snapshot.provider_input.items.len(),
            snapshot.provider_input.omitted_items,
        )),
        Some(expected)
    );
}

#[test]
fn request_identity_changes_with_content_and_order() {
    let first = vec![message("first"), message("second")];
    let reversed = vec![message("second"), message("first")];
    let first_bytes = json_array(&first);
    let reversed_bytes = json_array(&reversed);

    let project = |items: &[SerializedItem], bytes: &[u8]| {
        ModelRequestSnapshot::project(ModelRequestProjection {
            sequence: 1,
            captured_at: 1,
            transport: ModelRequestTransport::ResponsesHttp,
            transport_uses_delta: false,
            connection_reused: false,
            transport_input_items: items.len(),
            model: "model",
            provider: "provider",
            serialized_request: bytes,
            normalized_input: items,
            provider_input: items,
            instructions: None,
            tools: None,
            output_schema: None,
        })
    };
    let first_snapshot = project(&first, &first_bytes);
    let reversed_snapshot = project(&reversed, &reversed_bytes);

    assert_ne!(first_snapshot.fingerprint, reversed_snapshot.fingerprint);
    assert_ne!(
        first_snapshot.normalized_input.fingerprint,
        reversed_snapshot.normalized_input.fingerprint
    );
}

#[test]
fn model_and_provider_are_utf8_bounded() {
    let long_value = "界".repeat(MAX_METADATA_TEXT_BYTES);
    let serialized_request = b"{}".to_vec();
    let snapshot = ModelRequestSnapshot::project(ModelRequestProjection {
        sequence: 1,
        captured_at: 1,
        transport: ModelRequestTransport::ResponsesHttp,
        transport_uses_delta: false,
        connection_reused: false,
        transport_input_items: 0,
        model: &long_value,
        provider: &long_value,
        serialized_request: &serialized_request,
        normalized_input: &[],
        provider_input: &[],
        instructions: None,
        tools: None,
        output_schema: None,
    });

    assert!(snapshot.model.len() <= MAX_METADATA_TEXT_BYTES);
    assert!(snapshot.provider.len() <= MAX_METADATA_TEXT_BYTES);
    assert!(snapshot.model.is_char_boundary(snapshot.model.len()));
    assert!(snapshot.provider.is_char_boundary(snapshot.provider.len()));
}
