use context_inspector::inspect_current_context;
use context_inspector::ContextInspectionLimits;
use context_inspector::CurrentContextSnapshot;
use context_inspector::ModelRequestAttemptStatus;
use context_inspector::ModelRequestObserver;
use context_inspector::ModelRequestTransport;
use context_inspector::PreparedModelRequest;
use context_inspector::SerializedItem;

const PRIVATE_USER_TEXT: &str = "context-inspection-private-user-text";

fn message(role: &str, text: &str) -> SerializedItem {
    let serialized = format!(
        "{{\"type\":\"message\",\"role\":{},\"content\":[{{\"type\":\"input_text\",\"text\":{}}}]}}",
        serde_json::to_string(role).expect("strings always serialize"),
        serde_json::to_string(text).expect("strings always serialize")
    );
    SerializedItem {
        serialized: serialized.into_bytes(),
        kind: Some("message".to_string()),
        role: Some(role.to_string()),
    }
}

fn copies(items: &[SerializedItem]) -> Vec<SerializedItem> {
    items
        .iter()
        .map(|item| SerializedItem {
            serialized: item.serialized.clone(),
            kind: item.kind.clone(),
            role: item.role.clone(),
        })
        .collect()
}

fn request_body(items: &[SerializedItem]) -> Vec<u8> {
    let mut body = b"{\"input\":[".to_vec();
    for (index, item) in items.iter().enumerate() {
        if index > 0 {
            body.push(b',');
        }
        body.extend_from_slice(&item.serialized);
    }
    body.extend_from_slice(b"]}");
    body
}

fn prepared<'a>(
    body: &'a [u8],
    normalized: &'a [SerializedItem],
    provider: &'a [SerializedItem],
    transport: ModelRequestTransport,
    transport_input_items: usize,
) -> PreparedModelRequest<'a> {
    PreparedModelRequest {
        serialized_request: body,
        model: "test-model",
        instructions: "base instructions",
        tools: None,
        provider_input: provider,
        normalized_input: normalized,
        output_schema: None,
        provider: "test-provider",
        transport,
        transport_uses_delta: transport == ModelRequestTransport::ResponsesWebsocket
            && transport_input_items < provider.len(),
        connection_reused: transport == ModelRequestTransport::ResponsesWebsocket
            && transport_input_items < provider.len(),
        transport_input_items,
        captured_at: 1_700_000_000,
    }
}

#[test]
fn inspection_is_repeatable_and_matches_the_next_request_prefix() {
    let mut observer = ModelRequestObserver::new();
    let before_turn = inspect_current_context(&observer, 0, &[], &[], ContextInspectionLimits::default());
    assert_eq!(before_turn.request.latest_attempt, None);
    assert_eq!(before_turn.request.last_actual, None);
    assert_eq!(before_turn.request.current_normalized_matches_last_actual, None);

    let history = vec![message("developer", "instructions"), message("user", PRIVATE_USER_TEXT)];
    let body = request_body(&history);
    let attempt = observer.record_prepared(prepared(
        &body,
        &history,
        &history,
        ModelRequestTransport::ResponsesHttp,
        history.len(),
    ));
    observer.record_sent(Some(attempt));

    let inspected = inspect_current_context(&observer, 1, &history, &history, ContextInspectionLimits::default());
    let repeated = inspect_current_context(&observer, 1, &history, &history, ContextInspectionLimits::default());
    assert_eq!(inspected, repeated);
    let latest_attempt = inspected.request.latest_attempt.as_ref().expect("latest request attempt");
    let last_actual = inspected.request.last_actual.as_ref().expect("last actual request");
    assert_eq!(latest_attempt, last_actual);
    assert_eq!(latest_attempt.status, ModelRequestAttemptStatus::Sent);
    assert_eq!(latest_attempt.transport, ModelRequestTransport::ResponsesHttp);
    assert!(!latest_attempt.transport_uses_delta);
    assert!(!latest_attempt.connection_reused);
    assert_eq!(latest_attempt.transport_input_items, history.len() as u64);
    let outbound_projection =
        CurrentContextSnapshot::project(0, &history, &history, ContextInspectionLimits::with_max_items(0));
    assert_eq!(last_actual.normalized_input.fingerprint, inspected.normalized.fingerprint);
    assert_eq!(last_actual.provider_input.fingerprint, outbound_projection.normalized.fingerprint);
    assert_eq!(inspected.request.current_normalized_matches_last_actual, Some(true));
    assert!(!format!("{:?}", inspected.request).contains(PRIVATE_USER_TEXT));

    let zero_limited =
        inspect_current_context(&observer, 1, &history, &history, ContextInspectionLimits::with_max_items(0));
    let zero_limited_actual = zero_limited.request.last_actual.as_ref().expect("zero-limited actual request");
    assert_eq!(zero_limited_actual.normalized_input.items, Vec::new());
    assert_eq!(zero_limited_actual.provider_input.items, Vec::new());
    assert!(zero_limited_actual.normalized_input.total_items > 0);
    assert!(zero_limited_actual.provider_input.total_items > 0);

    let mut next_input = copies(&history);
    next_input.push(message("user", "second turn"));
    let inspected_items = inspected.normalized.total_items as usize;
    assert_eq!(next_input.len(), inspected_items + 1);
    let prefix_projection = CurrentContextSnapshot::project(
        0,
        &next_input[..inspected_items],
        &next_input[..inspected_items],
        ContextInspectionLimits::with_max_items(0),
    );
    assert_eq!(inspected.normalized.fingerprint, prefix_projection.normalized.fingerprint);
}

#[test]
fn websocket_inspection_keeps_full_logical_input_separate_from_transport_delta() {
    let mut observer = ModelRequestObserver::new();
    let first = vec![message("user", "first websocket turn")];
    let first_body = request_body(&first);
    let attempt = observer.record_prepared(prepared(
        &first_body,
        &first,
        &first,
        ModelRequestTransport::ResponsesWebsocket,
        first.len(),
    ));
    observer.record_sent(Some(attempt));

    let mut second = copies(&first);
    second.push(message("assistant", "assistant output"));
    second.push(message("user", "second websocket turn"));
    let delta_body = request_body(&second[2..]);
    let attempt = observer.record_prepared(prepared(
        &delta_body,
        &second,
        &second,
        ModelRequestTransport::ResponsesWebsocket,
        1,
    ));
    observer.record_sent(Some(attempt));

    let inspected = inspect_current_context(&observer, 2, &second, &second, ContextInspectionLimits::default());
    let latest = inspected.request.latest_attempt.as_ref().expect("latest websocket attempt");
    let actual = inspected.request.last_actual.as_ref().expect("last actual websocket request");
    assert_eq!(latest, actual);
    assert_eq!(actual.sequence, 2);
    assert_eq!(actual.transport, ModelRequestTransport::ResponsesWebsocket);
    assert!(actual.transport_uses_delta);
    assert!(actual.connection_reused);
    assert_eq!(actual.transport_input_items, 1);
    assert_eq!(actual.provider_input.total_items, 3);
    assert_eq!(actual.normalized_input.fingerprint, inspected.normalized.fingerprint);
    assert_eq!(inspected.request.current_normalized_matches_last_actual, Some(true));
}
