use context_inspector::ContextInspectionLimits;
use context_inspector::ModelRequestAttemptStatus;
use context_inspector::ModelRequestInspection;
use context_inspector::ModelRequestObserver;
use context_inspector::ModelRequestProjection;
use context_inspector::ModelRequestSnapshot;
use context_inspector::ModelRequestTransport;
use context_inspector::PreparedModelRequest;

fn request_bytes(sequence: u64) -> Vec<u8> {
    format!("{{\"sequence\":{sequence}}}").into_bytes()
}

fn prepared(serialized_request: &[u8]) -> PreparedModelRequest<'_> {
    PreparedModelRequest {
        serialized_request,
        model: "model",
        instructions: "",
        tools: None,
        provider_input: &[],
        normalized_input: &[],
        output_schema: None,
        provider: "provider",
        transport: ModelRequestTransport::ResponsesHttp,
        transport_uses_delta: false,
        connection_reused: false,
        transport_input_items: 0,
        captured_at: 1,
    }
}

fn snapshot(sequence: u64, serialized_request: &[u8]) -> ModelRequestSnapshot {
    ModelRequestSnapshot::project(ModelRequestProjection {
        sequence,
        captured_at: 1,
        transport: ModelRequestTransport::ResponsesHttp,
        transport_uses_delta: false,
        connection_reused: false,
        transport_input_items: 0,
        model: "model",
        provider: "provider",
        serialized_request,
        normalized_input: &[],
        provider_input: &[],
        instructions: None,
        tools: None,
        output_schema: None,
    })
}

#[test]
fn overlapping_attempts_keep_latest_status_and_newest_actual_separate() {
    let mut observer = ModelRequestObserver::default();
    let first_bytes = request_bytes(1);
    let second_bytes = request_bytes(2);
    let first_attempt = observer.record_prepared(prepared(&first_bytes));
    let second_attempt = observer.record_prepared(prepared(&second_bytes));
    let first = snapshot(1, &first_bytes);
    let second = snapshot(2, &second_bytes);

    observer.record_sent(Some(first_attempt));
    let mut sent_first = first;
    sent_first.status = ModelRequestAttemptStatus::Sent;
    assert_eq!(
        observer.inspect(ContextInspectionLimits::default()),
        ModelRequestInspection {
            latest_attempt: Some(second.clone()),
            last_actual: Some(sent_first.clone()),
            current_normalized_matches_last_actual: None,
        }
    );

    observer.record_failed(Some(second_attempt));
    let mut failed_second = second;
    failed_second.status = ModelRequestAttemptStatus::Failed;
    assert_eq!(
        observer.inspect(ContextInspectionLimits::default()),
        ModelRequestInspection {
            latest_attempt: Some(failed_second),
            last_actual: Some(sent_first),
            current_normalized_matches_last_actual: None,
        }
    );
}
