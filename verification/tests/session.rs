use context_inspector::inspect_current_context;
use context_inspector::ContextInspectionLimits;
use context_inspector::ContextNormalizationSummary;
use context_inspector::ModelRequestObserver;
use context_inspector::SerializedItem;

fn json_text(text: &str) -> String {
    serde_json::to_string(text).expect("strings always serialize")
}

fn item(serialized: String, kind: &str, role: Option<&str>) -> SerializedItem {
    SerializedItem {
        serialized: serialized.into_bytes(),
        kind: Some(kind.to_string()),
        role: role.map(str::to_string),
    }
}

fn user_message(content: &str) -> SerializedItem {
    item(
        format!("{{\"type\":\"message\",\"role\":\"user\",\"content\":[{content}]}}"),
        "message",
        Some("user"),
    )
}

fn input_text(text: &str) -> String {
    format!("{{\"type\":\"input_text\",\"text\":{}}}", json_text(text))
}

fn copy(item: &SerializedItem) -> SerializedItem {
    SerializedItem {
        serialized: item.serialized.clone(),
        kind: item.kind.clone(),
        role: item.role.clone(),
    }
}

#[test]
fn inspection_uses_prompt_normalization_without_mutating_history() {
    let image = "{\"type\":\"input_image\",\"image_url\":\"https://example.com/image.png\",\"detail\":\"auto\"}";
    let raw = vec![user_message(&format!("{},{image}", input_text("inspect this")))];
    let history_before = raw[0].serialized.clone();
    // Prompt normalization for a text-only model replaces the image with a text placeholder.
    let normalized = vec![user_message(&format!(
        "{},{}",
        input_text("inspect this"),
        input_text("image content omitted because you do not support image input")
    ))];
    let observer = ModelRequestObserver::new();

    let first = inspect_current_context(&observer, 0, &raw, &normalized, ContextInspectionLimits::default());
    let second = inspect_current_context(&observer, 0, &raw, &normalized, ContextInspectionLimits::default());

    assert_eq!(first, second);
    assert_eq!(raw[0].serialized, history_before);
    assert_eq!(first.raw.total_items, 1);
    assert_eq!(first.normalized.total_items, 1);
    assert_eq!(first.normalization.unchanged_items, 0);
    assert_eq!(first.normalization.raw_only_items, 1);
    assert_eq!(first.normalization.normalized_only_items, 1);
    assert!(first.normalization.changed);
}

#[test]
fn inspection_of_empty_history_reports_empty_collections() {
    let history: Vec<SerializedItem> = Vec::new();
    let history_version = 0;
    let observer = ModelRequestObserver::new();

    let snapshot = inspect_current_context(
        &observer,
        history_version,
        &history,
        &history,
        ContextInspectionLimits::default(),
    );

    assert_eq!(snapshot.history_version, history_version);
    assert_eq!(snapshot.raw.total_items, 0);
    assert_eq!(snapshot.normalized.total_items, 0);
    assert_eq!(
        snapshot.normalization,
        ContextNormalizationSummary {
            unchanged_items: 0,
            raw_only_items: 0,
            normalized_only_items: 0,
            changed: false,
        }
    );
}

#[test]
fn inspection_reports_unchanged_normalization_for_plain_text_message() {
    let raw = vec![user_message(&input_text("no images here"))];
    let normalized = vec![copy(&raw[0])];
    let observer = ModelRequestObserver::new();

    let snapshot =
        inspect_current_context(&observer, 0, &raw, &normalized, ContextInspectionLimits::default());

    assert_eq!(snapshot.raw.total_items, 1);
    assert_eq!(snapshot.normalized.total_items, 1);
    assert_eq!(snapshot.raw.fingerprint, snapshot.normalized.fingerprint);
    assert_eq!(
        snapshot.normalization,
        ContextNormalizationSummary {
            unchanged_items: 1,
            raw_only_items: 0,
            normalized_only_items: 0,
            changed: false,
        }
    );
}

#[test]
fn inspection_reflects_synthetic_outputs_added_by_normalization() {
    let call = item(
        "{\"type\":\"function_call\",\"name\":\"shell\",\"arguments\":\"{}\",\"call_id\":\"call-without-output\"}"
            .to_string(),
        "function_call",
        None,
    );
    let raw = vec![copy(&call)];
    // The lone function call has no matching output, so prompt normalization synthesizes one.
    let normalized = vec![
        call,
        item(
            "{\"type\":\"function_call_output\",\"call_id\":\"call-without-output\",\"output\":\"aborted\"}"
                .to_string(),
            "function_call_output",
            None,
        ),
    ];
    let observer = ModelRequestObserver::new();

    let snapshot =
        inspect_current_context(&observer, 0, &raw, &normalized, ContextInspectionLimits::default());

    assert_eq!(snapshot.raw.total_items, 1);
    assert_eq!(snapshot.normalized.total_items, 2);
    assert_eq!(
        snapshot.normalization,
        ContextNormalizationSummary {
            unchanged_items: 1,
            raw_only_items: 0,
            normalized_only_items: 1,
            changed: true,
        }
    );
}

#[test]
fn inspection_applies_the_requested_limit_to_a_live_history() {
    let items = (0..3)
        .map(|index| user_message(&input_text(&format!("item {index}"))))
        .collect::<Vec<_>>();
    let normalized = items.iter().map(copy).collect::<Vec<_>>();
    let observer = ModelRequestObserver::new();

    let snapshot = inspect_current_context(
        &observer,
        0,
        &items,
        &normalized,
        ContextInspectionLimits::with_max_items(0),
    );

    assert_eq!(snapshot.raw.total_items, 3);
    assert_eq!(snapshot.raw.represented_items, 0);
    assert_eq!(snapshot.raw.omitted_items, 3);
    assert_eq!(snapshot.raw.items, Vec::new());
}
