use vstd::prelude::*;

use crate::collection::SerializedItem;
use crate::limits::ContextInspectionLimits;
use crate::request::limit_optional_request;
use crate::request::optional_request;
use crate::request::projected_request;
use crate::request::InspectionView;
use crate::request::ModelRequestAttemptStatus;
use crate::request::ModelRequestInspection;
use crate::request::ModelRequestProjection;
use crate::request::ModelRequestSnapshot;
use crate::request::ModelRequestTransport;
use crate::request::RequestView;
use crate::request::lemma_limit_changes_only_request_item_records;
use crate::collection::collection_fingerprint;
use crate::collection::serializations;
use crate::snapshot::projected_snapshot;
use crate::snapshot::with_request;
use crate::snapshot::CurrentContextSnapshot;
use crate::snapshot::SnapshotView;

verus! {

/// A request attempt recorded by [`ModelRequestObserver::record_prepared`], to be reported back
/// as sent or failed.
#[derive(Debug)]
pub struct ModelRequestAttempt(ModelRequestSnapshot);

impl View for ModelRequestAttempt {
    type V = RequestView;

    closed spec fn view(&self) -> RequestView {
        self.0@
    }
}

/// A request about to be sent, in the form the observer reads.
pub struct PreparedModelRequest<'a> {
    /// Complete serialized logical provider request.
    pub serialized_request: &'a [u8],
    pub model: &'a str,
    pub instructions: &'a str,
    /// Complete serialization of every tool definition, in order.
    pub tools: Option<&'a [Vec<u8>]>,
    /// Complete logical input after provider-specific request adaptation.
    pub provider_input: &'a [SerializedItem],
    /// Production prompt input before provider-specific request adaptation.
    pub normalized_input: &'a [SerializedItem],
    /// Complete serialization of the output schema.
    pub output_schema: Option<&'a [u8]>,
    pub provider: &'a str,
    pub transport: ModelRequestTransport,
    pub transport_uses_delta: bool,
    pub connection_reused: bool,
    pub transport_input_items: usize,
    /// Unix timestamp in seconds at which the request was prepared.
    pub captured_at: i64,
}

/// The projection input for a prepared request under `sequence`.
pub open spec fn prepared_projection<'a>(
    prepared: PreparedModelRequest<'a>,
    sequence: u64,
) -> ModelRequestProjection<'a> {
    ModelRequestProjection {
        sequence,
        captured_at: prepared.captured_at,
        transport: prepared.transport,
        transport_uses_delta: prepared.transport_uses_delta,
        connection_reused: prepared.connection_reused,
        transport_input_items: prepared.transport_input_items,
        model: prepared.model,
        provider: prepared.provider,
        serialized_request: prepared.serialized_request,
        normalized_input: prepared.normalized_input,
        provider_input: prepared.provider_input,
        instructions: if prepared.instructions@.len() == 0 {
            None
        } else {
            Some(prepared.instructions)
        },
        tools: prepared.tools,
        output_schema: prepared.output_schema,
    }
}

/// Session-scoped record of the latest request attempt and the latest sent request.
#[derive(Debug)]
pub struct ModelRequestObserver {
    sequence: u64,
    latest_attempt: Option<ModelRequestSnapshot>,
    last_actual: Option<ModelRequestSnapshot>,
}

/// Abstract state of a [`ModelRequestObserver`].
pub struct ObserverView {
    /// Sequence number of the most recently prepared attempt.
    pub sequence: u64,
    pub latest_attempt: Option<RequestView>,
    pub last_actual: Option<RequestView>,
}

impl View for ModelRequestObserver {
    type V = ObserverView;

    closed spec fn view(&self) -> ObserverView {
        ObserverView {
            sequence: self.sequence,
            latest_attempt: optional_request(self.latest_attempt),
            last_actual: optional_request(self.last_actual),
        }
    }
}

/// The last sent request, when there is one, has status `Sent`.
pub open spec fn only_sent_is_actual(state: ObserverView) -> bool {
    state.last_actual matches Some(actual) ==> actual.status == ModelRequestAttemptStatus::Sent
}

/// The sequence number after `sequence`, saturating.
pub open spec fn next_sequence(sequence: u64) -> u64 {
    if sequence == u64::MAX {
        sequence
    } else {
        (sequence + 1) as u64
    }
}

/// State after recording a newly prepared attempt with sequence number `state.sequence`.
pub open spec fn after_prepared(state: ObserverView, attempt: RequestView) -> ObserverView {
    ObserverView {
        latest_attempt: match state.latest_attempt {
            Some(latest) if latest.sequence >= attempt.sequence => state.latest_attempt,
            _ => Some(attempt),
        },
        ..state
    }
}

/// State after reporting `status` for `attempt`.
pub open spec fn after_status(
    state: ObserverView,
    attempt: Option<RequestView>,
    status: ModelRequestAttemptStatus,
) -> ObserverView {
    match attempt {
        None => state,
        Some(attempt) => {
            let updated = RequestView { status, ..attempt };
            ObserverView {
                sequence: state.sequence,
                latest_attempt: match state.latest_attempt {
                    Some(latest) if latest.sequence == updated.sequence => Some(updated),
                    _ => state.latest_attempt,
                },
                last_actual: if status == ModelRequestAttemptStatus::Sent && match state.last_actual {
                    Some(actual) => actual.sequence < updated.sequence,
                    None => true,
                } {
                    Some(updated)
                } else {
                    state.last_actual
                },
            }
        },
    }
}

/// The state of an observer that has seen no request.
pub open spec fn fresh_observer() -> ObserverView {
    ObserverView { sequence: 0, latest_attempt: None, last_actual: None }
}

/// The state and the recorded attempt after one call of
/// [`ModelRequestObserver::record_prepared`] on an observer in `state`.
pub open spec fn prepare_step<'a>(state: ObserverView, prepared: PreparedModelRequest<'a>) -> (
    ObserverView,
    RequestView,
) {
    let sequence = next_sequence(state.sequence);
    let attempt = projected_request(prepared_projection(prepared, sequence));
    (after_prepared(ObserverView { sequence, ..state }, attempt), attempt)
}

/// Abstract value of an optional attempt.
pub open spec fn optional_attempt(attempt: Option<ModelRequestAttempt>) -> Option<RequestView> {
    match attempt {
        Some(a) => Some(a@),
        None => None,
    }
}

impl ModelRequestObserver {
    #[verifier::type_invariant]
    spec fn sent_only(self) -> bool {
        self.last_actual matches Some(actual) ==> actual.status == ModelRequestAttemptStatus::Sent
    }

    /// An observer that has seen no request.
    pub fn new() -> (observer: Self)
        ensures
            observer@ == (ObserverView { sequence: 0, latest_attempt: None, last_actual: None }),
    {
        ModelRequestObserver { sequence: 0, latest_attempt: None, last_actual: None }
    }

    /// Numbers and projects a request about to be sent, and records it as the latest attempt
    /// unless a newer attempt is already recorded.
    pub fn record_prepared(&mut self, prepared: PreparedModelRequest<'_>) -> (attempt:
        ModelRequestAttempt)
        ensures
            final(self)@.sequence == next_sequence(old(self)@.sequence),
            attempt@ == projected_request(
                prepared_projection(prepared, next_sequence(old(self)@.sequence)),
            ),
            final(self)@ == after_prepared(
                ObserverView { sequence: next_sequence(old(self)@.sequence), ..old(self)@ },
                attempt@,
            ),
            only_sent_is_actual(final(self)@),
    {
        proof {
            use_type_invariant(&*self);
        }
        let sequence = self.sequence.saturating_add(1);
        self.sequence = sequence;
        let instructions = if prepared.instructions.is_empty() {
            None
        } else {
            Some(prepared.instructions)
        };
        let snapshot = ModelRequestSnapshot::project(
            ModelRequestProjection {
                sequence,
                captured_at: prepared.captured_at,
                transport: prepared.transport,
                transport_uses_delta: prepared.transport_uses_delta,
                connection_reused: prepared.connection_reused,
                transport_input_items: prepared.transport_input_items,
                model: prepared.model,
                provider: prepared.provider,
                serialized_request: prepared.serialized_request,
                normalized_input: prepared.normalized_input,
                provider_input: prepared.provider_input,
                instructions,
                tools: prepared.tools,
                output_schema: prepared.output_schema,
            },
        );
        let newer = match &self.latest_attempt {
            Some(latest) => latest.sequence < sequence,
            None => true,
        };
        if newer {
            self.latest_attempt = Some(snapshot.clone());
        }
        ModelRequestAttempt(snapshot)
    }

    /// Uses up the sequence number of an attempt whose request could not be projected; nothing
    /// else is recorded.
    pub fn skip_attempt(&mut self)
        ensures
            final(self)@ == (ObserverView {
                sequence: next_sequence(old(self)@.sequence),
                ..old(self)@
            }),
    {
        proof {
            use_type_invariant(&*self);
        }
        self.sequence = self.sequence.saturating_add(1);
    }

    /// Reports that the request of `attempt` was sent at the transport boundary.
    pub fn record_sent(&mut self, attempt: Option<ModelRequestAttempt>)
        ensures
            final(self)@ == after_status(
                old(self)@,
                optional_attempt(attempt),
                ModelRequestAttemptStatus::Sent,
            ),
            only_sent_is_actual(final(self)@),
    {
        self.record_status(attempt, ModelRequestAttemptStatus::Sent);
    }

    /// Reports that the request of `attempt` failed before it was sent.
    pub fn record_failed(&mut self, attempt: Option<ModelRequestAttempt>)
        ensures
            final(self)@ == after_status(
                old(self)@,
                optional_attempt(attempt),
                ModelRequestAttemptStatus::Failed,
            ),
            final(self)@.last_actual == old(self)@.last_actual,
            only_sent_is_actual(final(self)@),
    {
        self.record_status(attempt, ModelRequestAttemptStatus::Failed);
    }

    /// The observed requests, with their item records re-limited to `limits`.
    pub fn inspect(&self, limits: ContextInspectionLimits) -> (inspection: ModelRequestInspection)
        ensures
            inspection@ == (InspectionView {
                latest_attempt: limit_optional_request(
                    self@.latest_attempt,
                    limits.spec_max_items() as nat,
                ),
                last_actual: limit_optional_request(
                    self@.last_actual,
                    limits.spec_max_items() as nat,
                ),
                current_normalized_matches_last_actual: None,
            }),
    {
        let latest_attempt = match &self.latest_attempt {
            Some(latest) => Some(latest.clone()),
            None => None,
        };
        let last_actual = match &self.last_actual {
            Some(actual) => Some(actual.clone()),
            None => None,
        };
        ModelRequestInspection {
            latest_attempt,
            last_actual,
            current_normalized_matches_last_actual: None,
        }.with_limits(limits)
    }

    fn record_status(&mut self, attempt: Option<ModelRequestAttempt>, status: ModelRequestAttemptStatus)
        ensures
            final(self)@ == after_status(old(self)@, optional_attempt(attempt), status),
            only_sent_is_actual(final(self)@),
    {
        proof {
            use_type_invariant(&*self);
        }
        let mut snapshot = match attempt {
            Some(ModelRequestAttempt(snapshot)) => snapshot,
            None => {
                return;
            },
        };
        snapshot.status = status;
        let same_as_latest = match &self.latest_attempt {
            Some(latest) => latest.sequence == snapshot.sequence,
            None => false,
        };
        if same_as_latest {
            self.latest_attempt = Some(snapshot.clone());
        }
        let newer_than_actual = match &self.last_actual {
            Some(actual) => actual.sequence < snapshot.sequence,
            None => true,
        };
        if status == ModelRequestAttemptStatus::Sent && newer_than_actual {
            self.last_actual = Some(snapshot);
        }
    }
}

impl Default for ModelRequestObserver {
    fn default() -> (observer: Self)
        ensures
            observer@ == (ObserverView { sequence: 0, latest_attempt: None, last_actual: None }),
    {
        Self::new()
    }
}

/// A context snapshot of raw and normalized history with the observed requests of `observer`
/// attached, all under `limits`.
pub open spec fn inspected_context(
    observer: ObserverView,
    history_version: u64,
    raw_items: Seq<SerializedItem>,
    normalized_items: Seq<SerializedItem>,
    limits: ContextInspectionLimits,
) -> SnapshotView {
    with_request(
        projected_snapshot(history_version, raw_items, normalized_items, limits),
        InspectionView {
            latest_attempt: limit_optional_request(
                observer.latest_attempt,
                limits.spec_max_items() as nat,
            ),
            last_actual: limit_optional_request(observer.last_actual, limits.spec_max_items() as nat),
            current_normalized_matches_last_actual: None,
        },
    )
}

/// Projects current history and attaches the observer's request inspection under the same
/// limits.
pub fn inspect_current_context(
    observer: &ModelRequestObserver,
    history_version: u64,
    raw_items: &[SerializedItem],
    normalized_items: &[SerializedItem],
    limits: ContextInspectionLimits,
) -> (snapshot: CurrentContextSnapshot)
    ensures
        snapshot@ == inspected_context(
            observer@,
            history_version,
            raw_items@,
            normalized_items@,
            limits,
        ),
{
    let request = observer.inspect(limits);
    CurrentContextSnapshot::project(history_version, raw_items, normalized_items, limits)
        .with_request_inspection(request)
}

/// A failed attempt never replaces the last sent request.
pub proof fn lemma_failure_keeps_last_actual(state: ObserverView, attempt: Option<RequestView>)
    ensures
        after_status(state, attempt, ModelRequestAttemptStatus::Failed).last_actual
            == state.last_actual,
{
}

/// Every transition keeps the last sent request at status `Sent`.
pub proof fn lemma_transitions_keep_only_sent_as_actual(
    state: ObserverView,
    attempt: Option<RequestView>,
    status: ModelRequestAttemptStatus,
    prepared: RequestView,
)
    requires
        only_sent_is_actual(state),
    ensures
        only_sent_is_actual(after_status(state, attempt, status)),
        only_sent_is_actual(after_prepared(state, prepared)),
{
}

/// Whether `next` is present whenever `previous` is, with a sequence number at least as high.
pub open spec fn not_older(previous: Option<RequestView>, next: Option<RequestView>) -> bool {
    match previous {
        Some(p) => match next {
            Some(n) => n.sequence >= p.sequence,
            None => false,
        },
        None => true,
    }
}

/// Observations never move back: the latest attempt and the last sent request are only ever
/// replaced by requests with a sequence number at least as high.
pub proof fn lemma_observations_never_go_back(
    state: ObserverView,
    attempt: Option<RequestView>,
    status: ModelRequestAttemptStatus,
    prepared: RequestView,
)
    ensures
        not_older(state.latest_attempt, after_status(state, attempt, status).latest_attempt),
        not_older(state.last_actual, after_status(state, attempt, status).last_actual),
        not_older(state.latest_attempt, after_prepared(state, prepared).latest_attempt),
        after_prepared(state, prepared).last_actual == state.last_actual,
{
}

/// A status report changes the latest attempt only when it concerns that very attempt, and then
/// only its status.
pub proof fn lemma_status_reports_touch_only_their_attempt(
    state: ObserverView,
    attempt: RequestView,
    status: ModelRequestAttemptStatus,
)
    ensures
        after_status(state, Some(attempt), status).latest_attempt != state.latest_attempt ==> (
        match state.latest_attempt {
            Some(latest) => latest.sequence == attempt.sequence,
            None => false,
        }) && after_status(state, Some(attempt), status).latest_attempt == Some(
            RequestView { status, ..attempt },
        ),
{
}

/// A snapshot of history whose normalized items are exactly the normalized input of the last
/// sent request reports that it matches that request, whatever limits either projection used.
pub proof fn lemma_unchanged_history_matches_last_actual(
    history_version: u64,
    raw_items: Seq<SerializedItem>,
    limits: ContextInspectionLimits,
    sent: ModelRequestProjection,
    stored_max_items: nat,
    latest_attempt: Option<RequestView>,
)
    ensures
        with_request(
            projected_snapshot(history_version, raw_items, sent.normalized_input@, limits),
            InspectionView {
                latest_attempt,
                last_actual: Some(
                    crate::request::limit_request(projected_request(sent), stored_max_items),
                ),
                current_normalized_matches_last_actual: None,
            },
        ).request.current_normalized_matches_last_actual == Some(true),
{
}

/// Starting from an observer that has seen no request, and with no status reported in
/// between, the `i`-th of successive prepared requests is numbered `i`, is recorded as
/// prepared, and becomes the latest attempt; no request counts as sent.
pub proof fn lemma_prepared_attempts_are_numbered_in_order<'a>(
    prepared: Seq<PreparedModelRequest<'a>>,
    states: Seq<ObserverView>,
    attempts: Seq<RequestView>,
)
    requires
        prepared.len() < u64::MAX,
        states.len() == prepared.len() + 1,
        attempts.len() == prepared.len(),
        states[0] == fresh_observer(),
        forall|i: int|
            0 <= i < prepared.len() ==> (states[i + 1], attempts[i]) == #[trigger] prepare_step(
                states[i],
                prepared[i],
            ),
    ensures
        forall|i: int|
            0 <= i < attempts.len() ==> #[trigger] attempts[i].sequence == i + 1
                && attempts[i].status == ModelRequestAttemptStatus::Prepared,
        forall|i: int|
            0 < i < states.len() ==> #[trigger] states[i].sequence == i
                && states[i].latest_attempt == Some(attempts[i - 1])
                && states[i].last_actual is None,
{
    assert forall|n: int| 0 <= n < states.len() implies #[trigger] states[n].sequence == n
        && states[n].last_actual is None
        && (n == 0 ==> states[n].latest_attempt is None)
        && (n > 0 ==> states[n].latest_attempt == Some(attempts[n - 1])
            && attempts[n - 1].sequence == n
            && attempts[n - 1].status == ModelRequestAttemptStatus::Prepared) by {
        lemma_prepared_prefix(prepared, states, attempts, n as nat);
    }
    assert forall|i: int| 0 <= i < attempts.len() implies #[trigger] attempts[i].sequence == i + 1
        && attempts[i].status == ModelRequestAttemptStatus::Prepared by {
        assert(states[i + 1].sequence == i + 1);
    }
}

proof fn lemma_prepared_prefix<'a>(
    prepared: Seq<PreparedModelRequest<'a>>,
    states: Seq<ObserverView>,
    attempts: Seq<RequestView>,
    n: nat,
)
    requires
        prepared.len() < u64::MAX,
        states.len() == prepared.len() + 1,
        attempts.len() == prepared.len(),
        states[0] == fresh_observer(),
        forall|i: int|
            0 <= i < prepared.len() ==> (states[i + 1], attempts[i]) == #[trigger] prepare_step(
                states[i],
                prepared[i],
            ),
        n < states.len(),
    ensures
        states[n as int].sequence == n,
        states[n as int].last_actual is None,
        n == 0 ==> states[n as int].latest_attempt is None,
        n > 0 ==> states[n as int].latest_attempt == Some(attempts[n - 1])
            && attempts[n - 1].sequence == n
            && attempts[n - 1].status == ModelRequestAttemptStatus::Prepared,
    decreases n,
{
    if n > 0 {
        let m = (n - 1) as nat;
        lemma_prepared_prefix(prepared, states, attempts, m);
        let step = prepare_step(states[m as int], prepared[m as int]);
        assert((states[n as int], attempts[m as int]) == step);
    }
}

/// A newly prepared attempt becomes the latest attempt whenever the recorded latest attempt
/// has a lower sequence number, whatever that attempt's status: a retry after a failed attempt
/// is the latest attempt, numbered one past the previous attempt and with status `Prepared`.
/// Reporting it sent then keeps it as the latest attempt, now `Sent`, and makes it the last
/// sent request unless a newer one was already sent.
pub proof fn lemma_newer_attempt_becomes_latest<'a>(
    state: ObserverView,
    prepared: PreparedModelRequest<'a>,
)
    requires
        state.sequence < u64::MAX,
    ensures
        prepare_step(state, prepared).1.sequence == state.sequence + 1,
        prepare_step(state, prepared).1.status == ModelRequestAttemptStatus::Prepared,
        prepare_step(state, prepared).0.last_actual == state.last_actual,
        (state.latest_attempt matches Some(latest) ==> latest.sequence <= state.sequence)
            ==> prepare_step(state, prepared).0.latest_attempt == Some(
            prepare_step(state, prepared).1,
        ),
        (state.latest_attempt matches Some(latest) ==> latest.sequence <= state.sequence)
            ==> after_status(
            prepare_step(state, prepared).0,
            Some(prepare_step(state, prepared).1),
            ModelRequestAttemptStatus::Sent,
        ).latest_attempt == Some(
            RequestView {
                status: ModelRequestAttemptStatus::Sent,
                ..prepare_step(state, prepared).1
            },
        ),
        (state.last_actual matches Some(actual) ==> actual.sequence <= state.sequence)
            ==> after_status(
            prepare_step(state, prepared).0,
            Some(prepare_step(state, prepared).1),
            ModelRequestAttemptStatus::Sent,
        ).last_actual == Some(
            RequestView {
                status: ModelRequestAttemptStatus::Sent,
                ..prepare_step(state, prepared).1
            },
        ),
{
}

/// Whether current normalized history matches the last sent request is known exactly when a
/// request was sent. It compares the fingerprint of the current normalized items' serializations
/// with that of the sent request's normalized input, so it is `false` whenever those
/// fingerprints differ, however many items either holds, and `true` whenever the two hold the
/// same serializations in the same order; the inspection's item limit plays no part.
pub proof fn lemma_match_flag_compares_current_and_sent_inputs<'a>(
    observer: ObserverView,
    history_version: u64,
    raw_items: Seq<SerializedItem>,
    normalized_items: Seq<SerializedItem>,
    limits: ContextInspectionLimits,
    sent: ModelRequestProjection<'a>,
)
    ensures
        observer.last_actual is None ==> inspected_context(
            observer,
            history_version,
            raw_items,
            normalized_items,
            limits,
        ).request.current_normalized_matches_last_actual is None,
        observer.last_actual matches Some(actual) ==> inspected_context(
            observer,
            history_version,
            raw_items,
            normalized_items,
            limits,
        ).request.current_normalized_matches_last_actual == Some(
            actual.normalized_input.fingerprint == collection_fingerprint(
                serializations(normalized_items),
            ),
        ),
        observer.last_actual matches Some(actual) ==> (actual.normalized_input.fingerprint
            != collection_fingerprint(serializations(normalized_items)) ==> inspected_context(
            observer,
            history_version,
            raw_items,
            normalized_items,
            limits,
        ).request.current_normalized_matches_last_actual == Some(false)),
        observer.last_actual matches Some(actual) ==> (actual.normalized_input
            == projected_request(sent).normalized_input && serializations(sent.normalized_input@)
            == serializations(normalized_items) ==> inspected_context(
            observer,
            history_version,
            raw_items,
            normalized_items,
            limits,
        ).request.current_normalized_matches_last_actual == Some(true)),
{
    if let Some(actual) = observer.last_actual {
        lemma_limit_changes_only_request_item_records(actual, limits.spec_max_items() as nat);
    }
}

/// A status report for an attempt that is the latest attempt gives that attempt the reported
/// status. A report that it was sent makes it the last sent request whenever no request with a
/// sequence number as high was sent before, and changes nothing of the last sent request
/// otherwise; a report that it failed never changes the last sent request.
pub proof fn lemma_status_report_outcome(
    state: ObserverView,
    attempt: RequestView,
    status: ModelRequestAttemptStatus,
)
    ensures
        (state.latest_attempt matches Some(latest) && latest.sequence == attempt.sequence)
            ==> after_status(state, Some(attempt), status).latest_attempt == Some(
            RequestView { status, ..attempt },
        ),
        (state.last_actual matches Some(actual) ==> actual.sequence < attempt.sequence) ==> after_status(
            state,
            Some(attempt),
            ModelRequestAttemptStatus::Sent,
        ).last_actual == Some(RequestView { status: ModelRequestAttemptStatus::Sent, ..attempt }),
        (state.last_actual matches Some(actual) && actual.sequence >= attempt.sequence) ==> after_status(
            state,
            Some(attempt),
            status,
        ).last_actual == state.last_actual,
        status != ModelRequestAttemptStatus::Sent ==> after_status(
            state,
            Some(attempt),
            status,
        ).last_actual == state.last_actual,
        after_status(state, Some(attempt), status).sequence == state.sequence,
        after_status(state, None, status) == state,
{
}

} // verus!
