//! The worker pipeline: turns one probe outcome for one instance into the
//! status to persist, and — only on a state transition — the lifecycle event
//! to emit and the decision to fan notifications out.

use vstd::prelude::*;
use crate::common::{
    namespace_or_default, namespace_text, outcome_state, recorded_state, transition_message,
    transition_message_spec, MonitorResource, MonitorState, MonitorStatus,
};

verus! {

/// A lifecycle event to record against an instance.
pub struct EventRecord {
    /// The name of the instance the event is about.
    pub resource_name: String,
    /// The kind of the instance.
    pub resource_kind: String,
    /// The `group/version` string of the kind.
    pub resource_api_version: String,
    /// The namespace the event is scoped to.
    pub namespace: String,
    /// The machine-readable reason.
    pub reason: String,
    /// The human-readable message, naming both states.
    pub message: String,
    /// The severity: `Normal` for a transition to Healthy, `Warning`
    /// otherwise.
    pub type_: String,
}

/// What one worker invocation decides for one instance.
pub struct WorkerOutcome {
    /// The previously recorded state, `NoData` when none was recorded.
    pub old_state: MonitorState,
    /// The state the probe outcome maps to, `NoData` when the probe could
    /// not be executed.
    pub new_state: MonitorState,
    /// Whether the state changed. Only then is the event emitted and the
    /// notification fan-out invoked.
    pub transitioned: bool,
    /// The status to persist: both fields set together, always written.
    pub status: MonitorStatus,
    /// The lifecycle event to emit, present exactly on a transition.
    pub event: Option<EventRecord>,
}

/// Whether a worker invocation against the given recorded status, with the
/// given probe outcome, observes a state transition.
pub open spec fn spec_transitioned(
    status: Option<MonitorStatus>,
    check: Result<MonitorState, String>,
) -> bool {
    recorded_state(status) != outcome_state(check)
}

/// Relies on chrono's `Utc::now().to_rfc3339()` for the current wall-clock
/// timestamp; nothing is assumed of the value.
#[verifier::external_body]
fn now_rfc3339() -> (r: String) {
    chrono::Utc::now().to_rfc3339()
}

/// The worker pipeline's decision for one instance, given the probe outcome
/// and the timestamp to record: reads the old state (NoData when no status
/// was recorded), maps a failed probe to NoData, always produces a full
/// status write, and produces a lifecycle event exactly when the state
/// changed.
pub fn process_check<T: MonitorResource>(
    monitor: &T,
    check_result: Result<MonitorState, String>,
    now: String,
) -> (out: WorkerOutcome)
    ensures
        out.old_state == recorded_state(monitor.spec_status()),
        out.new_state == outcome_state(check_result),
        out.transitioned == spec_transitioned(monitor.spec_status(), check_result),
        out.status.state == out.new_state,
        out.status.last_checked matches Some(t) && t@ == now@,
        out.event is Some <==> out.transitioned,
        out.event matches Some(ev) ==> {
            &&& ev.resource_name@ == monitor.spec_name()
            &&& ev.resource_kind@ == T::spec_kind()
            &&& ev.resource_api_version@ == T::spec_api_version()
            &&& ev.namespace@ == namespace_text(monitor.spec_namespace())
            &&& ev.reason@ == "StateChange"@
            &&& ev.message@ == transition_message_spec(out.old_state, out.new_state)
            &&& (out.new_state == MonitorState::Healthy ==> ev.type_@ == "Normal"@)
            &&& (out.new_state != MonitorState::Healthy ==> ev.type_@ == "Warning"@)
        },
{
    let old_state: MonitorState = match monitor.status() {
        Some(st) => st.state,
        None => MonitorState::NoData,
    };
    let new_state: MonitorState = match check_result {
        Ok(s) => s,
        Err(_) => MonitorState::NoData,
    };
    let transitioned = old_state != new_state;
    let event: Option<EventRecord> = if transitioned {
        Some(
            EventRecord {
                resource_name: monitor.name().clone(),
                resource_kind: T::kind(),
                resource_api_version: T::api_version(),
                namespace: namespace_or_default(monitor.namespace()),
                reason: String::from_str("StateChange"),
                message: transition_message(old_state, new_state),
                type_: if new_state == MonitorState::Healthy {
                    String::from_str("Normal")
                } else {
                    String::from_str("Warning")
                },
            },
        )
    } else {
        None
    };
    WorkerOutcome {
        old_state,
        new_state,
        transitioned,
        status: MonitorStatus { last_checked: Some(now), state: new_state },
        event,
    }
}

/// The worker pipeline's decision for one instance, timestamped with the
/// current wall-clock time.
pub fn process_monitor<T: MonitorResource>(
    monitor: &T,
    check_result: Result<MonitorState, String>,
) -> (out: WorkerOutcome)
    ensures
        out.old_state == recorded_state(monitor.spec_status()),
        out.new_state == outcome_state(check_result),
        out.transitioned == spec_transitioned(monitor.spec_status(), check_result),
        out.status.state == out.new_state,
        out.status.last_checked is Some,
        out.event is Some <==> out.transitioned,
        out.event matches Some(ev) ==> {
            &&& ev.resource_name@ == monitor.spec_name()
            &&& ev.resource_kind@ == T::spec_kind()
            &&& ev.resource_api_version@ == T::spec_api_version()
            &&& ev.namespace@ == namespace_text(monitor.spec_namespace())
            &&& ev.reason@ == "StateChange"@
            &&& ev.message@ == transition_message_spec(out.old_state, out.new_state)
            &&& (out.new_state == MonitorState::Healthy ==> ev.type_@ == "Normal"@)
            &&& (out.new_state != MonitorState::Healthy ==> ev.type_@ == "Warning"@)
        },
{
    let now = now_rfc3339();
    process_check(monitor, check_result, now)
}

/// Running the worker pipeline a second time in immediate succession, against
/// the status the first run persisted and with an unchanged probe outcome,
/// observes no transition: no second lifecycle event is emitted and no second
/// notification fan-out is invoked.
pub proof fn lemma_pipeline_idempotent(persisted: MonitorStatus, check: Result<MonitorState, String>)
    requires
        persisted.state == outcome_state(check),
    ensures
        !spec_transitioned(Some(persisted), check),
{
}

} // verus!
