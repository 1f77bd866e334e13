//! Shared data model: health states, status records, monitor configuration,
//! label pairs and secret references.

use vstd::prelude::*;
use crate::text::lower_seq;

verus! {

/// The scheduling decision handed back to the watch framework after a
/// reconciliation: revisit the instance after this many seconds. Watching
/// never stops.
#[derive(Clone, Copy, Debug, PartialEq, Eq, Structural)]
pub struct Action {
    pub requeue_after_secs: u64,
}

impl Action {
    /// The action that revisits the instance after `secs` seconds.
    pub fn requeue(secs: u64) -> (a: Action)
        ensures
            a.requeue_after_secs == secs,
    {
        Action { requeue_after_secs: secs }
    }
}

/// A reconciliation failure: the instance's configuration is structurally
/// invalid and no work was dispatched for it.
#[derive(Debug)]
pub enum Error {
    Validation(String),
}

impl Error {
    /// The human-readable description carried by the error.
    pub fn message(&self) -> (m: &String)
        ensures
            self matches Error::Validation(s) ==> m@ == s@,
    {
        match self {
            Error::Validation(m) => m,
        }
    }
}

/// The health of a monitored target.
#[derive(Clone, Copy, Debug, PartialEq, Eq, Structural)]
pub enum MonitorState {
    /// The target is reachable and healthy.
    Healthy,
    /// The target is reachable but showing signs of issues (reserved; no
    /// check executor currently produces it).
    Warning,
    /// The target is unreachable.
    Critical,
    /// No check has been performed yet, or the check could not be executed.
    NoData,
}

/// A single `key = value` label pair, as used for selector matching.
pub struct Label {
    pub key: String,
    pub value: String,
}

/// The mutable status attached to a monitor instance. A status write always
/// sets both fields together.
pub struct MonitorStatus {
    /// The timestamp of the last check, in RFC 3339 form.
    pub last_checked: Option<String>,
    /// The health state recorded by the last check.
    pub state: MonitorState,
}

/// Configuration shared by every monitor kind.
pub struct MonitorConfigSpec {
    /// Timeout in seconds for one connection attempt.
    pub timeout: u32,
    /// Number of retries before considering the check failed (reserved; not
    /// consulted by the current check executors).
    pub retries: u32,
    /// Frequency in seconds at which the target is polled.
    pub polling_frequency: u32,
    /// Labels that a notifier must carry to receive change notifications;
    /// absent means no notification is wanted.
    pub notifiers_match_labels: Option<Vec<Label>>,
}

/// A reference to one key of a named secret.
pub struct SecretKeySelector {
    /// The name of the secret.
    pub name: String,
    /// The key within the secret.
    pub key: String,
}

/// The identifying part of a declared instance.
pub struct Metadata {
    /// The instance's name, unique within its namespace.
    pub name: String,
    /// The namespace the instance lives in; absent means the default one.
    pub namespace: Option<String>,
    /// The labels attached to the instance.
    pub labels: Vec<Label>,
}

/// The capability every watched instance kind offers to the reconciliation
/// loop: a revisit interval on success, a short fixed backoff on error, and
/// structural validation.
pub trait ControllerResource: Sized {
    /// Whether the instance's configuration is structurally valid.
    spec fn valid(&self) -> bool;

    /// The revisit interval returned after a successful reconciliation.
    spec fn success_requeue_secs(&self) -> u64;

    /// The fixed backoff returned after a failed reconciliation.
    spec fn error_requeue_secs(&self) -> u64;

    /// The action to take after a successful reconciliation.
    fn success_policy(&self) -> (a: Action)
        ensures
            a.requeue_after_secs == self.success_requeue_secs(),
    ;

    /// The action to take after a failed reconciliation; short and fixed,
    /// independent of the error.
    fn error_policy(&self) -> (a: Action)
        ensures
            a.requeue_after_secs == self.error_requeue_secs(),
    ;

    /// Rejects a structurally invalid configuration before any network
    /// activity.
    fn validate(&self) -> (r: Result<(), Error>)
        ensures
            r is Ok <==> self.valid(),
    ;
}

/// The capability monitor kinds offer on top of [`ControllerResource`]:
/// identity, kind naming for worker routing, shared configuration and the
/// recorded status.
pub trait MonitorResource: ControllerResource {
    /// The kind's name.
    spec fn spec_kind() -> Seq<char>;

    /// The kind's name in lower case, as used in worker URLs.
    spec fn spec_kind_lower() -> Seq<char>;

    /// The kind's `group/version` string.
    spec fn spec_api_version() -> Seq<char>;

    /// The instance's name.
    spec fn spec_name(&self) -> Seq<char>;

    /// The instance's namespace, when set.
    spec fn spec_namespace(&self) -> Option<String>;

    /// The instance's shared monitor configuration.
    spec fn spec_config(&self) -> MonitorConfigSpec;

    /// The instance's recorded status, when one exists.
    spec fn spec_status(&self) -> Option<MonitorStatus>;

    /// The lowered kind name is exactly the kind name with its ASCII capital
    /// letters lowered.
    proof fn lemma_kind_lower()
        ensures
            Self::spec_kind_lower() == lower_seq(Self::spec_kind()),
    ;

    /// The kind's name.
    fn kind() -> (s: String)
        ensures
            s@ == Self::spec_kind(),
    ;

    /// The kind's name in lower case.
    fn kind_lower() -> (s: String)
        ensures
            s@ == Self::spec_kind_lower(),
    ;

    /// The kind's `group/version` string.
    fn api_version() -> (s: String)
        ensures
            s@ == Self::spec_api_version(),
    ;

    /// The instance's name.
    fn name(&self) -> (s: &String)
        ensures
            s@ == self.spec_name(),
    ;

    /// The instance's namespace, when set.
    fn namespace(&self) -> (ns: &Option<String>)
        ensures
            *ns == self.spec_namespace(),
    ;

    /// The instance's shared monitor configuration.
    fn monitor_config(&self) -> (c: &MonitorConfigSpec)
        ensures
            *c == self.spec_config(),
    ;

    /// The instance's recorded status, when one exists.
    fn status(&self) -> (st: &Option<MonitorStatus>)
        ensures
            *st == self.spec_status(),
    ;
}

/// The health state a check result maps to: the probed state on success,
/// `NoData` when the probe itself could not be executed.
pub open spec fn outcome_state(check: Result<MonitorState, String>) -> MonitorState {
    match check {
        Ok(s) => s,
        Err(_) => MonitorState::NoData,
    }
}

/// The previously recorded state, defaulting to `NoData` when no status has
/// been recorded yet.
pub open spec fn recorded_state(status: Option<MonitorStatus>) -> MonitorState {
    match status {
        Some(st) => st.state,
        None => MonitorState::NoData,
    }
}

/// The name of a health state, as written in messages.
pub open spec fn state_name_spec(s: MonitorState) -> Seq<char> {
    match s {
        MonitorState::Healthy => "Healthy"@,
        MonitorState::Warning => "Warning"@,
        MonitorState::Critical => "Critical"@,
        MonitorState::NoData => "NoData"@,
    }
}

/// The name of a health state, as written in messages.
pub fn state_name(s: MonitorState) -> (r: String)
    ensures
        r@ == state_name_spec(s),
{
    match s {
        MonitorState::Healthy => String::from_str("Healthy"),
        MonitorState::Warning => String::from_str("Warning"),
        MonitorState::Critical => String::from_str("Critical"),
        MonitorState::NoData => String::from_str("NoData"),
    }
}

/// The human-readable description of a state transition, naming both states.
pub open spec fn transition_message_spec(old_state: MonitorState, new_state: MonitorState) -> Seq<char> {
    "State changed from "@ + state_name_spec(old_state) + " to "@ + state_name_spec(new_state)
}

/// Renders the description of a state transition.
pub fn transition_message(old_state: MonitorState, new_state: MonitorState) -> (r: String)
    ensures
        r@ == transition_message_spec(old_state, new_state),
{
    let mut r = String::from_str("State changed from ");
    r.append(state_name(old_state).as_str());
    r.append(" to ");
    r.append(state_name(new_state).as_str());
    proof {
        assert(r@ =~= transition_message_spec(old_state, new_state));
    }
    r
}

/// The namespace an instance's work is scoped to: its own namespace, or the
/// default one when none is set.
pub open spec fn namespace_text(ns: Option<String>) -> Seq<char> {
    match ns {
        Some(n) => n@,
        None => "default"@,
    }
}

/// Resolves the namespace an instance's work is scoped to.
pub fn namespace_or_default(ns: &Option<String>) -> (r: String)
    ensures
        r@ == namespace_text(*ns),
{
    match ns {
        Some(n) => n.clone(),
        None => String::from_str("default"),
    }
}

} // verus!
