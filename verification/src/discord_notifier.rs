//! The Discord notifier kind: delivers a state-change notification as a
//! JSON embed — title, description naming both states, a colour code keyed
//! by the new health state, and an RFC 3339 timestamp — to a webhook URL
//! resolved from a secret.

use vstd::prelude::*;
use crate::common::{
    transition_message, transition_message_spec, state_name, state_name_spec, Action,
    ControllerResource, Error, Label, Metadata, MonitorState, SecretKeySelector,
};
use crate::notifiers::NotifierResource;

verus! {

/// The declarative description of one Discord notifier.
pub struct DiscordNotifierSpec {
    /// Reference to the secret holding the webhook URL.
    pub webhook_secret_ref: SecretKeySelector,
    /// Optional message format (reserved; not currently used).
    pub message_format: Option<String>,
}

/// One declared Discord notifier instance.
pub struct DiscordNotifier {
    pub metadata: Metadata,
    pub spec: DiscordNotifierSpec,
}

impl DiscordNotifier {
    /// A new instance with the given name, an empty namespace and no labels.
    pub fn new(name: &str, spec: DiscordNotifierSpec) -> (n: DiscordNotifier)
        ensures
            n.metadata.name@ == name@,
            n.metadata.namespace is None,
            n.metadata.labels@.len() == 0,
            n.spec == spec,
    {
        DiscordNotifier {
            metadata: Metadata { name: name.to_owned(), namespace: None, labels: Vec::new() },
            spec,
        }
    }
}

/// The embed colour code for a health state: green for Healthy, yellow for
/// Warning, red for Critical, gray for NoData.
pub open spec fn state_color_spec(s: MonitorState) -> u32 {
    match s {
        MonitorState::Healthy => 0x00FF00,
        MonitorState::Warning => 0xFFFF00,
        MonitorState::Critical => 0xFF0000,
        MonitorState::NoData => 0x808080,
    }
}

/// The embed colour code for a health state.
pub fn state_color(s: MonitorState) -> (c: u32)
    ensures
        c == state_color_spec(s),
{
    match s {
        MonitorState::Healthy => 0x00FF00,
        MonitorState::Warning => 0xFFFF00,
        MonitorState::Critical => 0xFF0000,
        MonitorState::NoData => 0x808080,
    }
}

/// The notification title: `Monitor {name} is {state}`.
pub open spec fn notification_title_spec(monitor_name: Seq<char>, new_state: MonitorState) -> Seq<
    char,
> {
    "Monitor "@ + monitor_name + " is "@ + state_name_spec(new_state)
}

/// The content of one outbound notification.
pub struct NotificationPayload {
    /// The embed title, naming the monitor and its new state.
    pub title: String,
    /// The embed description, naming both states of the transition.
    pub description: String,
    /// The embed colour code, keyed by the new state.
    pub color: u32,
    /// The RFC 3339 timestamp of the notification.
    pub timestamp: String,
}

/// Builds the notification payload for one state transition of one monitor.
pub fn build_notification(
    monitor_name: &str,
    old_state: MonitorState,
    new_state: MonitorState,
    timestamp: &str,
) -> (p: NotificationPayload)
    ensures
        p.title@ == notification_title_spec(monitor_name@, new_state),
        p.description@ == transition_message_spec(old_state, new_state),
        p.color == state_color_spec(new_state),
        p.timestamp@ == timestamp@,
{
    let mut title = String::from_str("Monitor ");
    title.append(monitor_name);
    title.append(" is ");
    title.append(state_name(new_state).as_str());
    proof {
        assert(title@ =~= notification_title_spec(monitor_name@, new_state));
    }
    NotificationPayload {
        title,
        description: transition_message(old_state, new_state),
        color: state_color(new_state),
        timestamp: timestamp.to_owned(),
    }
}

/// Whether a delivery attempt's HTTP response status counts as success: any
/// non-2xx status is a delivery error.
pub fn delivery_succeeded(status: u16) -> (r: bool)
    ensures
        r == (200 <= status < 300),
{
    200 <= status && status < 300
}

impl ControllerResource for DiscordNotifier {
    open spec fn valid(&self) -> bool {
        true
    }

    open spec fn success_requeue_secs(&self) -> u64 {
        3600
    }

    open spec fn error_requeue_secs(&self) -> u64 {
        60
    }

    fn success_policy(&self) -> (a: Action) {
        Action::requeue(3600)
    }

    fn error_policy(&self) -> (a: Action) {
        Action::requeue(60)
    }

    fn validate(&self) -> (r: Result<(), Error>) {
        Ok(())
    }
}

impl NotifierResource for DiscordNotifier {
    open spec fn spec_name(&self) -> Seq<char> {
        self.metadata.name@
    }

    open spec fn spec_labels(&self) -> Seq<Label> {
        self.metadata.labels@
    }

    fn name(&self) -> (s: &String) {
        &self.metadata.name
    }

    fn labels(&self) -> (ls: &Vec<Label>) {
        &self.metadata.labels
    }
}

} // verus!
