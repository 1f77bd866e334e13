//! The TCP monitor kind: a target `host:port` probed by a bounded connection
//! attempt. A successful connection means Healthy; any failure or timeout
//! means Critical.

use vstd::prelude::*;
use crate::common::{
    Action, ControllerResource, Error, Metadata, MonitorConfigSpec, MonitorResource, MonitorState,
    MonitorStatus,
};
use crate::text::lower_seq;

verus! {

/// The declarative description of one TCP monitor.
pub struct TCPMonitorSpec {
    /// The hostname or IP address of the target.
    pub host: String,
    /// The port number to check.
    pub port: u16,
    /// Configuration for the monitoring behaviour.
    pub monitor_config: MonitorConfigSpec,
}

/// One declared TCP monitor instance.
pub struct TCPMonitor {
    pub metadata: Metadata,
    pub spec: TCPMonitorSpec,
    pub status: Option<MonitorStatus>,
}

impl TCPMonitor {
    /// A new instance with the given name, an empty namespace and no status.
    pub fn new(name: &str, spec: TCPMonitorSpec) -> (m: TCPMonitor)
        ensures
            m.metadata.name@ == name@,
            m.metadata.namespace is None,
            m.metadata.labels@.len() == 0,
            m.spec == spec,
            m.status is None,
    {
        TCPMonitor {
            metadata: Metadata { name: name.to_owned(), namespace: None, labels: Vec::new() },
            spec,
            status: None,
        }
    }
}

/// The health state a TCP probe outcome maps to: Healthy when the connection
/// was established, Critical otherwise.
pub open spec fn tcp_state_spec(open: bool) -> MonitorState {
    if open {
        MonitorState::Healthy
    } else {
        MonitorState::Critical
    }
}

/// Maps the outcome of a TCP connection attempt to a health state. An
/// unreachable target yields Critical, never an execution error.
pub fn tcp_state(open: bool) -> (s: MonitorState)
    ensures
        s == tcp_state_spec(open),
{
    if open {
        MonitorState::Healthy
    } else {
        MonitorState::Critical
    }
}

/// An unreachable TCP target yields Critical, never an execution error: the
/// probe outcome of a failed or timed-out connection maps to a health state.
pub proof fn lemma_unreachable_tcp_is_critical()
    ensures
        tcp_state_spec(false) == MonitorState::Critical,
{
}

impl ControllerResource for TCPMonitor {
    open spec fn valid(&self) -> bool {
        true
    }

    open spec fn success_requeue_secs(&self) -> u64 {
        self.spec.monitor_config.polling_frequency as u64
    }

    open spec fn error_requeue_secs(&self) -> u64 {
        5
    }

    fn success_policy(&self) -> (a: Action) {
        Action::requeue(self.spec.monitor_config.polling_frequency as u64)
    }

    fn error_policy(&self) -> (a: Action) {
        Action::requeue(5)
    }

    fn validate(&self) -> (r: Result<(), Error>) {
        Ok(())
    }
}

impl MonitorResource for TCPMonitor {
    open spec fn spec_kind() -> Seq<char> {
        "TCPMonitor"@
    }

    open spec fn spec_kind_lower() -> Seq<char> {
        "tcpmonitor"@
    }

    open spec fn spec_api_version() -> Seq<char> {
        "kastlewatch.io/v1alpha1"@
    }

    open spec fn spec_name(&self) -> Seq<char> {
        self.metadata.name@
    }

    open spec fn spec_namespace(&self) -> Option<String> {
        self.metadata.namespace
    }

    open spec fn spec_config(&self) -> MonitorConfigSpec {
        self.spec.monitor_config
    }

    open spec fn spec_status(&self) -> Option<MonitorStatus> {
        self.status
    }

    proof fn lemma_kind_lower() {
        reveal_strlit("TCPMonitor");
        reveal_strlit("tcpmonitor");
        assert(Self::spec_kind_lower() =~= lower_seq(Self::spec_kind()));
    }

    fn kind() -> (s: String) {
        String::from_str("TCPMonitor")
    }

    fn kind_lower() -> (s: String) {
        String::from_str("tcpmonitor")
    }

    fn api_version() -> (s: String) {
        String::from_str("kastlewatch.io/v1alpha1")
    }

    fn name(&self) -> (s: &String) {
        &self.metadata.name
    }

    fn namespace(&self) -> (ns: &Option<String>) {
        &self.metadata.namespace
    }

    fn monitor_config(&self) -> (c: &MonitorConfigSpec) {
        &self.spec.monitor_config
    }

    fn status(&self) -> (st: &Option<MonitorStatus>) {
        &self.status
    }
}

} // verus!
