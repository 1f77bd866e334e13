//! The HTTP monitor kind: a URL probed by a GET or POST request with a
//! bounded timeout. An optional request body is configured in a
//! transport-safe base64 encoding and must decode; a body that does not
//! decode is rejected during validation, before any network activity.

use vstd::prelude::*;
use base64::Engine;
use crate::common::{
    Action, ControllerResource, Error, Metadata, MonitorConfigSpec, MonitorResource, MonitorState,
    MonitorStatus,
};
use crate::text::lower_seq;

verus! {

/// The HTTP methods a monitor may use.
#[derive(Clone, Copy, Debug, PartialEq, Eq, Structural)]
pub enum Method {
    GET,
    POST,
}

/// The declarative description of one HTTP monitor.
pub struct HTTPMonitorSpec {
    /// The URL to check.
    pub url: String,
    /// Configuration for the monitoring behaviour.
    pub monitor_config: MonitorConfigSpec,
    /// The request method, GET or POST.
    pub method: Method,
    /// Status codes accepted as success; absent means any 2xx code.
    pub status_code: Option<Vec<u16>>,
    /// A base64 string used as the request body once decoded; absent means
    /// no body.
    pub base64_data: Option<String>,
}

/// One declared HTTP monitor instance.
pub struct HTTPMonitor {
    pub metadata: Metadata,
    pub spec: HTTPMonitorSpec,
    pub status: Option<MonitorStatus>,
}

/// What the standard-alphabet base64 decoder yields for a string: the
/// decoded bytes, or nothing when the string is not valid base64. A function
/// of the characters alone.
pub uninterp spec fn base64_decoding(s: Seq<char>) -> Option<Seq<u8>>;

/// Relies on base64's standard-alphabet `Engine::decode`: whether a string
/// decodes, and to which bytes, depends on its characters alone.
#[verifier::external_body]
fn base64_decode(s: &str) -> (r: Option<Vec<u8>>)
    ensures
        r is Some <==> base64_decoding(s@) is Some,
        r matches Some(b) ==> base64_decoding(s@) == Some(b@),
{
    base64::engine::general_purpose::STANDARD.decode(s).ok()
}

impl HTTPMonitor {
    /// A new instance with the given name, an empty namespace and no status.
    pub fn new(name: &str, spec: HTTPMonitorSpec) -> (m: HTTPMonitor)
        ensures
            m.metadata.name@ == name@,
            m.metadata.namespace is None,
            m.metadata.labels@.len() == 0,
            m.spec == spec,
            m.status is None,
    {
        HTTPMonitor {
            metadata: Metadata { name: name.to_owned(), namespace: None, labels: Vec::new() },
            spec,
            status: None,
        }
    }

    /// The decoded request body to send: the decoded bytes when a body is
    /// configured and decodes, nothing otherwise.
    pub fn request_body(&self) -> (r: Option<Vec<u8>>)
        ensures
            match self.spec.base64_data {
                Some(d) => match base64_decoding(d@) {
                    Some(b) => r matches Some(v) && v@ == b,
                    None => r is None,
                },
                None => r is None,
            },
    {
        match &self.spec.base64_data {
            Some(data) => base64_decode(data.as_str()),
            None => None,
        }
    }
}

/// Whether an HTTP response status meets the monitor's success criterion:
/// membership in the configured allowed set when one is given, any 2xx
/// status otherwise.
pub open spec fn status_accepted_spec(code: u16, allowed: Option<Vec<u16>>) -> bool {
    match allowed {
        Some(codes) => codes@.contains(code),
        None => 200 <= code < 300,
    }
}

/// The health state an HTTP probe outcome maps to. `response_status` is the
/// status code of the response, or nothing when the request failed in
/// transport (timeout, refused connection, TLS failure); transport failure
/// yields Critical, never an execution error.
pub open spec fn http_state_spec(response_status: Option<u16>, allowed: Option<Vec<u16>>) -> MonitorState {
    match response_status {
        Some(code) => if status_accepted_spec(code, allowed) {
            MonitorState::Healthy
        } else {
            MonitorState::Critical
        },
        None => MonitorState::Critical,
    }
}

/// Maps the outcome of an HTTP request to a health state.
pub fn http_state(response_status: Option<u16>, allowed: &Option<Vec<u16>>) -> (s: MonitorState)
    ensures
        s == http_state_spec(response_status, *allowed),
{
    let accepted: bool = match response_status {
        Some(code) => match allowed {
            Some(codes) => contains_code(codes, code),
            None => 200 <= code && code < 300,
        },
        None => false,
    };
    if accepted {
        MonitorState::Healthy
    } else {
        MonitorState::Critical
    }
}

/// Whether `codes` contains `code`.
fn contains_code(codes: &Vec<u16>, code: u16) -> (r: bool)
    ensures
        r == codes@.contains(code),
{
    let mut i: usize = 0;
    while i < codes.len()
        invariant
            i <= codes.len(),
            forall|j: int| 0 <= j < i ==> codes@[j] != code,
        decreases codes.len() - i,
    {
        if codes[i] == code {
            return true;
        }
        i += 1;
    }
    false
}

/// A transport failure — timeout, refused connection, TLS failure — yields
/// Critical for every status-code configuration, never an execution error.
pub proof fn lemma_transport_failure_is_critical(allowed: Option<Vec<u16>>)
    ensures
        http_state_spec(None, allowed) == MonitorState::Critical,
{
}

impl ControllerResource for HTTPMonitor {
    open spec fn valid(&self) -> bool {
        match self.spec.base64_data {
            Some(d) => base64_decoding(d@) is Some,
            None => true,
        }
    }

    open spec fn success_requeue_secs(&self) -> u64 {
        self.spec.monitor_config.polling_frequency as u64
    }

    open spec fn error_requeue_secs(&self) -> u64 {
        5
    }

    fn success_policy(&self) -> (a: Action) {
        Action::requeue(self.spec.monitor_config.polling_frequency as u64)
    }

    fn error_policy(&self) -> (a: Action) {
        Action::requeue(5)
    }

    fn validate(&self) -> (r: Result<(), Error>) {
        match &self.spec.base64_data {
            Some(data) => match base64_decode(data.as_str()) {
                Some(_) => Ok(()),
                None => Err(Error::Validation(String::from_str("invalid base64 request body"))),
            },
            None => Ok(()),
        }
    }
}

impl MonitorResource for HTTPMonitor {
    open spec fn spec_kind() -> Seq<char> {
        "HTTPMonitor"@
    }

    open spec fn spec_kind_lower() -> Seq<char> {
        "httpmonitor"@
    }

    open spec fn spec_api_version() -> Seq<char> {
        "kastlewatch.io/v1alpha1"@
    }

    open spec fn spec_name(&self) -> Seq<char> {
        self.metadata.name@
    }

    open spec fn spec_namespace(&self) -> Option<String> {
        self.metadata.namespace
    }

    open spec fn spec_config(&self) -> MonitorConfigSpec {
        self.spec.monitor_config
    }

    open spec fn spec_status(&self) -> Option<MonitorStatus> {
        self.status
    }

    proof fn lemma_kind_lower() {
        reveal_strlit("HTTPMonitor");
        reveal_strlit("httpmonitor");
        assert(Self::spec_kind_lower() =~= lower_seq(Self::spec_kind()));
    }

    fn kind() -> (s: String) {
        String::from_str("HTTPMonitor")
    }

    fn kind_lower() -> (s: String) {
        String::from_str("httpmonitor")
    }

    fn api_version() -> (s: String) {
        String::from_str("kastlewatch.io/v1alpha1")
    }

    fn name(&self) -> (s: &String) {
        &self.metadata.name
    }

    fn namespace(&self) -> (ns: &Option<String>) {
        &self.metadata.namespace
    }

    fn monitor_config(&self) -> (c: &MonitorConfigSpec) {
        &self.spec.monitor_config
    }

    fn status(&self) -> (st: &Option<MonitorStatus>) {
        &self.status
    }
}

} // verus!
