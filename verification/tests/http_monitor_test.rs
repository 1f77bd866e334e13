use kastlewatch::common::{ControllerResource, MonitorConfigSpec, MonitorState};
use kastlewatch::http_monitor::{http_state, HTTPMonitor, HTTPMonitorSpec, Method};
use kastlewatch::worker::process_check;

fn http_monitor(base64_data: Option<String>, status_code: Option<Vec<u16>>) -> HTTPMonitor {
    HTTPMonitor::new(
        "http-test-monitor",
        HTTPMonitorSpec {
            url: "http://127.0.0.1:8080/healthz".to_string(),
            method: Method::GET,
            status_code,
            base64_data,
            monitor_config: MonitorConfigSpec {
                timeout: 5,
                retries: 3,
                polling_frequency: 5,
                notifiers_match_labels: None,
            },
        },
    )
}

#[test]
fn test_http_monitor_flow() {
    // An HTTP monitor with no status-code override: a 200 response yields
    // Healthy and the worker records it; the instance starts without status.
    let monitor = http_monitor(None, None);
    assert!(monitor.status.is_none(), "Initial status should be None");
    let state = http_state(Some(200), &monitor.spec.status_code);
    assert_eq!(state, MonitorState::Healthy);
    let out = process_check(&monitor, Ok(state), "2024-01-01T00:00:00+00:00".to_string());
    assert_eq!(out.status.state, MonitorState::Healthy);
    assert_eq!(out.old_state, MonitorState::NoData);
}

#[test]
fn test_http_state_without_override() {
    assert_eq!(http_state(Some(200), &None), MonitorState::Healthy);
    assert_eq!(http_state(Some(299), &None), MonitorState::Healthy);
    assert_eq!(http_state(Some(199), &None), MonitorState::Critical);
    assert_eq!(http_state(Some(300), &None), MonitorState::Critical);
    assert_eq!(http_state(Some(404), &None), MonitorState::Critical);
}

#[test]
fn test_http_state_with_allowed_codes() {
    let allowed = Some(vec![404u16, 503u16]);
    assert_eq!(http_state(Some(404), &allowed), MonitorState::Healthy);
    assert_eq!(http_state(Some(503), &allowed), MonitorState::Healthy);
    assert_eq!(http_state(Some(200), &allowed), MonitorState::Critical);
}

#[test]
fn test_http_state_transport_failure_is_critical() {
    assert_eq!(http_state(None, &None), MonitorState::Critical);
    assert_eq!(http_state(None, &Some(vec![404u16])), MonitorState::Critical);
}

#[test]
fn test_http_request_body_decodes_base64() {
    let monitor = http_monitor(Some("aGVsbG8=".to_string()), None);
    assert_eq!(monitor.request_body(), Some(b"hello".to_vec()));
    assert!(monitor.validate().is_ok());

    let empty_body = http_monitor(Some(String::new()), None);
    assert_eq!(empty_body.request_body(), Some(Vec::new()));

    let none_body = http_monitor(None, None);
    assert_eq!(none_body.request_body(), None);

    let invalid = http_monitor(Some("invalid-base64!".to_string()), None);
    assert_eq!(invalid.request_body(), None);
    assert!(invalid.validate().is_err());
}
