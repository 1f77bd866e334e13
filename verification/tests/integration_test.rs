use kastlewatch::common::{Action, MonitorConfigSpec, MonitorState};
use kastlewatch::controller::reconcile;
use kastlewatch::tcp_monitor::{tcp_state, TCPMonitor, TCPMonitorSpec};
use kastlewatch::worker::process_check;

#[test]
fn test_end_to_end_controller_worker_flow() {
    // A TCP monitor against a reachable port: the dispatcher validates and
    // schedules it, the worker maps the open port to Healthy and persists
    // a full status; the instance starts without one.
    let monitor = TCPMonitor::new(
        "test-monitor",
        TCPMonitorSpec {
            host: "google.com".to_string(),
            port: 80,
            monitor_config: MonitorConfigSpec {
                timeout: 20,
                retries: 3,
                polling_frequency: 5,
                notifiers_match_labels: None,
            },
        },
    );
    assert!(monitor.status.is_none(), "Initial status should be None");

    let dispatch = reconcile(&monitor, "http://127.0.0.1:3000").unwrap();
    assert_eq!(dispatch.action, Action::requeue(5));
    assert_eq!(dispatch.worker_url, "http://127.0.0.1:3000/v1alpha1/tcpmonitor");

    let state = tcp_state(true);
    assert_eq!(state, MonitorState::Healthy);
    let out = process_check(&monitor, Ok(state), "2024-01-01T00:00:00+00:00".to_string());
    assert_eq!(out.status.state, MonitorState::Healthy);
    assert!(out.status.last_checked.is_some());
    assert!(out.transitioned);
}

#[test]
fn test_tcp_closed_port_reconcile_and_status() {
    // A TCP monitor targeting a closed port with a poll interval of 10
    // reconciles to requeue(10) and its status ends up Critical.
    let monitor = TCPMonitor::new(
        "test-monitor",
        TCPMonitorSpec {
            host: "localhost".to_string(),
            port: 1,
            monitor_config: MonitorConfigSpec {
                timeout: 5,
                retries: 3,
                polling_frequency: 10,
                notifiers_match_labels: None,
            },
        },
    );
    let dispatch = reconcile(&monitor, "http://127.0.0.1:3000").unwrap();
    assert_eq!(dispatch.action, Action::requeue(10));

    let state = tcp_state(false);
    assert_eq!(state, MonitorState::Critical);
    let out = process_check(&monitor, Ok(state), "2024-01-01T00:00:00+00:00".to_string());
    assert_eq!(out.status.state, MonitorState::Critical);
}
