use kastlewatch::common::{Label, MonitorState, SecretKeySelector};
use kastlewatch::discord_notifier::{
    build_notification, delivery_succeeded, state_color, DiscordNotifier, DiscordNotifierSpec,
};
use kastlewatch::notifiers::{
    fanout_selector, matching_notifiers, secret_value, SecretEntry, SecretError,
};

fn test_notifier(labels: Vec<Label>) -> DiscordNotifier {
    let mut notifier = DiscordNotifier::new(
        "test-notifier",
        DiscordNotifierSpec {
            webhook_secret_ref: SecretKeySelector {
                name: "discord-webhook".to_string(),
                key: "url".to_string(),
            },
            message_format: None,
        },
    );
    notifier.metadata.labels = labels;
    notifier
}

#[test]
fn test_send_discord_notification() {
    let payload = build_notification(
        "test-monitor",
        MonitorState::Healthy,
        MonitorState::Critical,
        "2024-01-01T00:00:00+00:00",
    );
    assert_eq!(payload.title, "Monitor test-monitor is Critical");
    assert_eq!(payload.description, "State changed from Healthy to Critical");
    assert_eq!(payload.color, 0xFF0000);
    assert_eq!(payload.timestamp, "2024-01-01T00:00:00+00:00");
    assert!(delivery_succeeded(204));
    assert!(!delivery_succeeded(404));
    assert!(!delivery_succeeded(500));
}

#[test]
fn test_discord_notification_flow() {
    // A monitor transitioning NoData -> Healthy with a matching notifier
    // selector produces exactly one outbound notification whose description
    // names the transition and whose colour is the Healthy colour code.
    let selector = vec![Label {
        key: "type".to_string(),
        value: "discord".to_string(),
    }];
    let match_labels = Some(selector);
    let wanted = fanout_selector(true, &match_labels);
    let selector = wanted.expect("a transition with a selector must fan out");

    let notifiers = vec![
        test_notifier(vec![Label {
            key: "type".to_string(),
            value: "discord".to_string(),
        }]),
        test_notifier(vec![Label {
            key: "type".to_string(),
            value: "mail".to_string(),
        }]),
    ];
    let matched = matching_notifiers(&notifiers, selector);
    assert_eq!(matched, vec![0]);

    let payloads: Vec<_> = matched
        .iter()
        .map(|_| {
            build_notification(
                "test-monitor-notify",
                MonitorState::NoData,
                MonitorState::Healthy,
                "2024-01-01T00:00:00+00:00",
            )
        })
        .collect();
    assert_eq!(payloads.len(), 1);
    assert!(payloads[0].description.contains("NoData to Healthy"));
    assert_eq!(payloads[0].color, 65280, "colour must be green for Healthy");
}

#[test]
fn test_fanout_skipped_without_transition_or_selector() {
    let match_labels = Some(vec![Label {
        key: "type".to_string(),
        value: "discord".to_string(),
    }]);
    assert!(fanout_selector(false, &match_labels).is_none());
    assert!(fanout_selector(true, &None).is_none());
    assert!(fanout_selector(false, &None).is_none());
}

#[test]
fn test_state_colors() {
    assert_eq!(state_color(MonitorState::Healthy), 0x00FF00);
    assert_eq!(state_color(MonitorState::Warning), 0xFFFF00);
    assert_eq!(state_color(MonitorState::Critical), 0xFF0000);
    assert_eq!(state_color(MonitorState::NoData), 0x808080);
}

#[test]
fn test_secret_value_resolution() {
    let entries = vec![
        SecretEntry {
            key: "token".to_string(),
            value: b"opaque".to_vec(),
        },
        SecretEntry {
            key: "url".to_string(),
            value: b"https://hooks.example.test/T0".to_vec(),
        },
    ];
    let resolved = secret_value(&entries, &"url".to_string());
    assert_eq!(resolved, Ok("https://hooks.example.test/T0".to_string()));

    let missing = secret_value(&entries, &"password".to_string());
    assert_eq!(missing, Err(SecretError::KeyMissing));

    let binary = vec![SecretEntry {
        key: "url".to_string(),
        value: vec![0xff, 0xfe, 0x00],
    }];
    let undecodable = secret_value(&binary, &"url".to_string());
    assert_eq!(undecodable, Err(SecretError::NotUtf8));
}
