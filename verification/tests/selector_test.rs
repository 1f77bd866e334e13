use kastlewatch::common::Label;
use kastlewatch::selector::{format_label_selector, selector_matches};

fn labels(pairs: &[(&str, &str)]) -> Vec<Label> {
    pairs
        .iter()
        .map(|(k, v)| Label {
            key: k.to_string(),
            value: v.to_string(),
        })
        .collect()
}

#[test]
fn test_selector_matching_is_superset_match() {
    let selector = labels(&[("a", "1"), ("b", "2")]);
    let superset = labels(&[("a", "1"), ("b", "2"), ("c", "3")]);
    let subset = labels(&[("a", "1")]);
    assert!(selector_matches(&selector, &superset));
    assert!(!selector_matches(&selector, &subset));
}

#[test]
fn test_selector_matching_is_exact_on_values() {
    let selector = labels(&[("a", "1")]);
    let other_value = labels(&[("a", "2")]);
    let empty: Vec<Label> = Vec::new();
    assert!(!selector_matches(&selector, &other_value));
    assert!(!selector_matches(&selector, &empty));
    assert!(selector_matches(&empty, &other_value));
}

#[test]
fn test_format_label_selector_joins_pairs() {
    let selector = labels(&[("type", "discord"), ("team", "sre")]);
    assert_eq!(format_label_selector(&selector), "type=discord,team=sre");
    let single = labels(&[("type", "discord")]);
    assert_eq!(format_label_selector(&single), "type=discord");
    let empty: Vec<Label> = Vec::new();
    assert_eq!(format_label_selector(&empty), "");
}
