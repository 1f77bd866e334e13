use kastlewatch::crd::{merge_versions, plan_registration, RegistrationPlan};

fn versions(names: &[&str]) -> Vec<String> {
    names.iter().map(|n| n.to_string()).collect()
}

#[test]
fn test_merge_versions_keeps_both_sides() {
    let declared = versions(&["v1alpha1", "v1beta1"]);
    let existing = versions(&["v1alpha1", "v1"]);
    let merged = merge_versions(&declared, &existing);
    assert_eq!(merged, versions(&["v1alpha1", "v1beta1", "v1"]));
}

#[test]
fn test_merge_versions_is_idempotent() {
    // Merging the same declared schema into the result of the first merge
    // yields the same version set as the first merge.
    let declared = versions(&["v1alpha1", "v1beta1"]);
    let existing = versions(&["v1alpha1", "v1"]);
    let first = merge_versions(&declared, &existing);
    let second = merge_versions(&declared, &first);
    assert_eq!(second, first);
}

#[test]
fn test_merge_versions_empty_sides() {
    let declared = versions(&["v1alpha1"]);
    let none: Vec<String> = Vec::new();
    assert_eq!(merge_versions(&declared, &none), declared);
    assert_eq!(merge_versions(&none, &declared), declared);
    let empty = merge_versions(&none, &none);
    assert!(empty.is_empty());
}

#[test]
fn test_plan_registration_create_or_replace() {
    let declared = versions(&["v1alpha1"]);
    match plan_registration(&declared, &None) {
        RegistrationPlan::Create(vs) => assert_eq!(vs, declared),
        RegistrationPlan::Replace(_) => panic!("a missing registration must be created"),
    }
    let existing = Some(versions(&["v1alpha1", "v1"]));
    match plan_registration(&declared, &existing) {
        RegistrationPlan::Replace(vs) => {
            assert_eq!(vs, versions(&["v1alpha1", "v1"]));
        }
        RegistrationPlan::Create(_) => panic!("an existing registration must be replaced"),
    }
}
