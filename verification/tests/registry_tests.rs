use settings_model::registry::find_version_conflict;

#[test]
fn duplicate_version_tags_are_a_conflict() {
    let tags = vec!["v1".to_string(), "v2".to_string(), "v1".to_string()];
    assert_eq!(find_version_conflict(&tags), Some((0, 2)));
}

#[test]
fn distinct_version_tags_are_no_conflict() {
    let tags = vec!["v1".to_string(), "v2".to_string(), "v3".to_string()];
    assert_eq!(find_version_conflict(&tags), None);
}

#[test]
fn empty_and_singleton_registrations_are_no_conflict() {
    assert_eq!(find_version_conflict(&Vec::new()), None);
    assert_eq!(find_version_conflict(&vec!["v1".to_string()]), None);
}

#[test]
fn adjacent_duplicates_are_found() {
    let tags = vec!["v2".to_string(), "v2".to_string()];
    assert_eq!(find_version_conflict(&tags), Some((0, 1)));
}
