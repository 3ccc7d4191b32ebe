use holo_auto_installer::instance::{
    classify_instance, is_anonymous_instance, is_hosted_happ, is_instance_of_happ, InstanceKind,
};
use holo_auto_installer::text::{contains, ends_with, starts_with};

fn anonymous_id(tag: char) -> String {
    let mut s = "uhCkk".to_string();
    while s.len() < 53 {
        s.push(tag);
    }
    s
}

#[test]
fn hosted_happ_needs_prefix_and_no_servicelogger() {
    assert!(is_hosted_happ("uhCkkabc"));
    assert!(is_hosted_happ("uhCkkabc::agent"));
    assert!(!is_hosted_happ("uhCkkabc::servicelogger"));
    assert!(!is_hosted_happ("servicelogger:0_2_1::251e7cc8"));
    assert!(!is_hosted_happ("core-app:0_1"));
}

#[test]
fn anonymous_instance_has_fixed_length() {
    assert!(is_anonymous_instance(&anonymous_id('a')));
    assert!(!is_anonymous_instance("uhCkkshort"));
    let mut long = anonymous_id('a');
    long.push('b');
    assert!(!is_anonymous_instance(&long));
    let mut other = "xhCkk".to_string();
    other.push_str(&anonymous_id('a')[5..]);
    assert!(!is_anonymous_instance(&other));
}

#[test]
fn instance_of_happ_matches_anonymous_and_identified() {
    let happ = "uhCkkXYZ";
    assert!(is_instance_of_happ(happ, "uhCkkXYZ"));
    assert!(is_instance_of_happ(happ, "uhCkkXYZ::uhCAkagent"));
    assert!(!is_instance_of_happ(happ, "uhCkkXYZ::servicelogger"));
    assert!(!is_instance_of_happ(happ, "uhCkkXYZW"));
    assert!(!is_instance_of_happ(happ, "uhCkkXY"));
    assert!(!is_instance_of_happ(happ, "core-app"));
}

#[test]
fn classification_names_each_kind() {
    assert_eq!(classify_instance("core-app:0_1"), InstanceKind::Infrastructure);
    assert_eq!(classify_instance("uhCkkXYZ::servicelogger"), InstanceKind::ServiceLogCompanion);
    assert_eq!(classify_instance(&anonymous_id('q')), InstanceKind::AnonymousInstance);
    assert_eq!(classify_instance("uhCkkXYZ::uhCAkagent"), InstanceKind::IdentifiedInstance);
    assert_eq!(classify_instance(""), InstanceKind::Infrastructure);
}

#[test]
fn text_predicates() {
    assert!(starts_with("abc", "ab"));
    assert!(!starts_with("ab", "abc"));
    assert!(ends_with("abc", "bc"));
    assert!(!ends_with("abc", "ab"));
    assert!(contains("abcd", "bc"));
    assert!(contains("abcd", ""));
    assert!(!contains("abcd", "ca"));
}
