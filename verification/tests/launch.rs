use vauchi_gtk::launch::{
    requests_back, seed_decision, shortcut_for_key, switch_on, take_reset_flag, Key, SeedDecision,
};
use vauchi_gtk::presentation::StandardShortcut;

fn args(list: &[&str]) -> Vec<String> {
    list.iter().map(|a| a.to_string()).collect()
}

#[test]
fn reset_flag_is_taken_out_before_the_toolkit_sees_it() {
    let (rest, found) = take_reset_flag(args(&["gvauchi", "--reset-for-testing", "--verbose"]));
    assert!(found);
    assert_eq!(rest, args(&["gvauchi", "--verbose"]));
}

#[test]
fn every_reset_flag_is_taken_out() {
    let (rest, found) =
        take_reset_flag(args(&["--reset-for-testing", "gvauchi", "--reset-for-testing"]));
    assert!(found);
    assert_eq!(rest, args(&["gvauchi"]));
}

#[test]
fn arguments_without_the_flag_pass_unchanged() {
    let (rest, found) = take_reset_flag(args(&["gvauchi", "--reset-for-test", "x"]));
    assert!(!found);
    assert_eq!(rest, args(&["gvauchi", "--reset-for-test", "x"]));
}

#[test]
fn a_switch_is_on_only_for_exactly_one() {
    assert!(switch_on(Some("1")));
    assert!(!switch_on(Some("true")));
    assert!(!switch_on(Some("")));
    assert!(!switch_on(Some(" 1")));
    assert!(!switch_on(None));
}

#[test]
fn test_identity_is_created_only_when_asked_and_missing() {
    assert_eq!(seed_decision(false, false, false), SeedDecision::NotRequested);
    assert_eq!(seed_decision(true, false, false), SeedDecision::Create);
    assert_eq!(seed_decision(false, true, false), SeedDecision::Create);
    assert_eq!(seed_decision(true, true, true), SeedDecision::KeepExisting);
}

#[test]
fn escape_without_alt_requests_back() {
    assert!(requests_back(Key::Escape, false));
    assert!(!requests_back(Key::Escape, true));
    assert!(!requests_back(Key::Z, false));
}

#[test]
fn control_keys_name_the_standard_shortcuts() {
    assert_eq!(shortcut_for_key(Key::Z, true), Some(StandardShortcut::Undo));
    assert_eq!(shortcut_for_key(Key::Return, true), Some(StandardShortcut::ActivatePrimary));
    assert_eq!(shortcut_for_key(Key::KeypadEnter, true), Some(StandardShortcut::ActivatePrimary));
    assert_eq!(shortcut_for_key(Key::Z, false), None);
    assert_eq!(shortcut_for_key(Key::Return, false), None);
    assert_eq!(shortcut_for_key(Key::Escape, true), None);
}
