use cashcode::autocomplete::{
    contains_folded, find_suggestion, first_completion, is_valid_input, starts_with,
    suggestion_suffix,
};
use cashcode::config::Config;

fn names() -> Vec<String> {
    vec!["Alice".to_string(), "alfred".to_string(), "Bob".to_string()]
}

#[test]
fn suggestion_ignores_case() {
    assert_eq!(find_suggestion("AL", &names()), "Alice");
    assert_eq!(find_suggestion("alf", &names()), "alfred");
    assert_eq!(find_suggestion("b", &names()), "Bob");
}

#[test]
fn suggestion_needs_a_longer_match() {
    assert_eq!(find_suggestion("bob", &names()), "");
    assert_eq!(find_suggestion("", &names()), "");
    assert_eq!(find_suggestion("z", &names()), "");
}

#[test]
fn first_completion_on_folded_texts() {
    let lowered = vec!["bob".to_string(), "bobby".to_string(), "bobbie".to_string()];
    assert_eq!(first_completion("bob", &lowered), Some(1));
    assert_eq!(first_completion("bobbi", &lowered), Some(2));
    assert_eq!(first_completion("x", &lowered), None);
    assert!(starts_with("bobby", "bob"));
    assert!(!starts_with("bo", "bob"));
}

#[test]
fn suffix_after_typed_text() {
    assert_eq!(suggestion_suffix("al", "Alice"), "ice");
    assert_eq!(suggestion_suffix("Алі", "Аліса"), "са");
    assert_eq!(suggestion_suffix("", "Alice"), "");
    assert_eq!(suggestion_suffix("al", ""), "");
    assert_eq!(suggestion_suffix("alice", "Alice"), "");
}

#[test]
fn valid_input_matches_a_suggestion() {
    assert!(is_valid_input("ALICE", &names()));
    assert!(is_valid_input("bob", &names()));
    assert!(!is_valid_input("ali", &names()));
    assert!(!is_valid_input("", &names()));
    assert!(contains_folded("bob", &vec!["alice".to_string(), "bob".to_string()]));
    assert!(!contains_folded("Bob", &vec!["bob".to_string()]));
}

#[test]
fn default_config() {
    let c = Config::default();
    assert_eq!(c.token, None);
    assert_eq!(c.home_assistant_url, "http://localhost:8123");
    assert_eq!(
        c.cashcode_serial_port,
        "/dev/serial/by-id/usb-Prolific_Technology_Inc._USB-Serial_Controller_D-if00-port0"
    );
    assert_eq!(c.stats_db_path, "data/Stats.db");
}
