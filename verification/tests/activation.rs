//! The activation reader's decision logic on concrete signal values.

use sockact::activation::acquire_activation;
use sockact::activation::activation_fd_numbers;
use sockact::activation::authorized;
use sockact::activation::parse_count;
use sockact::activation::parse_pid;
use sockact::activation::COUNT_LIMIT;

fn signal(v: &str) -> Option<String> {
    Some(v.to_string())
}

#[test]
fn claims_two_descriptors_numbered_from_three() {
    let got = acquire_activation(&signal("2"), &signal("4321"), 4321);
    assert_eq!(got, Some(vec![3, 4]));
}

#[test]
fn absent_signals_claim_nothing() {
    // What a second acquisition observes after the signals were erased.
    assert_eq!(acquire_activation(&None, &None, 4321), None);
}

#[test]
fn foreign_target_refused() {
    assert_eq!(acquire_activation(&signal("3"), &signal("77"), 4321), None);
}

#[test]
fn absent_count_claims_nothing_whatever_the_target_says() {
    assert_eq!(acquire_activation(&None, &signal("4321"), 4321), None);
}

#[test]
fn absent_target_is_authorized() {
    assert_eq!(acquire_activation(&signal("1"), &None, 7), Some(vec![3]));
}

#[test]
fn empty_target_is_authorized() {
    assert_eq!(acquire_activation(&signal("1"), &signal(""), 7), Some(vec![3]));
}

#[test]
fn zero_count_claims_an_empty_handoff() {
    assert_eq!(acquire_activation(&signal("0"), &None, 7), Some(vec![]));
}

#[test]
fn unparsable_target_refused() {
    assert_eq!(acquire_activation(&signal("2"), &signal("not a pid"), 7), None);
}

#[test]
fn count_parses_plain_digits() {
    assert_eq!(parse_count("2"), Some(2));
    assert_eq!(parse_count("007"), Some(7));
    assert_eq!(parse_count("+7"), Some(7));
    assert_eq!(parse_count("0"), Some(0));
}

#[test]
fn count_rejects_anything_but_a_nonnegative_integer() {
    assert_eq!(parse_count(""), None);
    assert_eq!(parse_count("+"), None);
    assert_eq!(parse_count("-1"), None);
    assert_eq!(parse_count(" 2"), None);
    assert_eq!(parse_count("2 "), None);
    assert_eq!(parse_count("abc"), None);
    assert_eq!(parse_count("2x"), None);
    // Only ASCII digits count as digits.
    assert_eq!(parse_count("\u{0662}"), None);
}

#[test]
fn count_rejects_values_whose_descriptors_cannot_exist() {
    assert_eq!(parse_count("2147483645"), Some(COUNT_LIMIT));
    assert_eq!(parse_count("2147483646"), None);
    assert_eq!(parse_count("99999999999999999999"), None);
}

#[test]
fn pid_parses_signed_nonzero_integers() {
    assert_eq!(parse_pid("4321"), Some(4321));
    assert_eq!(parse_pid("+55"), Some(55));
    assert_eq!(parse_pid("-41"), Some(-41));
    assert_eq!(parse_pid("2147483647"), Some(2147483647));
    assert_eq!(parse_pid("-2147483648"), Some(i32::MIN));
}

#[test]
fn pid_rejects_zero_and_malformed_values() {
    assert_eq!(parse_pid(""), None);
    assert_eq!(parse_pid("0"), None);
    assert_eq!(parse_pid("+0"), None);
    assert_eq!(parse_pid("-000"), None);
    assert_eq!(parse_pid("2147483648"), None);
    assert_eq!(parse_pid("-2147483649"), None);
    assert_eq!(parse_pid("12a"), None);
    assert_eq!(parse_pid("--5"), None);
}

#[test]
fn authorization_policy_on_concrete_values() {
    assert!(authorized(&None, 7));
    assert!(authorized(&signal(""), 7));
    assert!(authorized(&signal("7"), 7));
    assert!(authorized(&signal("+7"), 7));
    assert!(!authorized(&signal("8"), 7));
    assert!(!authorized(&signal("0"), 7));
    assert!(!authorized(&signal("seven"), 7));
}

#[test]
fn fd_numbers_are_contiguous_from_three() {
    assert_eq!(activation_fd_numbers(0), Vec::<i32>::new());
    assert_eq!(activation_fd_numbers(5), vec![3, 4, 5, 6, 7]);
}
