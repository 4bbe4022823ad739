use smallcheck::outcome::{fault_message, join_text};
use smallcheck::render::decimal_text;
use smallcheck::{Render, TestResult};

#[test]
fn a_passed_result_is_no_failure() {
    let result = TestResult::passed();
    assert!(!result.is_failure());
    assert!(!result.is_error());
    assert!(result.arguments().is_empty());
    assert_eq!(result.diagnostic(), None);
}

#[test]
fn a_failed_result_is_a_failure_without_diagnostic() {
    let result = TestResult::failed();
    assert!(result.is_failure());
    assert!(!result.is_error());
    assert!(result.arguments().is_empty());
    assert_eq!(result.diagnostic(), None);
}

#[test]
fn from_bool_follows_the_bool() {
    assert!(!TestResult::from_bool(true).is_failure());
    assert!(TestResult::from_bool(false).is_failure());
    assert!(!TestResult::from_bool(false).is_error());
}

#[test]
fn an_error_is_a_failure_with_its_diagnostic() {
    let result = TestResult::error("boom".to_string());
    assert!(result.is_failure());
    assert!(result.is_error());
    assert!(result.arguments().is_empty());
    assert_eq!(result.diagnostic(), Some(&"boom".to_string()));
}

#[test]
fn arguments_are_recorded_in_place_of_earlier_ones() {
    let result = TestResult::failed().with_arguments(vec!["1".to_string()]);
    assert_eq!(result.arguments(), &vec!["1".to_string()]);
    let result = result.with_arguments(vec!["2".to_string(), "3".to_string()]);
    assert_eq!(result.arguments(), &vec!["2".to_string(), "3".to_string()]);
    assert!(result.is_failure());
    let result = TestResult::error("bad".to_string()).with_arguments(vec!["7".to_string()]);
    assert_eq!(result.diagnostic(), Some(&"bad".to_string()));
    assert_eq!(result.arguments(), &vec!["7".to_string()]);
}

#[test]
fn a_clone_holds_the_same_result() {
    let result = TestResult::error("bad".to_string())
        .with_arguments(vec!["7".to_string(), "8".to_string()]);
    let copy = result.clone();
    assert_eq!(copy.is_failure(), result.is_failure());
    assert_eq!(copy.arguments(), result.arguments());
    assert_eq!(copy.diagnostic(), result.diagnostic());
    assert_eq!(copy.failed_msg(), result.failed_msg());
}

#[test]
fn failure_report_lists_the_arguments() {
    let result = TestResult::failed().with_arguments(vec!["3".to_string()]);
    assert_eq!(result.failed_msg(), "[check] TEST FAILED. Arguments: (3)");
    let result = TestResult::failed().with_arguments(vec!["1".to_string(), "20".to_string()]);
    assert_eq!(result.failed_msg(), "[check] TEST FAILED. Arguments: (1, 20)");
    let result = TestResult::failed();
    assert_eq!(result.failed_msg(), "[check] TEST FAILED. Arguments: ()");
}

#[test]
fn error_report_adds_the_diagnostic() {
    let result = TestResult::error("boom".to_string()).with_arguments(vec!["3".to_string()]);
    assert_eq!(
        result.failed_msg(),
        "[check] TEST FAILED (runtime error). Arguments: (3)\nError: boom"
    );
    let result = TestResult::error("out of range".to_string())
        .with_arguments(vec!["1".to_string(), "2".to_string(), "3".to_string()]);
    assert_eq!(
        result.failed_msg(),
        "[check] TEST FAILED (runtime error). Arguments: (1, 2, 3)\nError: out of range"
    );
    let result = TestResult::error(String::new());
    assert_eq!(
        result.failed_msg(),
        "[check] TEST FAILED (runtime error). Arguments: ()\nError: "
    );
}

#[test]
fn join_text_puts_the_separator_between_parts() {
    assert_eq!(join_text(&vec![], ", "), "");
    assert_eq!(join_text(&vec!["a".to_string()], ", "), "a");
    assert_eq!(join_text(&vec!["a".to_string(), "b".to_string()], ", "), "a, b");
    assert_eq!(
        join_text(&vec!["a".to_string(), String::new(), "c".to_string()], "-"),
        "a--c"
    );
    assert_eq!(join_text(&vec!["x".to_string(), "y".to_string()], ""), "xy");
}

#[test]
fn fault_message_keeps_a_text_payload() {
    assert_eq!(fault_message(Some("assertion failed".to_string())), "assertion failed");
    assert_eq!(fault_message(Some(String::new())), "");
}

#[test]
fn fault_message_names_an_unknown_cause() {
    assert_eq!(fault_message(None), "UNABLE TO SHOW RESULT OF PANIC.");
}

#[test]
fn decimal_text_writes_numerals() {
    assert_eq!(decimal_text(0), "0");
    assert_eq!(decimal_text(7), "7");
    assert_eq!(decimal_text(9), "9");
    assert_eq!(decimal_text(10), "10");
    assert_eq!(decimal_text(255), "255");
    assert_eq!(decimal_text(1_000), "1000");
    assert_eq!(decimal_text(1_234_567_890), "1234567890");
    assert_eq!(decimal_text(u64::MAX), "18446744073709551615");
}

#[test]
fn values_render_as_expected() {
    assert_eq!(0u8.render(), "0");
    assert_eq!(255u8.render(), "255");
    assert_eq!(65_535u16.render(), "65535");
    assert_eq!(4_294_967_295u32.render(), "4294967295");
    assert_eq!(u64::MAX.render(), "18446744073709551615");
    assert_eq!(42usize.render(), "42");
    assert_eq!(true.render(), "true");
    assert_eq!(false.render(), "false");
    assert_eq!("as it is".to_string().render(), "as it is");
    assert_eq!("a slice".render(), "a slice");
}
