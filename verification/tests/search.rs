use smallcheck::{Property0, Property1, Property2, SmallCheck, TestResult};

#[test]
fn the_default_depth_is_one_hundred() {
    let check: SmallCheck<u8> = SmallCheck::new();
    assert_eq!(check.bound(), 100);
    assert_eq!(check.invocations(), 0);
}

#[test]
fn the_depth_can_be_overridden() {
    let check: SmallCheck<u8> = SmallCheck::new().depth(7);
    assert_eq!(check.bound(), 7);
    let check = check.depth(0);
    assert_eq!(check.bound(), 0);
}

#[test]
fn the_first_failing_value_is_reported() {
    let mut check: SmallCheck<u8> = SmallCheck::new();
    let verdict = check.test(Property1::new(|x: u8| x < 3));
    let counterexample = verdict.expect_err("the property fails from 3 on");
    assert!(counterexample.is_failure());
    assert!(!counterexample.is_error());
    assert_eq!(counterexample.arguments(), &vec!["3".to_string()]);
    assert_eq!(counterexample.failed_msg(), "[check] TEST FAILED. Arguments: (3)");
    assert_eq!(check.invocations(), 4);
}

#[test]
fn the_first_failing_value_does_not_depend_on_the_unsigned_type() {
    let mut check: SmallCheck<u64> = SmallCheck::new();
    let counterexample = check.test(Property1::new(|x: u64| x < 3)).unwrap_err();
    assert_eq!(counterexample.arguments(), &vec!["3".to_string()]);
    assert_eq!(check.invocations(), 4);
    let mut check: SmallCheck<usize> = SmallCheck::new();
    let counterexample = check.test(Property1::new(|x: usize| x < 3)).unwrap_err();
    assert_eq!(counterexample.arguments(), &vec!["3".to_string()]);
    assert_eq!(check.invocations(), 4);
}

#[test]
fn a_passing_property_is_checked_up_to_the_depth_bound() {
    let mut check: SmallCheck<u64> = SmallCheck::new();
    let verdict = check.test(Property1::new(|x: u64| x <= 100));
    assert_eq!(verdict.ok(), Some(101));
    assert_eq!(check.invocations(), 101);
    let mut check: SmallCheck<u64> = SmallCheck::new().depth(9);
    let verdict = check.test(Property1::new(|x: u64| x < 10));
    assert_eq!(verdict.ok(), Some(10));
    let mut check: SmallCheck<u64> = SmallCheck::new().depth(0);
    let verdict = check.test(Property1::new(|x: u64| x == 0));
    assert_eq!(verdict.ok(), Some(1));
}

#[test]
fn a_failure_beyond_the_depth_bound_is_not_found() {
    let mut check: SmallCheck<u16> = SmallCheck::new().depth(10);
    assert_eq!(check.test(Property1::new(|x: u16| x <= 10)).ok(), Some(11));
    let mut check: SmallCheck<u16> = SmallCheck::new().depth(11);
    let counterexample = check.test(Property1::new(|x: u16| x <= 10)).unwrap_err();
    assert_eq!(counterexample.arguments(), &vec!["11".to_string()]);
    assert_eq!(check.invocations(), 12);
}

#[test]
fn a_small_type_is_exhausted_before_the_depth_bound() {
    let mut check: SmallCheck<bool> = SmallCheck::new();
    let verdict = check.test(Property1::new(|_b: bool| true));
    assert_eq!(verdict.ok(), Some(2));
    assert_eq!(check.invocations(), 2);
}

#[test]
fn all_of_u8_is_checked_when_the_depth_allows() {
    let mut check: SmallCheck<u8> = SmallCheck::new().depth(255);
    assert_eq!(check.test(Property1::new(|_x: u8| true)).ok(), Some(256));
    let mut check: SmallCheck<u8> = SmallCheck::new().depth(1_000);
    assert_eq!(check.test(Property1::new(|_x: u8| true)).ok(), Some(256));
    let mut check: SmallCheck<u8> = SmallCheck::new().depth(254);
    assert_eq!(check.test(Property1::new(|_x: u8| true)).ok(), Some(255));
    let mut check: SmallCheck<u8> = SmallCheck::new().depth(255);
    let counterexample = check.test(Property1::new(|x: u8| x < 255)).unwrap_err();
    assert_eq!(counterexample.arguments(), &vec!["255".to_string()]);
    assert_eq!(check.invocations(), 256);
}

#[test]
fn a_pair_is_searched_until_its_shorter_component_ends() {
    let mut check: SmallCheck<(u16, u8)> = SmallCheck::new().depth(1_000);
    let verdict = check.test(Property2::new(|a: u16, b: u8| a == u16::from(b)));
    assert_eq!(verdict.ok(), Some(256));
    let mut check: SmallCheck<(bool, u8)> = SmallCheck::new();
    let verdict = check.test(Property2::new(|_a: bool, _b: u8| true));
    assert_eq!(verdict.ok(), Some(2));
}

#[test]
fn the_first_failing_pair_is_reported() {
    let mut check: SmallCheck<(u8, u8)> = SmallCheck::new();
    let counterexample = check.test(Property2::new(|a: u8, b: u8| a + b < 10)).unwrap_err();
    assert_eq!(counterexample.arguments(), &vec!["5".to_string(), "5".to_string()]);
    assert_eq!(counterexample.failed_msg(), "[check] TEST FAILED. Arguments: (5, 5)");
    assert_eq!(check.invocations(), 6);
}

#[test]
fn an_error_is_reported_at_the_first_invocation() {
    let mut check: SmallCheck<u8> = SmallCheck::new();
    let faulty = Property1::new(|_x: u8| -> Result<bool, String> { Err("broken".to_string()) });
    let counterexample = check.test(faulty).unwrap_err();
    assert!(counterexample.is_error());
    assert_eq!(counterexample.diagnostic(), Some(&"broken".to_string()));
    assert_eq!(counterexample.arguments(), &vec!["0".to_string()]);
    assert_eq!(
        counterexample.failed_msg(),
        "[check] TEST FAILED (runtime error). Arguments: (0)\nError: broken"
    );
    assert_eq!(check.invocations(), 1);
}

#[test]
fn searching_twice_gives_the_same_verdict() {
    let mut check: SmallCheck<u32> = SmallCheck::new().depth(50);
    let property = Property1::new(|x: u32| x * x < 400);
    let first = check.test(&property).unwrap_err();
    let first_invocations = check.invocations();
    let second = check.test(&property).unwrap_err();
    assert_eq!(first.is_failure(), second.is_failure());
    assert_eq!(first.is_error(), second.is_error());
    assert_eq!(first.arguments(), second.arguments());
    assert_eq!(first.diagnostic(), second.diagnostic());
    assert_eq!(first.arguments(), &vec!["20".to_string()]);
    assert_eq!(first_invocations, 21);
    assert_eq!(check.invocations(), 21);
    assert_eq!(first.failed_msg(), second.failed_msg());
    let holds = Property1::new(|x: u32| x < 51);
    let passing = check.test(&holds).ok();
    assert_eq!(passing, Some(51));
    assert_eq!(check.test(&holds).ok(), passing);
    assert_eq!(check.test(holds).ok(), passing);
}

#[test]
fn a_search_starts_afresh_after_a_failure() {
    let mut check: SmallCheck<u8> = SmallCheck::new();
    assert!(check.test(Property1::new(|x: u8| x < 3)).is_err());
    assert_eq!(check.invocations(), 4);
    assert_eq!(check.test(Property1::new(|x: u8| x <= 100)).ok(), Some(101));
    assert_eq!(check.invocations(), 101);
}

#[test]
fn a_plain_bool_is_checked_at_every_step() {
    let mut check: SmallCheck<u8> = SmallCheck::new().depth(4);
    assert_eq!(check.test(true).ok(), Some(5));
    let counterexample = check.test(false).unwrap_err();
    assert!(counterexample.is_failure());
    assert!(counterexample.arguments().is_empty());
    assert_eq!(counterexample.failed_msg(), "[check] TEST FAILED. Arguments: ()");
    assert_eq!(check.invocations(), 1);
}

#[test]
fn a_result_built_beforehand_decides_the_search() {
    let mut check: SmallCheck<u8> = SmallCheck::new().depth(2);
    assert_eq!(check.test(TestResult::passed()).ok(), Some(3));
    let counterexample = check.test(TestResult::error("given".to_string())).unwrap_err();
    assert_eq!(counterexample.diagnostic(), Some(&"given".to_string()));
}

#[test]
fn a_unit_cursor_has_nothing_to_search() {
    let mut check: SmallCheck<()> = SmallCheck::new();
    assert_eq!(check.test(Property0::new(|| false)).ok(), Some(0));
    assert_eq!(check.test(false).ok(), Some(0));
    assert_eq!(check.invocations(), 0);
}

#[test]
fn a_property_without_arguments_passes_at_every_step() {
    let mut check: SmallCheck<u8> = SmallCheck::new().depth(3);
    assert_eq!(check.test(Property0::new(|| false)).ok(), Some(4));
}

#[test]
fn steps_past_the_end_of_the_arguments_pass() {
    let mut check: SmallCheck<u64> = SmallCheck::new().depth(300);
    let verdict = check.test(Property1::new(|x: u8| u16::from(x) < 256));
    assert_eq!(verdict.ok(), Some(301));
}
