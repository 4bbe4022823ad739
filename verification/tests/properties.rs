use smallcheck::{
    Cursor, Property0, Property1, Property12, Property2, Property3, Serial, TestResult, Testable,
};

#[test]
fn a_bool_passes_or_fails_as_it_is() {
    let mut cursor: u8 = Serial::new();
    assert!(!true.result(&mut cursor).is_failure());
    let failed = false.result(&mut cursor);
    assert!(failed.is_failure());
    assert!(!failed.is_error());
    assert!(failed.arguments().is_empty());
    assert_eq!(cursor, 0);
}

#[test]
fn unit_passes() {
    let mut cursor: u8 = 5;
    assert!(!().result(&mut cursor).is_failure());
    assert_eq!(cursor, 5);
}

#[test]
fn a_result_built_beforehand_is_handed_on() {
    let mut cursor: u8 = 3;
    let built = TestResult::error("late".to_string()).with_arguments(vec!["9".to_string()]);
    let handed = built.result(&mut cursor);
    assert!(handed.is_error());
    assert_eq!(handed.diagnostic(), Some(&"late".to_string()));
    assert_eq!(handed.arguments(), &vec!["9".to_string()]);
    assert!(!TestResult::passed().result(&mut cursor).is_failure());
    assert_eq!(cursor, 3);
}

#[test]
fn a_borrowed_value_is_checked_as_the_value() {
    let mut cursor: u8 = 3;
    let small = Property1::new(|x: u8| x < 3);
    let borrowed = (&small).result(&mut cursor);
    let owned = small.result(&mut cursor);
    assert!(borrowed.is_failure());
    assert_eq!(borrowed.arguments(), owned.arguments());
    assert!(!(&true).result(&mut cursor).is_failure());
}

#[test]
fn success_of_a_fallible_computation_is_checked_in_its_own_right() {
    let mut cursor: u8 = 0;
    let holds: Result<bool, String> = Ok(true);
    let fails: Result<bool, String> = Ok(false);
    assert!(!holds.result(&mut cursor).is_failure());
    let failed = fails.result(&mut cursor);
    assert!(failed.is_failure());
    assert!(!failed.is_error());
}

#[test]
fn an_error_of_a_fallible_computation_is_a_runtime_error() {
    let mut cursor: u8 = 0;
    let broken: Result<bool, String> = Err("division by zero".to_string());
    let result = broken.result(&mut cursor);
    assert!(result.is_failure());
    assert!(result.is_error());
    assert_eq!(result.diagnostic(), Some(&"division by zero".to_string()));
    let named: Result<bool, &str> = Err("out of range");
    assert_eq!(named.result(&mut cursor).diagnostic(), Some(&"out of range".to_string()));
    let coded: Result<bool, u32> = Err(404);
    assert_eq!(coded.result(&mut cursor).diagnostic(), Some(&"404".to_string()));
    let nested: Result<Result<bool, u8>, u8> = Ok(Err(7));
    assert_eq!(nested.result(&mut cursor).diagnostic(), Some(&"7".to_string()));
}

#[test]
fn a_function_is_checked_on_the_value_at_the_cursor() {
    let small = Property1::new(|x: u8| x < 3);
    let mut cursor: u8 = 2;
    let passed = small.result(&mut cursor);
    assert!(!passed.is_failure());
    assert_eq!(passed.arguments(), &vec!["2".to_string()]);
    assert!(cursor.advance());
    let failed = small.result(&mut cursor);
    assert!(failed.is_failure());
    assert!(!failed.is_error());
    assert_eq!(failed.arguments(), &vec!["3".to_string()]);
    assert_eq!(cursor, 3);
}

#[test]
fn a_function_of_two_arguments_draws_both_at_the_same_step() {
    let ordered = Property2::new(|a: u8, b: u16| u16::from(a) + b < 10);
    let mut cursor: u64 = 4;
    let passed = ordered.result(&mut cursor);
    assert!(!passed.is_failure());
    assert_eq!(passed.arguments(), &vec!["4".to_string(), "4".to_string()]);
    let mut cursor: u64 = 5;
    let failed = ordered.result(&mut cursor);
    assert!(failed.is_failure());
    assert_eq!(failed.arguments(), &vec!["5".to_string(), "5".to_string()]);
}

#[test]
fn a_function_passes_where_its_arguments_are_exhausted() {
    let never = Property1::new(|_x: u8| false);
    let mut cursor: u64 = 256;
    let result = never.result(&mut cursor);
    assert!(!result.is_failure());
    assert!(result.arguments().is_empty());
    let never = Property2::new(|_a: u64, _b: bool| false);
    let mut cursor: u64 = 2;
    assert!(!never.result(&mut cursor).is_failure());
    let mut cursor: u64 = 1;
    let failed = never.result(&mut cursor);
    assert!(failed.is_failure());
    assert_eq!(failed.arguments(), &vec!["1".to_string(), "true".to_string()]);
}

#[test]
fn a_function_without_arguments_passes_without_being_called() {
    let unreachable = Property0::new(|| -> bool { panic!("must not be called") });
    let mut cursor: u8 = 0;
    let result = unreachable.result(&mut cursor);
    assert!(!result.is_failure());
    assert!(result.arguments().is_empty());
}

#[test]
fn a_function_may_return_a_fallible_result() {
    let halves = Property1::new(|x: u8| -> Result<bool, String> {
        if x == 2 {
            Err("two is odd today".to_string())
        } else {
            Ok(true)
        }
    });
    let mut cursor: u8 = 1;
    assert!(!halves.result(&mut cursor).is_failure());
    let mut cursor: u8 = 2;
    let result = halves.result(&mut cursor);
    assert!(result.is_error());
    assert_eq!(result.diagnostic(), Some(&"two is odd today".to_string()));
    assert_eq!(result.arguments(), &vec!["2".to_string()]);
    assert_eq!(
        result.failed_msg(),
        "[check] TEST FAILED (runtime error). Arguments: (2)\nError: two is odd today"
    );
}

#[test]
fn a_function_may_return_a_result_built_by_hand() {
    let custom = Property1::new(|x: u16| {
        if x > 0 {
            TestResult::failed()
        } else {
            TestResult::passed()
        }
    });
    let mut cursor: u16 = 0;
    assert!(!custom.result(&mut cursor).is_failure());
    let mut cursor: u16 = 1;
    let failed = custom.result(&mut cursor);
    assert!(failed.is_failure());
    assert_eq!(failed.arguments(), &vec!["1".to_string()]);
}

#[test]
fn the_outer_function_records_its_own_arguments() {
    let curried = Property1::new(|a: u8| Property1::new(move |b: u16| u16::from(a) + b < 4));
    let mut cursor: u8 = 2;
    let failed = curried.result(&mut cursor);
    assert!(failed.is_failure());
    assert_eq!(failed.arguments(), &vec!["2".to_string()]);
}

#[test]
fn functions_of_three_and_of_twelve_arguments_are_checked() {
    let three = Property3::new(|a: u8, b: u16, c: bool| a == 0 && b == 0 && !c);
    let mut cursor: u8 = 0;
    assert!(!three.result(&mut cursor).is_failure());
    let mut cursor: u8 = 1;
    let failed = three.result(&mut cursor);
    assert!(failed.is_failure());
    assert_eq!(
        failed.arguments(),
        &vec!["1".to_string(), "1".to_string(), "true".to_string()]
    );
    let twelve = Property12::new(
        |a: u8,
         b: u8,
         c: u16,
         d: u16,
         e: u32,
         f: u32,
         g: u64,
         h: u64,
         i: usize,
         j: usize,
         k: u8,
         l: u8| {
            u64::from(a)
                + u64::from(b)
                + u64::from(c)
                + u64::from(d)
                + u64::from(e)
                + u64::from(f)
                + g
                + h
                + (i as u64)
                + (j as u64)
                + u64::from(k)
                + u64::from(l)
                < 36
        },
    );
    let mut cursor: u8 = 2;
    assert!(!twelve.result(&mut cursor).is_failure());
    let mut cursor: u8 = 3;
    let failed = twelve.result(&mut cursor);
    assert!(failed.is_failure());
    assert_eq!(failed.arguments(), &vec!["3".to_string(); 12]);
}
