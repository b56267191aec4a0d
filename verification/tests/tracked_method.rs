use simulacrum::{CallCountMismatch, TrackedMethod};

#[test]
fn new_method_has_no_target() {
    let method = TrackedMethod::new("foo".to_string());
    assert_eq!(method.remaining(), None);
    assert_eq!(method.verify(), Ok(()));
}

#[test]
fn a_method_keeps_its_name() {
    let mut method = TrackedMethod::new("Mock::foo".to_string());
    assert_eq!(method.name(), "Mock::foo");
    method.expect_calls(1);
    method.was_called();
    method.was_called();
    assert_eq!(method.name(), "Mock::foo");
    assert_eq!(TrackedMethod::new(String::new()).name(), "");
}

#[test]
fn calls_without_a_target_are_not_counted() {
    let mut method = TrackedMethod::new("foo".to_string());
    method.was_called();
    method.was_called();
    assert_eq!(method.remaining(), None);
    assert_eq!(method.verify(), Ok(()));
}

#[test]
fn each_call_lowers_the_calls_owed_by_one() {
    let mut method = TrackedMethod::new("foo".to_string());
    method.expect_calls(3);
    assert_eq!(method.remaining(), Some(3));
    method.was_called();
    assert_eq!(method.remaining(), Some(2));
    method.was_called();
    assert_eq!(method.remaining(), Some(1));
    method.was_called();
    assert_eq!(method.remaining(), Some(0));
    method.was_called();
    assert_eq!(method.remaining(), Some(-1));
}

#[test]
fn verify_passes_only_when_nothing_is_owed() {
    let mut method = TrackedMethod::new("foo".to_string());
    method.expect_calls(2);
    assert_eq!(
        method.verify(),
        Err(CallCountMismatch { method_name: "foo".to_string(), deviation: 2 })
    );
    method.was_called();
    assert_eq!(
        method.verify(),
        Err(CallCountMismatch { method_name: "foo".to_string(), deviation: 1 })
    );
    method.was_called();
    assert_eq!(method.verify(), Ok(()));
    method.was_called();
    assert_eq!(
        method.verify(),
        Err(CallCountMismatch { method_name: "foo".to_string(), deviation: -1 })
    );
}

#[test]
fn verify_does_not_change_the_method() {
    let mut method = TrackedMethod::new("foo".to_string());
    method.expect_calls(1);
    let first = method.verify();
    let second = method.verify();
    assert_eq!(first, second);
    assert_eq!(method.remaining(), Some(1));
}

#[test]
fn a_target_of_zero_fails_on_the_first_call() {
    let mut method = TrackedMethod::new("never".to_string());
    method.expect_calls(0);
    assert_eq!(method.verify(), Ok(()));
    method.was_called();
    assert_eq!(
        method.verify(),
        Err(CallCountMismatch { method_name: "never".to_string(), deviation: -1 })
    );
}

#[test]
fn a_new_target_replaces_the_calls_owed() {
    let mut method = TrackedMethod::new("foo".to_string());
    method.expect_calls(5);
    method.was_called();
    method.expect_calls(1);
    assert_eq!(method.remaining(), Some(1));
    method.was_called();
    assert_eq!(method.verify(), Ok(()));
}

#[test]
fn a_target_once_set_stays_set() {
    let mut method = TrackedMethod::new("foo".to_string());
    method.expect_calls(1);
    for _ in 0..10 {
        method.was_called();
        assert!(method.remaining().is_some());
    }
    assert_eq!(method.remaining(), Some(-9));
}

#[test]
fn the_counter_reaches_its_lowest_value() {
    let mut method = TrackedMethod::new("deep".to_string());
    method.expect_calls(i64::MIN + 1);
    method.was_called();
    assert_eq!(method.remaining(), Some(i64::MIN));
    assert_eq!(
        method.verify(),
        Err(CallCountMismatch { method_name: "deep".to_string(), deviation: i64::MIN })
    );
}

#[test]
fn a_negative_target_is_never_met_by_calls() {
    let mut method = TrackedMethod::new("odd".to_string());
    method.expect_calls(-2);
    assert_eq!(
        method.verify(),
        Err(CallCountMismatch { method_name: "odd".to_string(), deviation: -2 })
    );
    method.was_called();
    assert_eq!(
        method.verify(),
        Err(CallCountMismatch { method_name: "odd".to_string(), deviation: -3 })
    );
}
