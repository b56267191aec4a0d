use simulacrum::{CallCountMismatch, ExpectationStore};

#[test]
fn called_once_and_called_once_passes() {
    let mut store = ExpectationStore::new();
    store.track_method("foo", "foo".to_string()).called_once();
    store.was_called("foo");
    assert_eq!(store.verify(), Ok(()));
}

#[test]
fn called_never_and_never_called_passes() {
    let mut store = ExpectationStore::new();
    store.track_method("bar", "bar".to_string()).called_never();
    assert_eq!(store.verify(), Ok(()));
}

#[test]
fn called_less_often_than_expected_fails() {
    let mut store = ExpectationStore::new();
    store.track_method("goop", "goop".to_string()).called_times(2);
    store.was_called("goop");
    let mismatch = store.verify().unwrap_err();
    assert_eq!(
        mismatch,
        CallCountMismatch { method_name: "goop".to_string(), deviation: 1 }
    );
    assert_eq!(mismatch.message(), "goop was called 1 time fewer than expected");
    assert!(mismatch.message().contains("called 1 time fewer than expected"));
}

#[test]
fn untracked_method_is_not_verified() {
    let mut store = ExpectationStore::new();
    store.was_called("zing");
    store.was_called("zing");
    store.was_called("zing");
    assert!(!store.is_tracked(&"zing"));
    assert_eq!(store.verify(), Ok(()));
}

#[test]
fn called_more_often_than_expected_fails() {
    let mut store = ExpectationStore::new();
    store.track_method("boop", "boop".to_string()).called_times(2);
    store.was_called("boop");
    store.was_called("boop");
    store.was_called("boop");
    let mismatch = store.verify().unwrap_err();
    assert_eq!(
        mismatch,
        CallCountMismatch { method_name: "boop".to_string(), deviation: -1 }
    );
    assert_eq!(mismatch.message(), "boop was called 1 time more than expected");
    assert!(mismatch.message().contains("called 1 time more than expected"));
}

#[test]
fn a_whole_mock_object_passes() {
    let mut store = ExpectationStore::new();
    store.track_method(1u32, "bar".to_string()).called_never();
    store.track_method(0u32, "foo".to_string()).called_once();
    store.track_method(2u32, "goop".to_string()).called_once();
    store.track_method(3u32, "zing".to_string()).called_once();
    store.track_method(4u32, "boop".to_string()).called_times(2);
    store.track_method(5u32, "store".to_string()).called_once();
    store.track_method(6u32, "toggle".to_string()).called_once();
    store.was_called(0);
    store.was_called(2);
    store.was_called(3);
    store.was_called(4);
    store.was_called(4);
    store.was_called(5);
    store.was_called(6);
    assert_eq!(store.verify(), Ok(()));
}
