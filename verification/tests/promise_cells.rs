use proxy::promise::{LazyPromise, Promise, UsageError};

#[test]
fn promise_reads_same_value() {
    let mut p: Promise<String> = Promise::new();
    assert!(p.get().is_none());
    p.fulfill(String::from("hello"));
    assert_eq!(p.get().unwrap(), "hello");
    assert_eq!(p.get().unwrap(), "hello");
}

#[test]
fn promise_holds_absent_image_result() {
    let mut p: Promise<Option<u32>> = Promise::new();
    p.fulfill(None);
    assert_eq!(*p.get().unwrap(), None);
}

#[test]
fn lazy_computation_runs_at_most_once() {
    let mut p: LazyPromise<String> = LazyPromise::new();
    assert!(p.get().is_none());

    assert!(p.begin().is_ok());
    assert!(matches!(p.begin(), Err(UsageError::AlreadyRunning)));

    p.complete(String::from("hello"));
    assert_eq!(p.get().unwrap(), "hello");
    assert_eq!(p.get().unwrap(), "hello");

    assert!(matches!(p.begin(), Err(UsageError::AlreadyDone)));
    assert_eq!(p.get().unwrap(), "hello");
}

#[test]
fn lazy_in_progress_window() {
    let mut p: LazyPromise<u32> = LazyPromise::new();
    assert!(!p.in_progress());
    p.begin().unwrap();
    assert!(p.in_progress());
    assert!(p.get().is_none());
    p.complete(9);
    assert!(!p.in_progress());
    assert_eq!(*p.get().unwrap(), 9);
}
