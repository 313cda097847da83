use blocking_future::cell::{CompletionCell, Outcome};
use blocking_future::driver::{Driver, Step};

fn done<T>(o: Outcome<T>) -> Option<T> {
    match o {
        Outcome::Done(v) => Some(v),
        Outcome::NotReady => None,
    }
}

#[test]
fn completed_bridge_yields_closure_value() {
    let mut cell: CompletionCell<i32, u8> = CompletionCell::new();
    assert!(cell.is_pending());
    assert_eq!(cell.complete(42), None);
    assert!(!cell.is_pending());
    assert_eq!(done(cell.attempt_progress(0)), Some(42));
    assert!(cell.is_delivered());
}

#[test]
fn three_bridges_awaited_in_order() {
    let mut cells: Vec<CompletionCell<String, u8>> =
        vec![CompletionCell::new(), CompletionCell::new(), CompletionCell::new()];
    // the workers finish in reverse order of starting
    assert_eq!(cells[2].complete(String::from("ghi")), None);
    assert_eq!(cells[1].complete(String::from("def")), None);
    assert_eq!(cells[0].complete(String::from("abc")), None);
    let mut results = Vec::new();
    for cell in cells.iter_mut() {
        results.push(done(cell.attempt_progress(0)).unwrap());
    }
    assert_eq!(results, vec!["abc", "def", "ghi"]);
}

#[test]
fn attempt_before_value_is_not_ready() {
    let mut cell: CompletionCell<i32, u8> = CompletionCell::new();
    assert!(done(cell.attempt_progress(7)).is_none());
    // the worker finds the notifier left by the attempt
    assert_eq!(cell.complete(1), Some(7));
    assert_eq!(done(cell.attempt_progress(8)), Some(1));
}

#[test]
fn unfinished_worker_never_yields_a_value() {
    let mut cell: CompletionCell<i32, u8> = CompletionCell::new();
    for n in 0..10u8 {
        assert!(done(cell.attempt_progress(n)).is_none());
    }
    assert!(cell.is_pending());
}

#[test]
fn only_latest_notifier_is_woken() {
    let mut cell: CompletionCell<&str, u8> = CompletionCell::new();
    assert!(done(cell.attempt_progress(1)).is_none());
    assert!(done(cell.attempt_progress(2)).is_none());
    assert!(done(cell.attempt_progress(3)).is_none());
    assert_eq!(cell.complete("v"), Some(3));
    assert_eq!(done(cell.attempt_progress(4)), Some("v"));
}

#[test]
fn driver_parks_until_done() {
    let mut driver = Driver::new();
    assert!(driver.can_attempt());
    assert!(!driver.can_wake());
    assert!(matches!(driver.on_outcome(Outcome::<i32>::NotReady), Step::Park));
    assert!(!driver.can_attempt());
    assert!(driver.can_wake());
    driver.on_wake();
    assert!(driver.can_attempt());
    match driver.on_outcome(Outcome::Done(42)) {
        Step::Finish(v) => assert_eq!(v, 42),
        Step::Park => panic!("expected the value"),
    }
    assert!(!driver.can_attempt());
    assert!(!driver.can_wake());
}

#[test]
fn spurious_wakes_cost_one_attempt_each() {
    let mut cell: CompletionCell<u32, u8> = CompletionCell::new();
    let mut driver = Driver::new();
    let mut attempts = 0;
    let mut result = None;
    while result.is_none() {
        assert!(driver.can_attempt());
        attempts += 1;
        if attempts == 4 {
            assert_eq!(cell.complete(9), Some(0));
        }
        match driver.on_outcome(cell.attempt_progress(0)) {
            Step::Finish(v) => result = Some(v),
            Step::Park => driver.on_wake(),
        }
    }
    assert_eq!(result, Some(9));
    assert_eq!(attempts, 4);
}
