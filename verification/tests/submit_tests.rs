use dsa_rust::submit::{bounded_retry_outcome, may_retry, submit_outcome, SubmitMode, SubmitResult};

#[test]
fn test_submit_result() {
    assert_eq!(SubmitResult::Success, SubmitResult::Success);
    assert_ne!(SubmitResult::Success, SubmitResult::QueueFull);
}

#[test]
fn test_submit_mode() {
    assert_eq!(SubmitMode::Dedicated, SubmitMode::Dedicated);
    assert_ne!(SubmitMode::Dedicated, SubmitMode::Shared);
}

#[test]
fn test_submit_outcome() {
    // A posted transfer cannot signal rejection.
    assert_eq!(submit_outcome(SubmitMode::Dedicated, true), SubmitResult::Success);
    assert_eq!(submit_outcome(SubmitMode::Dedicated, false), SubmitResult::Success);
    // A non-posted transfer succeeds exactly when accepted.
    assert_eq!(submit_outcome(SubmitMode::Shared, true), SubmitResult::Success);
    assert_eq!(submit_outcome(SubmitMode::Shared, false), SubmitResult::QueueFull);
}

#[test]
fn test_may_retry() {
    assert!(may_retry(0, 1));
    assert!(may_retry(999, 1000));
    assert!(!may_retry(1000, 1000));
    assert!(!may_retry(0, 0));
}

#[test]
fn test_retry_exhaustion_yields_queue_full() {
    // A queue that stays full longer than the retry budget: the
    // submission gives up with queue-full.
    let always_full = [false; 10];
    assert_eq!(bounded_retry_outcome(&always_full, 3), SubmitResult::QueueFull);
    assert_eq!(bounded_retry_outcome(&always_full, 10), SubmitResult::QueueFull);

    // The device would accept on the sixth attempt, but the budget
    // allows only three.
    let accepts_late = [false, false, false, false, false, true, true, true, true, true];
    assert_eq!(bounded_retry_outcome(&accepts_late, 3), SubmitResult::QueueFull);
}

#[test]
fn test_sufficient_retry_budget_succeeds() {
    // Under a sufficiently large budget the same sequence of answers
    // eventually goes through.
    let accepts_late = [false, false, false, false, false, true, true, true, true, true];
    assert_eq!(bounded_retry_outcome(&accepts_late, 6), SubmitResult::Success);
    assert_eq!(bounded_retry_outcome(&accepts_late, 1000), SubmitResult::Success);

    let immediate = [true];
    assert_eq!(bounded_retry_outcome(&immediate, 1), SubmitResult::Success);
}

#[test]
fn test_zero_retry_budget_never_submits() {
    let accepts = [true, true];
    assert_eq!(bounded_retry_outcome(&accepts, 0), SubmitResult::QueueFull);
}
