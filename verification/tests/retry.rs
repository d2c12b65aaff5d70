use organixm::retry::{should_give_up, RetryPolicy};

fn policy() -> RetryPolicy {
    RetryPolicy { total_ms: 600_000, period_ms: 10_000 }
}

#[test]
fn keeps_going_within_budget() {
    let p = policy();
    assert!(!should_give_up(&p, 0, 1));
    assert!(!should_give_up(&p, 599_999, 2));
    assert!(!should_give_up(&p, 599_999, 50));
}

#[test]
fn one_slow_attempt_is_not_enough() {
    // Even when the first attempt alone consumed the whole budget, a
    // second attempt is owed before giving up.
    let p = policy();
    assert!(!should_give_up(&p, 600_000, 1));
    assert!(!should_give_up(&p, 5_000_000, 1));
}

#[test]
fn gives_up_after_budget_and_two_attempts() {
    let p = policy();
    assert!(should_give_up(&p, 600_000, 2));
    assert!(should_give_up(&p, 600_001, 3));
}
