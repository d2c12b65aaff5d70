use vstd::prelude::*;

verus! {

/// Bounded-polling policy: a total wall-clock budget and a fixed sleep
/// period between attempts, both in milliseconds.
#[derive(Clone, Copy, Debug, PartialEq, Eq, Structural)]
pub struct RetryPolicy {
    pub total_ms: u64,
    pub period_ms: u64,
}

/// Whether the poller gives up after a failed attempt: only once the
/// elapsed time has met the budget and at least two attempts were made (a
/// single slow attempt that consumed the whole budget is not enough).
pub open spec fn spec_give_up(p: RetryPolicy, elapsed_ms: int, attempts: int) -> bool {
    elapsed_ms >= p.total_ms && attempts >= 2
}

/// Decides, after the `attempts`-th attempt failed with `elapsed_ms`
/// elapsed since the first attempt began, whether to stop polling.
pub fn should_give_up(p: &RetryPolicy, elapsed_ms: u64, attempts: u64) -> (r: bool)
    ensures
        r == spec_give_up(*p, elapsed_ms as int, attempts as int),
{
    elapsed_ms >= p.total_ms && attempts >= 2
}

/// How one polling run ends: the probe succeeded, or the poller gave up
/// after a failure, each with the number of sleeps taken on the way.
/// `Incomplete` stands for a trace too short to decide.
pub enum RetryRun {
    Succeeded { sleeps: int },
    GaveUp { sleeps: int, attempts: int, elapsed: int },
    Incomplete,
}

/// The poller's behaviour from attempt index `i` (0-based) on, given each
/// attempt's outcome and the elapsed time measured right after it: on
/// success it stops; on failure it either gives up or sleeps once and goes
/// on to the next attempt.
pub open spec fn retry_run(
    p: RetryPolicy,
    outcomes: Seq<bool>,
    elapsed: Seq<int>,
    i: int,
) -> RetryRun
    decreases outcomes.len() - i,
{
    if i < 0 || i >= outcomes.len() || elapsed.len() != outcomes.len() {
        RetryRun::Incomplete
    } else if outcomes[i] {
        RetryRun::Succeeded { sleeps: 0 }
    } else if spec_give_up(p, elapsed[i], i + 1) {
        RetryRun::GaveUp { sleeps: 0, attempts: i + 1, elapsed: elapsed[i] }
    } else {
        match retry_run(p, outcomes, elapsed, i + 1) {
            RetryRun::Succeeded { sleeps } => RetryRun::Succeeded { sleeps: sleeps + 1 },
            RetryRun::GaveUp { sleeps, attempts, elapsed: el } => RetryRun::GaveUp {
                sleeps: sleeps + 1,
                attempts,
                elapsed: el,
            },
            RetryRun::Incomplete => RetryRun::Incomplete,
        }
    }
}

/// Law: a probe that first succeeds on its (n+1)-th call, where no earlier
/// failure met the give-up condition, causes exactly n sleeps.
pub proof fn lemma_retry_sleep_count(
    p: RetryPolicy,
    outcomes: Seq<bool>,
    elapsed: Seq<int>,
    n: int,
)
    requires
        elapsed.len() == outcomes.len(),
        0 <= n < outcomes.len(),
        outcomes[n],
        forall|k: int| 0 <= k < n ==> !outcomes[k],
        forall|k: int| 0 <= k < n ==> !spec_give_up(p, elapsed[k], k + 1),
    ensures
        retry_run(p, outcomes, elapsed, 0) == (RetryRun::Succeeded { sleeps: n }),
{
    lemma_retry_sleep_count_from(p, outcomes, elapsed, n, 0);
}

proof fn lemma_retry_sleep_count_from(
    p: RetryPolicy,
    outcomes: Seq<bool>,
    elapsed: Seq<int>,
    n: int,
    i: int,
)
    requires
        elapsed.len() == outcomes.len(),
        0 <= i <= n < outcomes.len(),
        outcomes[n],
        forall|k: int| 0 <= k < n ==> !outcomes[k],
        forall|k: int| 0 <= k < n ==> !spec_give_up(p, elapsed[k], k + 1),
    ensures
        retry_run(p, outcomes, elapsed, i) == (RetryRun::Succeeded { sleeps: n - i }),
    decreases n - i,
{
    if i < n {
        lemma_retry_sleep_count_from(p, outcomes, elapsed, n, i + 1);
    }
}

/// Law: the poller reports failure only after the elapsed time has met the
/// budget and at least two attempts were made.
pub proof fn lemma_retry_give_up_conditions(
    p: RetryPolicy,
    outcomes: Seq<bool>,
    elapsed: Seq<int>,
)
    ensures
        retry_run(p, outcomes, elapsed, 0) matches RetryRun::GaveUp {
            attempts,
            elapsed: el,
            ..
        } ==> attempts >= 2 && el >= p.total_ms,
{
    lemma_retry_give_up_conditions_from(p, outcomes, elapsed, 0);
}

proof fn lemma_retry_give_up_conditions_from(
    p: RetryPolicy,
    outcomes: Seq<bool>,
    elapsed: Seq<int>,
    i: int,
)
    ensures
        retry_run(p, outcomes, elapsed, i) matches RetryRun::GaveUp {
            attempts,
            elapsed: el,
            ..
        } ==> attempts >= 2 && el >= p.total_ms,
    decreases outcomes.len() - i,
{
    if 0 <= i && i < outcomes.len() && elapsed.len() == outcomes.len() && !outcomes[i]
        && !spec_give_up(p, elapsed[i], i + 1) {
        lemma_retry_give_up_conditions_from(p, outcomes, elapsed, i + 1);
    }
}

} // verus!
