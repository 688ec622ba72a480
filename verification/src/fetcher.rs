//! One fetch cycle: attempts at the request/response call until one
//! succeeds or the retry budget is spent.

use crate::backoff::{
    backoff_delay, backoff_delay_spec, lemma_backoff_bounded, lemma_total_backoff_closed_form,
    total_backoff, BACKOFF_BASE, MAX_RPC_FAILURES,
};
use crate::snapshot::TemplateSnapshot;
use vstd::arithmetic::power::{lemma_pow1, lemma_pow_increases, pow};
use vstd::prelude::*;

verus! {

/// Exit status of a process whose fetch cycle ran out of retries.
pub const EXIT_RETRIES_EXHAUSTED: i32 = 1;

/// The state of a fetch cycle that is still running: how many attempts
/// have failed so far. It never exceeds `MAX_RPC_FAILURES`.
///
/// A cycle starts with [`FetchCycle::new`] and is advanced by [`fetcher`],
/// which takes the state by value and hands a new one back only while the
/// cycle goes on. The counter is never shared between cycles.
#[derive(Debug)]
pub struct FetchCycle {
    failures: u32,
}

impl View for FetchCycle {
    type V = nat;

    closed spec fn view(&self) -> nat {
        self.failures as nat
    }
}

impl FetchCycle {
    #[verifier::type_invariant]
    spec fn within_budget(self) -> bool {
        self.failures <= MAX_RPC_FAILURES
    }

    /// A cycle in which no attempt has been made yet.
    pub fn new() -> (cycle: Self)
        ensures
            cycle@ == 0,
    {
        FetchCycle { failures: 0 }
    }

    /// Number of attempts that have failed so far in this cycle.
    pub fn failures(&self) -> (failures: u32)
        ensures
            failures == self@,
            failures <= MAX_RPC_FAILURES,
    {
        proof {
            use_type_invariant(self);
        }
        self.failures
    }
}

/// What the caller does after an attempt.
#[derive(Debug)]
pub enum FetchStep<P, E> {
    /// The attempt succeeded: send the snapshot on the delivery channel.
    /// The cycle is over.
    Deliver(TemplateSnapshot<P>),
    /// The attempt failed with `error`: wait `delay_secs` seconds, make the
    /// next attempt and continue with `cycle`.
    Backoff { cycle: FetchCycle, error: E, delay_secs: u64 },
    /// The attempt failed and the retry budget is spent: terminate the
    /// process with `exit_code`. Nothing is delivered.
    Halt { exit_code: i32 },
}

/// A [`FetchStep`] with the cycle's state replaced by its failure count.
pub enum FetchStepView<P, E> {
    Deliver(TemplateSnapshot<P>),
    Backoff { failures: nat, error: E, delay_secs: nat },
    Halt { exit_code: int },
}

impl<P, E> View for FetchStep<P, E> {
    type V = FetchStepView<P, E>;

    open spec fn view(&self) -> FetchStepView<P, E> {
        match *self {
            FetchStep::Deliver(snapshot) => FetchStepView::Deliver(snapshot),
            FetchStep::Backoff { cycle, error, delay_secs } => FetchStepView::Backoff {
                failures: cycle@,
                error,
                delay_secs: delay_secs as nat,
            },
            FetchStep::Halt { exit_code } => FetchStepView::Halt { exit_code: exit_code as int },
        }
    }
}

/// The retry policy: the step that follows an attempt's `outcome` in a
/// cycle with `failures` failed attempts behind it.
///
/// A success is delivered whatever came before. A failure is counted; if
/// the count then exceeds `MAX_RPC_FAILURES` the process halts with status
/// 1, otherwise the cycle backs off for `2 ^ count` seconds.
pub open spec fn fetch_step<P, E>(failures: nat, outcome: Result<TemplateSnapshot<P>, E>)
    -> FetchStepView<P, E> {
    match outcome {
        Ok(snapshot) => FetchStepView::Deliver(snapshot),
        Err(error) => match backoff_delay_spec(failures + 1) {
            Some(delay_secs) => FetchStepView::Backoff { failures: failures + 1, error, delay_secs },
            None => FetchStepView::Halt { exit_code: EXIT_RETRIES_EXHAUSTED as int },
        },
    }
}

/// A cycle only ever backs off within its budget: the failure just counted
/// is at most the `MAX_RPC_FAILURES`-th, and the delay is `2` to the power
/// of that count, so between 2 and `2^20` seconds.
pub proof fn law_backoff_within_budget<P, E>(failures: nat, outcome: Result<TemplateSnapshot<P>, E>)
    ensures
        fetch_step(failures, outcome) matches FetchStepView::Backoff {
            failures: counted,
            error: _,
            delay_secs,
        } ==> {
            &&& counted == failures + 1
            &&& counted <= MAX_RPC_FAILURES
            &&& delay_secs == pow(BACKOFF_BASE as int, counted)
            &&& 2 <= delay_secs <= 1_048_576
        },
{
    if failures + 1 <= MAX_RPC_FAILURES {
        lemma_backoff_bounded(failures + 1);
        lemma_pow1(2);
        lemma_pow_increases(2, 1, failures + 1);
    }
}

/// Advances a fetch cycle by the outcome of the attempt just made.
pub fn fetcher<P, E>(cycle: FetchCycle, outcome: Result<TemplateSnapshot<P>, E>) -> (step:
    FetchStep<P, E>)
    ensures
        step@ == fetch_step(cycle@, outcome),
{
    match outcome {
        Ok(snapshot) => FetchStep::Deliver(snapshot),
        Err(error) => {
            let failures: u32 = cycle.failures() + 1;
            match backoff_delay(failures) {
                Some(delay_secs) => FetchStep::Backoff {
                    cycle: FetchCycle { failures },
                    error,
                    delay_secs,
                },
                None => FetchStep::Halt { exit_code: EXIT_RETRIES_EXHAUSTED },
            }
        },
    }
}

/// How far a fetch cycle got.
pub enum FetchEnd {
    /// Every outcome seen so far was a failure within the retry budget: the
    /// cycle is waiting to make its next attempt.
    Pending,
    /// An attempt succeeded and its snapshot was sent.
    Delivered,
    /// The retry budget was spent and the process terminated.
    Halted { exit_code: int },
}

/// What a fetch cycle has done once it stops reading attempt outcomes.
pub struct FetchRun<P> {
    /// Number of attempts made.
    pub attempts: nat,
    /// Seconds slept between attempts, in total.
    pub slept_secs: nat,
    /// The snapshots sent on the delivery channel, in order.
    pub delivered: Seq<TemplateSnapshot<P>>,
    /// Where the cycle stands.
    pub end: FetchEnd,
}

/// Runs a cycle that already has `failures` failed attempts behind it:
/// `outcomes[0]` is the outcome of its next attempt, `outcomes[1]` of the
/// one after, and so on. Outcomes after the one that ends the cycle are
/// never asked for.
pub open spec fn fetch_run_from<P, E>(
    failures: nat,
    outcomes: Seq<Result<TemplateSnapshot<P>, E>>,
) -> FetchRun<P>
    decreases outcomes.len(),
{
    if outcomes.len() == 0 {
        FetchRun { attempts: 0, slept_secs: 0, delivered: Seq::empty(), end: FetchEnd::Pending }
    } else {
        match fetch_step(failures, outcomes[0]) {
            FetchStepView::Deliver(snapshot) => FetchRun {
                attempts: 1,
                slept_secs: 0,
                delivered: seq![snapshot],
                end: FetchEnd::Delivered,
            },
            FetchStepView::Halt { exit_code } => FetchRun {
                attempts: 1,
                slept_secs: 0,
                delivered: Seq::empty(),
                end: FetchEnd::Halted { exit_code },
            },
            FetchStepView::Backoff { failures: counted, error: _, delay_secs } => {
                let rest = fetch_run_from(counted, outcomes.skip(1));
                FetchRun {
                    attempts: rest.attempts + 1,
                    slept_secs: rest.slept_secs + delay_secs,
                    delivered: rest.delivered,
                    end: rest.end,
                }
            },
        }
    }
}

/// Runs one fetch cycle from its start over the outcomes of its attempts.
pub open spec fn fetch_run<P, E>(outcomes: Seq<Result<TemplateSnapshot<P>, E>>) -> FetchRun<P> {
    fetch_run_from(0, outcomes)
}

/// The first `n` of `outcomes` are failures.
pub open spec fn starts_with_failures<P, E>(
    outcomes: Seq<Result<TemplateSnapshot<P>, E>>,
    n: nat,
) -> bool {
    &&& n <= outcomes.len()
    &&& forall|i: int| 0 <= i < n ==> (#[trigger] outcomes[i]) is Err
}

proof fn lemma_recovers_from<P, E>(
    failures: nat,
    outcomes: Seq<Result<TemplateSnapshot<P>, E>>,
    n: nat,
)
    requires
        failures + n <= MAX_RPC_FAILURES,
        starts_with_failures(outcomes, n),
        n < outcomes.len(),
        outcomes[n as int] is Ok,
    ensures
        fetch_run_from(failures, outcomes).attempts == n + 1,
        fetch_run_from(failures, outcomes).slept_secs + total_backoff(failures) == total_backoff(
            failures + n,
        ),
        fetch_run_from(failures, outcomes).delivered == seq![outcomes[n as int]->Ok_0],
        fetch_run_from(failures, outcomes).end == FetchEnd::Delivered,
    decreases n,
{
    if n > 0 {
        let rest = outcomes.skip(1);
        assert(outcomes[0] is Err);
        assert forall|i: int| 0 <= i < n - 1 implies (#[trigger] rest[i]) is Err by {
            assert(outcomes[i + 1] is Err);
        }
        lemma_recovers_from(failures + 1, rest, (n - 1) as nat);
        lemma_backoff_bounded(failures + 1);
    }
}

proof fn lemma_gives_up_from<P, E>(
    failures: nat,
    outcomes: Seq<Result<TemplateSnapshot<P>, E>>,
)
    requires
        failures <= MAX_RPC_FAILURES,
        starts_with_failures(outcomes, (MAX_RPC_FAILURES - failures + 1) as nat),
    ensures
        fetch_run_from(failures, outcomes).attempts == MAX_RPC_FAILURES - failures + 1,
        fetch_run_from(failures, outcomes).slept_secs + total_backoff(failures) == total_backoff(
            MAX_RPC_FAILURES as nat,
        ),
        fetch_run_from(failures, outcomes).delivered == Seq::<TemplateSnapshot<P>>::empty(),
        fetch_run_from(failures, outcomes).end == (FetchEnd::Halted {
            exit_code: EXIT_RETRIES_EXHAUSTED as int,
        }),
    decreases MAX_RPC_FAILURES - failures,
{
    assert(outcomes[0] is Err);
    if failures < MAX_RPC_FAILURES {
        let rest = outcomes.skip(1);
        assert forall|i: int| 0 <= i < MAX_RPC_FAILURES - failures implies (#[trigger] rest[i])
            is Err by {
            assert(outcomes[i + 1] is Err);
        }
        lemma_gives_up_from(failures + 1, rest);
        lemma_backoff_bounded(failures + 1);
    }
}

/// A cycle whose first `n` attempts fail, with `n` within the retry budget,
/// and whose next attempt succeeds, makes `n + 1` attempts, sleeps
/// `2^1 + ... + 2^n` seconds in all (that is `2^(n+1) - 2`), and delivers
/// exactly the snapshot of the successful attempt. Whatever the later
/// outcomes would have been plays no part.
pub proof fn law_recovers_after_failures<P, E>(
    outcomes: Seq<Result<TemplateSnapshot<P>, E>>,
    n: nat,
)
    requires
        n <= MAX_RPC_FAILURES,
        starts_with_failures(outcomes, n),
        n < outcomes.len(),
        outcomes[n as int] is Ok,
    ensures
        fetch_run(outcomes) == (FetchRun {
            attempts: n + 1,
            slept_secs: total_backoff(n),
            delivered: seq![outcomes[n as int]->Ok_0],
            end: FetchEnd::Delivered,
        }),
        total_backoff(n) == pow(BACKOFF_BASE as int, n + 1) - 2,
{
    lemma_recovers_from(0, outcomes, n);
    lemma_total_backoff_closed_form(n);
}

/// A cycle whose first `MAX_RPC_FAILURES + 1` attempts all fail halts the
/// process with exit status 1 at the last of them and delivers nothing. It
/// has backed off after each of the `MAX_RPC_FAILURES` failures before.
pub proof fn law_halts_when_budget_spent<P, E>(outcomes: Seq<Result<TemplateSnapshot<P>, E>>)
    requires
        starts_with_failures(outcomes, (MAX_RPC_FAILURES + 1) as nat),
    ensures
        fetch_run(outcomes) == (FetchRun {
            attempts: (MAX_RPC_FAILURES + 1) as nat,
            slept_secs: total_backoff(MAX_RPC_FAILURES as nat),
            delivered: Seq::<TemplateSnapshot<P>>::empty(),
            end: FetchEnd::Halted { exit_code: 1 },
        }),
{
    lemma_gives_up_from(0, outcomes);
}

/// Whatever the outcomes, a cycle that starts within its budget delivers one
/// snapshot if it ends in success and none otherwise, never makes more than
/// `MAX_RPC_FAILURES + 1` attempts, and halts with no status but 1.
pub proof fn law_one_delivery_per_cycle<P, E>(
    failures: nat,
    outcomes: Seq<Result<TemplateSnapshot<P>, E>>,
)
    requires
        failures <= MAX_RPC_FAILURES,
    ensures
        fetch_run_from(failures, outcomes).delivered.len() == (if fetch_run_from(
            failures,
            outcomes,
        ).end is Delivered {
            1nat
        } else {
            0nat
        }),
        fetch_run_from(failures, outcomes).end matches FetchEnd::Halted { exit_code }
            ==> exit_code == 1,
        fetch_run_from(failures, outcomes).attempts <= outcomes.len(),
        failures + fetch_run_from(failures, outcomes).attempts <= MAX_RPC_FAILURES + 1,
    decreases outcomes.len(),
{
    if outcomes.len() > 0 && outcomes[0] is Err && failures < MAX_RPC_FAILURES {
        law_one_delivery_per_cycle(failures + 1, outcomes.skip(1));
    }
}

} // verus!
