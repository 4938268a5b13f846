//! Bounded retry with a fixed delay: the rule, its model, and the loop that applies it.
//!
//! A remote call is attempted once and then retried while it fails, at most
//! `max_retries` times. Every failed attempt that is followed by another one is
//! followed by the same delay first. The rule is stated once, over [`Progress`],
//! and everything else in this module is proved against it.

use crate::policy::RetryPolicy;
use crate::text::{decimal, render_unsigned};
use vstd::prelude::*;
use vstd::string::StringExecFns;

verus! {

/// Where a remote call stands.
#[derive(Clone, Copy, Debug, PartialEq, Eq, Structural)]
pub enum Status {
    /// Another attempt is due.
    Running,
    /// An attempt succeeded; its value goes to the caller.
    Succeeded,
    /// The last permitted attempt failed; its failure goes to the caller.
    Exhausted,
}

/// The model of a call in progress: the policy it runs under, the attempts made,
/// the delays taken, and where it stands.
pub struct Progress {
    pub policy: RetryPolicy,
    pub attempts: nat,
    pub pauses: nat,
    pub status: Status,
}

/// A call of which nothing has been attempted yet.
pub open spec fn start(policy: RetryPolicy) -> Progress {
    Progress { policy, attempts: 0, pauses: 0, status: Status::Running }
}

/// The rule: what one more attempt, with the given outcome, makes of a call.
/// A call that has succeeded or is exhausted attempts nothing more.
pub open spec fn step(before: Progress, succeeded: bool) -> Progress {
    if before.status != Status::Running {
        before
    } else if succeeded {
        Progress { attempts: before.attempts + 1, status: Status::Succeeded, ..before }
    } else if before.pauses < before.policy.max_retries {
        Progress {
            attempts: before.attempts + 1,
            pauses: before.pauses + 1,
            status: Status::Running,
            ..before
        }
    } else {
        Progress { attempts: before.attempts + 1, status: Status::Exhausted, ..before }
    }
}

/// The call after attempts with the given outcomes, taken in order. Outcomes
/// past the one that ends the call stand for attempts that are never made.
pub open spec fn run(policy: RetryPolicy, outcomes: Seq<bool>) -> Progress
    decreases outcomes.len(),
{
    if outcomes.len() == 0 {
        start(policy)
    } else {
        step(run(policy, outcomes.drop_last()), outcomes.last())
    }
}

/// What holds of every call that the rule can reach.
pub open spec fn consistent(progress: Progress) -> bool {
    &&& progress.pauses <= progress.policy.max_retries
    &&& match progress.status {
        Status::Running => progress.attempts == progress.pauses,
        Status::Succeeded => progress.attempts == progress.pauses + 1,
        Status::Exhausted => progress.pauses == progress.policy.max_retries && progress.attempts
            == progress.pauses + 1,
    }
}

/// The seconds spent waiting so far.
pub open spec fn total_delay(progress: Progress) -> nat {
    progress.pauses * (progress.policy.delay_secs as nat)
}

/// Whatever the outcomes, a call stays within its policy: it makes at most
/// `max_retries + 1` attempts, never more than there are outcomes, and has
/// waited the same delay once for each retry.
pub proof fn law_within_policy(policy: RetryPolicy, outcomes: Seq<bool>)
    ensures
        consistent(run(policy, outcomes)),
        run(policy, outcomes).policy == policy,
        run(policy, outcomes).attempts <= policy.max_retries + 1,
        run(policy, outcomes).attempts <= outcomes.len(),
        run(policy, outcomes).pauses <= policy.max_retries,
        total_delay(run(policy, outcomes)) == run(policy, outcomes).pauses * policy.delay_secs,
    decreases outcomes.len(),
{
    if outcomes.len() > 0 {
        law_within_policy(policy, outcomes.drop_last());
    }
}

/// While every attempt fails and retries are left, the call goes on: after `m`
/// failures, `m` no more than the limit, it has waited `m` times and is due to
/// attempt again.
pub proof fn law_failures_within_limit(policy: RetryPolicy, outcomes: Seq<bool>)
    requires
        outcomes.len() <= policy.max_retries,
        forall|i: int| 0 <= i < outcomes.len() ==> !outcomes[i],
    ensures
        run(policy, outcomes) == (Progress {
            policy,
            attempts: outcomes.len(),
            pauses: outcomes.len(),
            status: Status::Running,
        }),
    decreases outcomes.len(),
{
    if outcomes.len() > 0 {
        law_failures_within_limit(policy, outcomes.drop_last());
    }
}

/// Once a call has succeeded or is exhausted, further outcomes change nothing.
pub proof fn law_settled_stays(policy: RetryPolicy, outcomes: Seq<bool>, settled: int)
    requires
        0 <= settled <= outcomes.len(),
        run(policy, outcomes.take(settled)).status != Status::Running,
    ensures
        run(policy, outcomes) == run(policy, outcomes.take(settled)),
    decreases outcomes.len(),
{
    if settled == outcomes.len() {
        assert(outcomes.take(settled) =~= outcomes);
    } else {
        assert(outcomes.drop_last().take(settled) =~= outcomes.take(settled));
        law_settled_stays(policy, outcomes.drop_last(), settled);
    }
}

/// An operation that always fails is attempted exactly `max_retries + 1` times,
/// with `max_retries` delays between the attempts, and then its failure is
/// handed on.
pub proof fn law_always_failing(policy: RetryPolicy, outcomes: Seq<bool>)
    requires
        outcomes.len() >= policy.max_retries + 1,
        forall|i: int| 0 <= i < outcomes.len() ==> !outcomes[i],
    ensures
        run(policy, outcomes) == (Progress {
            policy,
            attempts: policy.max_retries as nat + 1,
            pauses: policy.max_retries as nat,
            status: Status::Exhausted,
        }),
        total_delay(run(policy, outcomes)) == policy.max_retries * policy.delay_secs,
{
    let limit = policy.max_retries as int;
    let decisive = outcomes.take(limit + 1);
    assert(decisive.drop_last() =~= outcomes.take(limit));
    law_failures_within_limit(policy, outcomes.take(limit));
    assert(!decisive.last());
    law_settled_stays(policy, outcomes, limit + 1);
}

/// An operation that fails `failures` times, no more than the limit, and then
/// succeeds is attempted `failures + 1` times, with one delay after each
/// failure and none after the success; what comes after is never attempted.
pub proof fn law_success_after_failures(policy: RetryPolicy, outcomes: Seq<bool>, failures: int)
    requires
        0 <= failures <= policy.max_retries,
        failures < outcomes.len(),
        forall|i: int| 0 <= i < failures ==> !outcomes[i],
        outcomes[failures],
    ensures
        run(policy, outcomes) == (Progress {
            policy,
            attempts: failures as nat + 1,
            pauses: failures as nat,
            status: Status::Succeeded,
        }),
        total_delay(run(policy, outcomes)) == failures * policy.delay_secs,
{
    let decisive = outcomes.take(failures + 1);
    assert(decisive.drop_last() =~= outcomes.take(failures));
    law_failures_within_limit(policy, outcomes.take(failures));
    assert(decisive.last());
    law_settled_stays(policy, outcomes, failures + 1);
}

/// Under a policy without retries, one failed attempt ends the call: the
/// failure is handed on at once, and no time is spent waiting.
pub proof fn law_no_retries(policy: RetryPolicy, outcomes: Seq<bool>)
    requires
        policy.max_retries == 0,
        outcomes.len() >= 1,
        !outcomes[0],
    ensures
        run(policy, outcomes) == (Progress {
            policy,
            attempts: 1,
            pauses: 0,
            status: Status::Exhausted,
        }),
        total_delay(run(policy, outcomes)) == 0,
{
    let decisive = outcomes.take(1);
    assert(decisive.drop_last() =~= Seq::<bool>::empty());
    assert(run(policy, decisive.drop_last()) == start(policy));
    assert(!decisive.last());
    law_settled_stays(policy, outcomes, 1);
    assert(0 * (policy.delay_secs as nat) == 0) by (nonlinear_arith);
}

/// The outcomes that bring a call to `progress`: a failure for every attempt,
/// but for the last attempt of a call that succeeded.
pub open spec fn trace_of(progress: Progress) -> Seq<bool> {
    if progress.status == Status::Succeeded {
        Seq::new(progress.pauses, |i: int| false).push(true)
    } else {
        Seq::new(progress.attempts, |i: int| false)
    }
}

/// A call that is consistent is one that the rule reaches, by the outcomes that
/// its counts tell of.
pub proof fn law_reached_by_its_trace(progress: Progress)
    requires
        consistent(progress),
    ensures
        run(progress.policy, trace_of(progress)) == progress,
{
    let outcomes = trace_of(progress);
    match progress.status {
        Status::Running => law_failures_within_limit(progress.policy, outcomes),
        Status::Succeeded => law_success_after_failures(
            progress.policy,
            outcomes,
            progress.pauses as int,
        ),
        Status::Exhausted => law_always_failing(progress.policy, outcomes),
    }
}

/// What the caller is told before a retry.
#[derive(Clone, Copy, Debug, PartialEq, Eq, Structural)]
pub struct RetryNotice {
    /// The number of the retry that follows, counted from one.
    pub retry: u8,
    /// The policy's retry limit.
    pub limit: u8,
    /// Seconds to wait before the retry.
    pub delay_secs: u64,
}

/// What the caller does after an attempt has been recorded.
#[derive(Clone, Copy, Debug, PartialEq, Eq, Structural)]
pub enum Action {
    /// Hand the attempt's value to the caller.
    Return,
    /// Report the failure, wait for the notice's delay, and attempt again.
    Wait(RetryNotice),
    /// Hand the attempt's failure to the caller.
    Propagate,
}

/// The notice that goes out when `progress` is about to retry.
pub open spec fn notice_of(progress: Progress) -> RetryNotice {
    RetryNotice {
        retry: progress.pauses as u8,
        limit: progress.policy.max_retries,
        delay_secs: progress.policy.delay_secs,
    }
}

/// The action that a call in the given position asks for.
pub open spec fn action_of(progress: Progress) -> Action {
    match progress.status {
        Status::Running => Action::Wait(notice_of(progress)),
        Status::Succeeded => Action::Return,
        Status::Exhausted => Action::Propagate,
    }
}

/// Whether `notice` is one that a call under `policy` can send.
pub open spec fn announces(policy: RetryPolicy, notice: RetryNotice) -> bool {
    &&& notice.limit == policy.max_retries
    &&& notice.delay_secs == policy.delay_secs
    &&& 1 <= notice.retry <= notice.limit
}

/// The line that tells of a retry.
pub open spec fn notice_text(notice: RetryNotice) -> Seq<char> {
    "Waiting "@ + decimal(notice.delay_secs as nat) + " seconds and retrying... (Retry "@ + decimal(
        notice.retry as nat,
    ) + "/"@ + decimal(notice.limit as nat) + ")"@
}

impl RetryNotice {
    /// The line that tells of this retry.
    pub fn describe(&self) -> (line: String)
        ensures
            line@ == notice_text(*self),
    {
        let mut line = String::from_str("Waiting ");
        line.append(render_unsigned(self.delay_secs).as_str());
        line.append(" seconds and retrying... (Retry ");
        line.append(render_unsigned(self.retry as u64).as_str());
        line.append("/");
        line.append(render_unsigned(self.limit as u64).as_str());
        line.append(")");
        line
    }
}

/// A call in progress.
#[derive(Clone, Copy, Debug)]
pub struct RetryState {
    policy: RetryPolicy,
    attempts: u16,
    pauses: u8,
    status: Status,
}

impl View for RetryState {
    type V = Progress;

    closed spec fn view(&self) -> Progress {
        Progress {
            policy: self.policy,
            attempts: self.attempts as nat,
            pauses: self.pauses as nat,
            status: self.status,
        }
    }
}

impl RetryState {
    #[verifier::type_invariant]
    spec fn well_formed(self) -> bool {
        consistent(self@)
    }

    /// A call under `policy` of which nothing has been attempted yet.
    pub fn begin(policy: RetryPolicy) -> (state: RetryState)
        ensures
            state@ == start(policy),
    {
        RetryState { policy, attempts: 0, pauses: 0, status: Status::Running }
    }

    /// Records the outcome of one more attempt and says what to do next.
    pub fn record(&mut self, succeeded: bool) -> (action: Action)
        ensures
            final(self)@ == step(old(self)@, succeeded),
            action == action_of(final(self)@),
            consistent(final(self)@),
    {
        proof {
            use_type_invariant(&*self);
        }
        match self.status {
            Status::Running => {
                if succeeded {
                    *self = RetryState {
                        policy: self.policy,
                        attempts: self.attempts + 1,
                        pauses: self.pauses,
                        status: Status::Succeeded,
                    };
                    Action::Return
                } else if self.pauses < self.policy.max_retries {
                    *self = RetryState {
                        policy: self.policy,
                        attempts: self.attempts + 1,
                        pauses: self.pauses + 1,
                        status: Status::Running,
                    };
                    Action::Wait(
                        RetryNotice {
                            retry: self.pauses,
                            limit: self.policy.max_retries,
                            delay_secs: self.policy.delay_secs,
                        },
                    )
                } else {
                    *self = RetryState {
                        policy: self.policy,
                        attempts: self.attempts + 1,
                        pauses: self.pauses,
                        status: Status::Exhausted,
                    };
                    Action::Propagate
                }
            },
            Status::Succeeded => Action::Return,
            Status::Exhausted => Action::Propagate,
        }
    }

    /// The policy that the call runs under.
    pub fn policy(&self) -> (policy: RetryPolicy)
        ensures
            policy == self@.policy,
    {
        self.policy
    }

    /// The attempts made so far.
    pub fn attempts(&self) -> (attempts: u16)
        ensures
            attempts == self@.attempts,
            consistent(self@),
    {
        proof {
            use_type_invariant(self);
        }
        self.attempts
    }

    /// The delays taken so far.
    pub fn pauses(&self) -> (pauses: u8)
        ensures
            pauses == self@.pauses,
            consistent(self@),
    {
        proof {
            use_type_invariant(self);
        }
        self.pauses
    }

    /// Where the call stands.
    pub fn status(&self) -> (status: Status)
        ensures
            status == self@.status,
            consistent(self@),
    {
        proof {
            use_type_invariant(self);
        }
        self.status
    }

    /// The seconds spent waiting so far.
    pub fn total_delay_secs(&self) -> (seconds: u128)
        ensures
            seconds == total_delay(self@),
    {
        let pauses: u128 = self.pauses as u128;
        let delay: u128 = self.policy.delay_secs as u128;
        assert(pauses * delay <= 255 * 0xffff_ffff_ffff_ffff) by (nonlinear_arith)
            requires
                pauses <= 255,
                delay <= 0xffff_ffff_ffff_ffff,
        ;
        pauses * delay
    }
}

/// Plays the rule over a recorded sequence of outcomes.
pub fn replay(policy: RetryPolicy, outcomes: &[bool]) -> (state: RetryState)
    ensures
        state@ == run(policy, outcomes@),
{
    let mut state = RetryState::begin(policy);
    let mut done: usize = 0;
    assert(outcomes@.take(0) =~= Seq::<bool>::empty());
    while done < outcomes.len()
        invariant
            done <= outcomes.len(),
            state@ == run(policy, outcomes@.take(done as int)),
        decreases outcomes.len() - done,
    {
        let _ = state.record(outcomes[done]);
        proof {
            let next = outcomes@.take(done + 1);
            assert(next.drop_last() =~= outcomes@.take(done as int));
            assert(next.last() == outcomes@[done as int]);
        }
        done = done + 1;
    }
    assert(outcomes@.take(done as int) =~= outcomes@);
    state
}

/// What a call came to: the value or the failure of its last attempt, and the
/// count of what was done to get it.
pub struct Execution<T, E> {
    pub outcome: Result<T, E>,
    pub state: RetryState,
}

/// Runs `op` under `policy`: once, and again after each failure while the policy
/// permits, with a call of `wait` before each retry. `wait` is handed the notice
/// of the retry and the failure that caused it; to report them and to let the
/// notice's delay pass is its part.
///
/// The value of the first attempt that succeeds is returned at once. The failure
/// of the attempt that exhausts the policy is returned as it is. The state that
/// comes back counts the attempts and the delays, and is what the rule makes
/// of that many failures, followed by the success if there was one.
pub fn execute<T, E, Op, Wait>(policy: RetryPolicy, op: Op, wait: Wait) -> (finished: Execution<
    T,
    E,
>) where Op: Fn() -> Result<T, E>, Wait: Fn(RetryNotice, &E)
    requires
        op.requires(()),
        forall|notice: RetryNotice, failure: &E|
            announces(policy, notice) ==> #[trigger] wait.requires((notice, failure)),
    ensures
        op.ensures((), finished.outcome),
        finished.state@.policy == policy,
        consistent(finished.state@),
        finished.state@.status == (if finished.outcome is Ok {
            Status::Succeeded
        } else {
            Status::Exhausted
        }),
        finished.state@ == run(policy, trace_of(finished.state@)),
{
    let mut state = RetryState::begin(policy);
    loop
        invariant
            op.requires(()),
            forall|notice: RetryNotice, failure: &E|
                announces(policy, notice) ==> #[trigger] wait.requires((notice, failure)),
            state@.policy == policy,
            state@.status == Status::Running,
            consistent(state@),
        decreases policy.max_retries - state@.pauses,
    {
        match op() {
            Ok(value) => {
                let _ = state.record(true);
                proof {
                    law_reached_by_its_trace(state@);
                }
                return Execution { outcome: Ok(value), state };
            },
            Err(failure) => {
                match state.record(false) {
                    Action::Wait(notice) => {
                        wait(notice, &failure);
                    },
                    Action::Return | Action::Propagate => {
                        proof {
                            law_reached_by_its_trace(state@);
                        }
                        return Execution { outcome: Err(failure), state };
                    },
                }
            },
        }
    }
}

} // verus!
