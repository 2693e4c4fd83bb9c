//! Retrying an idempotent check through transient connection failures.
//!
//! Only a check with no side effect beyond itself may be repeated blindly, so
//! the decisions here are meant for the existence check that gates a creation
//! or a removal, never for the creation or the removal.

use crate::failure::{ErrorKind, Failure};
use vstd::arithmetic::power2::{lemma2_to64, lemma_pow2_pos, lemma_pow2_unfold, pow2};
use vstd::prelude::*;

verus! {

/// How often, and how patiently, a failing check is repeated.
#[derive(Clone, Copy, Debug, PartialEq, Eq, Structural)]
pub struct RetryPolicy {
    /// Attempts allowed after the first one.
    pub max_retries: u32,
    /// The pause before the first retry, in milliseconds.
    pub base_delay_ms: u64,
    /// The longest pause between two attempts, in milliseconds.
    pub max_delay_ms: u64,
}

/// What to do after one attempt of the check.
#[derive(Clone, Debug, PartialEq, Eq)]
pub enum Verdict<T> {
    /// The check answered; the answer is final.
    Settled(T),
    /// The failure was transient and attempts are left: pause, then invoke
    /// the check again.
    Retry { delay_ms: u64 },
    /// The failure is surfaced under the given class of error.
    GiveUp { kind: ErrorKind, failure: Failure },
}

impl RetryPolicy {
    /// The attempt ceiling: the first attempt and every permitted retry.
    pub open spec fn ceiling(self) -> nat {
        self.max_retries as nat + 1
    }

    /// The pause kept after `failures` failed attempts: the base pause,
    /// doubled for each failure after the first, and capped.
    pub open spec fn pause(self, failures: nat) -> nat {
        let doublings = if failures == 0 {
            0
        } else {
            (failures - 1) as nat
        };
        if self.base_delay_ms * pow2(doublings) <= self.max_delay_ms {
            (self.base_delay_ms * pow2(doublings)) as nat
        } else {
            self.max_delay_ms as nat
        }
    }

    /// The verdict on one attempt, `failures` attempts having failed before it.
    pub open spec fn verdict<T>(self, failures: nat, outcome: Result<T, Failure>) -> Verdict<T> {
        match outcome {
            Ok(answer) => Verdict::Settled(answer),
            Err(failure) => if !failure.is_transient() {
                Verdict::GiveUp { kind: ErrorKind::Driver, failure }
            } else if failures < self.max_retries {
                Verdict::Retry { delay_ms: self.pause(failures + 1) as u64 }
            } else {
                Verdict::GiveUp { kind: ErrorKind::Connection, failure }
            },
        }
    }

    /// How a run of attempts goes when the check's outcomes are `script`, in
    /// order, `failures` attempts having failed before: the number of
    /// invocations made, and the verdict that ended the run, if the script
    /// reaches one.
    pub open spec fn replay<T>(self, failures: nat, script: Seq<Result<T, Failure>>) -> (
        nat,
        Option<Verdict<T>>,
    )
        decreases script.len(),
    {
        if script.len() == 0 {
            (0, None)
        } else {
            let first = self.verdict(failures, script[0]);
            if first is Retry {
                let rest = self.replay(failures + 1, script.drop_first());
                (rest.0 + 1, rest.1)
            } else {
                (1, Some(first))
            }
        }
    }

    /// A pause is never longer than the cap, and one more failure doubles it
    /// up to the cap.
    pub proof fn pause_doubles(self, failures: nat)
        requires
            failures >= 1,
        ensures
            self.pause(failures) <= self.max_delay_ms,
            self.pause(failures + 1) == if 2 * self.pause(failures) <= self.max_delay_ms {
                (2 * self.pause(failures)) as nat
            } else {
                self.max_delay_ms as nat
            },
    {
        let base = self.base_delay_ms as int;
        let before = pow2((failures - 1) as nat) as int;
        lemma_pow2_unfold(failures);
        lemma_pow2_pos((failures - 1) as nat);
        assert(base * (2 * before) == 2 * (base * before)) by (nonlinear_arith);
        assert(base * before >= 0) by (nonlinear_arith)
            requires
                base >= 0,
                before >= 0,
        ;
    }

    /// Once the cap is reached, every later pause is the cap.
    pub proof fn pause_stays_capped(self, reached: nat, later: nat)
        requires
            1 <= reached <= later,
            self.pause(reached) == self.max_delay_ms,
        ensures
            self.pause(later) == self.max_delay_ms,
        decreases later - reached,
    {
        if reached < later {
            self.pause_doubles(reached);
            self.pause_stays_capped(reached + 1, later);
        }
    }

    /// The pause to keep after `failures` failed attempts, in milliseconds.
    pub fn delay_ms(&self, failures: u32) -> (ms: u64)
        ensures
            ms == self.pause(failures as nat),
    {
        proof {
            lemma2_to64();
        }
        if self.base_delay_ms == 0 {
            assert(self.pause(failures as nat) == 0) by {
                let doublings = if failures == 0 {
                    0
                } else {
                    (failures - 1) as nat
                };
                assert(0 * pow2(doublings) == 0) by (nonlinear_arith);
            }
            return 0;
        }
        let mut ms: u64 = if self.base_delay_ms <= self.max_delay_ms {
            self.base_delay_ms
        } else {
            self.max_delay_ms
        };
        assert(self.base_delay_ms * pow2(0) == self.base_delay_ms) by (nonlinear_arith)
            requires
                pow2(0) == 1,
        ;
        let mut counted: u32 = 1;
        while counted < failures && ms < self.max_delay_ms
            invariant
                1 <= counted,
                counted <= failures || (failures == 0 && counted == 1),
                ms == self.pause(counted as nat),
                ms <= self.max_delay_ms,
            decreases failures - counted,
        {
            proof {
                self.pause_doubles(counted as nat);
            }
            ms = if ms <= self.max_delay_ms - ms {
                ms + ms
            } else {
                self.max_delay_ms
            };
            counted = counted + 1;
        }
        proof {
            if counted < failures {
                self.pause_stays_capped(counted as nat, failures as nat);
            }
        }
        ms
    }
}

/// Whether an attempt failed with a transient connection error.
pub open spec fn failed_transiently<T>(outcome: Result<T, Failure>) -> bool {
    outcome matches Err(failure) && failure.is_transient()
}

/// A check that fails transiently `outages` times and then answers is invoked
/// `outages + 1` times and yields that answer, provided the retries last.
pub proof fn retry_rides_out_transient_failures<T>(
    policy: RetryPolicy,
    failures: nat,
    script: Seq<Result<T, Failure>>,
    outages: nat,
    answer: T,
)
    requires
        failures + outages <= policy.max_retries,
        outages < script.len(),
        forall|i: int| 0 <= i < outages ==> failed_transiently(#[trigger] script[i]),
        script[outages as int] == Ok::<T, Failure>(answer),
    ensures
        policy.replay(failures, script) == ((outages + 1) as nat, Some(Verdict::Settled(answer))),
    decreases outages,
{
    if outages > 0 {
        assert(failed_transiently(script[0]));
        let rest = script.drop_first();
        assert forall|i: int| 0 <= i < outages - 1 implies failed_transiently(
            #[trigger] rest[i],
        ) by {
            assert(rest[i] == script[i + 1]);
        }
        retry_rides_out_transient_failures(
            policy,
            failures + 1,
            rest,
            (outages - 1) as nat,
            answer,
        );
    }
}

/// A failure that is not a transient connection error ends the run with the
/// attempt that met it, and is surfaced as a driver error.
pub proof fn retry_surfaces_other_failures_at_once<T>(
    policy: RetryPolicy,
    failures: nat,
    script: Seq<Result<T, Failure>>,
    failure: Failure,
)
    requires
        script.len() > 0,
        script[0] == Err::<T, Failure>(failure),
        !failure.is_transient(),
    ensures
        policy.replay(failures, script) == (
            1nat,
            Some(Verdict::<T>::GiveUp { kind: ErrorKind::Driver, failure }),
        ),
{
}

/// A check that keeps failing transiently is abandoned at the attempt
/// ceiling, and the last failure is surfaced as a connection error.
pub proof fn retry_gives_up_at_the_ceiling<T>(
    policy: RetryPolicy,
    failures: nat,
    script: Seq<Result<T, Failure>>,
    last: Failure,
)
    requires
        failures <= policy.max_retries,
        script.len() > policy.max_retries - failures,
        forall|i: int|
            0 <= i <= policy.max_retries - failures ==> failed_transiently(#[trigger] script[i]),
        script[policy.max_retries - failures] == Err::<T, Failure>(last),
    ensures
        policy.replay(failures, script) == (
            (policy.max_retries - failures + 1) as nat,
            Some(Verdict::<T>::GiveUp { kind: ErrorKind::Connection, failure: last }),
        ),
    decreases policy.max_retries - failures,
{
    assert(failed_transiently(script[0]));
    if failures < policy.max_retries {
        let rest = script.drop_first();
        assert forall|i: int| 0 <= i <= policy.max_retries - (failures + 1) implies failed_transiently(
            #[trigger] rest[i],
        ) by {
            assert(rest[i] == script[i + 1]);
        }
        retry_gives_up_at_the_ceiling(policy, failures + 1, rest, last);
    }
}

/// Whatever the check does, it is never invoked more often than the attempt
/// ceiling allows.
pub proof fn retry_respects_the_ceiling<T>(
    policy: RetryPolicy,
    failures: nat,
    script: Seq<Result<T, Failure>>,
)
    requires
        failures <= policy.max_retries,
    ensures
        failures + policy.replay(failures, script).0 <= policy.ceiling(),
    decreases script.len(),
{
    if script.len() > 0 && policy.verdict(failures, script[0]) is Retry {
        retry_respects_the_ceiling(policy, failures + 1, script.drop_first());
    }
}

/// Decides what follows one attempt of an idempotent check, `failures`
/// attempts having failed before it. An answer is final. A transient
/// connection failure is retried after a pause while retries are left, and
/// surfaced as a connection error once they are used up. Any other failure is
/// surfaced at once as a driver error.
pub fn retry_idempotent<T>(policy: &RetryPolicy, failures: u32, outcome: Result<T, Failure>) -> (v:
    Verdict<T>)
    ensures
        v == policy.verdict(failures as nat, outcome),
{
    match outcome {
        Ok(answer) => Verdict::Settled(answer),
        Err(failure) => {
            if !failure.transient() {
                Verdict::GiveUp { kind: ErrorKind::Driver, failure }
            } else if failures < policy.max_retries {
                proof {
                    policy.pause_doubles((failures + 1) as nat);
                }
                Verdict::Retry { delay_ms: policy.delay_ms(failures + 1) }
            } else {
                Verdict::GiveUp { kind: ErrorKind::Connection, failure }
            }
        },
    }
}

} // verus!
