//! The retry decorator's core: a retry policy, and a step-wise engine that
//! decides after each attempt's outcome whether the request is complete,
//! has failed terminally, or should be retried after the policy's delay.
//!
//! The engine is driven one attempt at a time: the caller performs the
//! actual transfer, reports its outcome, and carries out the returned
//! decision (return, or wait and try again). This keeps every decision —
//! how many attempts are made, when the delay is owed, what the terminal
//! failure carries — inside verified code, while the transfers and the
//! waiting themselves happen in the asynchronous shell around the library.

use vstd::prelude::*;

use crate::interface::FileDownloaderUri;
use core::time::Duration;

verus! {

/// Relies on `core::time::Duration`'s `Clone`: `Duration` is `Copy`, so the
/// clone is the value itself.
pub assume_specification[ <Duration as Clone>::clone ](d: &Duration) -> (r: Duration)
    ensures
        r == *d,
;

/// Names the duration value that `core::time::Duration::from_secs` returns
/// for a given number of seconds; the result depends on the seconds alone.
pub uninterp spec fn duration_of_secs(secs: u64) -> Duration;

/// Relies on `core::time::Duration::from_secs`: builds the duration for a
/// whole number of seconds, a pure function of its argument.
#[verifier::external_body]
fn duration_from_secs(secs: u64) -> (r: Duration)
    ensures
        r == duration_of_secs(secs),
{
    Duration::from_secs(secs)
}

/// Policy for retrying file downloads.
#[derive(Debug, PartialEq, Clone)]
pub struct FileDownloadRetryPolicy {
    /// Number of attempts to download a file.
    pub attempts: usize,
    /// Delay between two attempts.
    pub delay_between_attempts: Duration,
}

impl Default for FileDownloadRetryPolicy {
    /// Create a default retry policy: three attempts, five seconds apart.
    fn default() -> (r: Self)
        ensures
            r.attempts == 3,
            r.delay_between_attempts == duration_of_secs(5),
    {
        Self { attempts: 3, delay_between_attempts: duration_from_secs(5) }
    }
}

/// The outcome of one invocation of the inner downloader.
#[derive(Debug, Clone, Copy, PartialEq, Eq, Structural)]
pub enum AttemptOutcome {
    /// The file is fully present and usable at the target directory.
    Success,
    /// The attempt produced no usable result and may be retried.
    Failure,
}

/// The terminal failure returned once every attempt has failed. It carries
/// the location that was requested and the total number of attempts made.
#[derive(Debug, Clone, PartialEq, Eq)]
pub struct RetryExhaustedError {
    /// The location whose download was attempted.
    pub location: FileDownloaderUri,
    /// How many times the inner downloader was invoked.
    pub attempts: usize,
}

/// The engine's decision after one attempt's outcome has been recorded.
#[derive(Debug, Clone, PartialEq)]
pub enum RetryStep {
    /// The attempt succeeded: the request is complete, no further attempt
    /// and no further delay.
    Succeeded,
    /// The attempt failed and no attempts remain: the request fails
    /// terminally, with no delay after this final attempt.
    Exhausted(RetryExhaustedError),
    /// The attempt failed and attempts remain: wait exactly this long,
    /// then invoke the inner downloader again.
    RetryAfter(Duration),
}

/// RetryDownloader wraps a file downloader's invocations with bounded,
/// delayed re-attempts according to its retry policy.
pub struct RetryDownloader {
    /// Policy governing the attempts.
    retry_policy: FileDownloadRetryPolicy,
}

impl RetryDownloader {
    /// The policy this decorator applies.
    pub closed spec fn policy(&self) -> FileDownloadRetryPolicy {
        self.retry_policy
    }

    /// The policy always asks for at least one attempt.
    pub open spec fn wf(&self) -> bool {
        self.policy().attempts >= 1
    }

    /// Create a new RetryDownloader. A policy asking for zero attempts is
    /// normalized to one attempt: at least one attempt is always made.
    pub fn new(retry_policy: FileDownloadRetryPolicy) -> (r: Self)
        ensures
            r.wf(),
            retry_policy.attempts == 0 ==> r.policy() == (FileDownloadRetryPolicy {
                attempts: 1,
                delay_between_attempts: retry_policy.delay_between_attempts,
            }),
            retry_policy.attempts >= 1 ==> r.policy() == retry_policy,
    {
        if retry_policy.attempts == 0 {
            Self {
                retry_policy: FileDownloadRetryPolicy {
                    attempts: 1,
                    delay_between_attempts: retry_policy.delay_between_attempts,
                },
            }
        } else {
            Self { retry_policy }
        }
    }

    /// Begin a fresh download request: its own attempt counter starts at
    /// zero, independent of any other request.
    pub fn start(&self) -> (run: RetryRun)
        requires
            self.wf(),
        ensures
            run.wf(),
            !run.finished(),
            run.attempts_made() == 0,
            run.history() == Seq::<bool>::empty(),
            run.policy() == self.policy(),
    {
        RetryRun {
            retry_policy: FileDownloadRetryPolicy {
                attempts: self.retry_policy.attempts,
                delay_between_attempts: self.retry_policy.delay_between_attempts,
            },
            nb_attempts: 0,
            done: false,
            history: Ghost(Seq::empty()),
        }
    }
}

/// One in-flight download request: how many attempts have been made and
/// whether the request has reached its terminal state.
pub struct RetryRun {
    /// The policy of the decorator that started this run.
    retry_policy: FileDownloadRetryPolicy,
    /// Attempts whose outcome has been recorded so far.
    nb_attempts: usize,
    /// Whether the request is complete (success or terminal failure).
    done: bool,
    /// The recorded outcomes, `true` for success.
    history: Ghost<Seq<bool>>,
}

impl RetryRun {
    /// The policy governing this run.
    pub closed spec fn policy(&self) -> FileDownloadRetryPolicy {
        self.retry_policy
    }

    /// The outcomes recorded so far, `true` for success.
    pub closed spec fn history(&self) -> Seq<bool> {
        self.history@
    }

    /// How many attempts have been recorded.
    pub closed spec fn attempts_made(&self) -> nat {
        self.nb_attempts as nat
    }

    /// Whether the run has reached its terminal state.
    pub closed spec fn finished(&self) -> bool {
        self.done
    }

    /// The run's invariant: the counter matches the recorded history, the
    /// inner downloader is never invoked more than `attempts` times, every
    /// outcome before the last was a failure (a success ends the run at
    /// once), and the run is finished exactly when the last outcome was a
    /// success or the attempt budget is spent.
    pub closed spec fn wf(&self) -> bool {
        &&& self.retry_policy.attempts >= 1
        &&& self.nb_attempts == self.history@.len()
        &&& self.history@.len() <= self.retry_policy.attempts
        &&& (forall|i: int| 0 <= i < self.history@.len() - 1 ==> !self.history@[i])
        &&& (self.done <==> (self.history@.len() > 0 && (self.history@.last()
            || self.history@.len() == self.retry_policy.attempts)))
    }

    /// Whether the run is complete.
    pub fn is_finished(&self) -> (r: bool)
        ensures
            r == self.finished(),
    {
        self.done
    }

    /// How many attempts have been made so far.
    pub fn attempts_so_far(&self) -> (r: usize)
        ensures
            r == self.attempts_made(),
    {
        self.nb_attempts
    }

    /// Record the outcome of one invocation of the inner downloader and
    /// decide what follows: success completes the request immediately; a
    /// failure on the final attempt fails it terminally, with the location
    /// and the attempt count in the error and no further delay; any other
    /// failure is followed by exactly the policy's delay and another
    /// attempt.
    pub fn record_attempt(&mut self, location: &FileDownloaderUri, outcome: AttemptOutcome) -> (step:
        RetryStep)
        requires
            old(self).wf(),
            !old(self).finished(),
        ensures
            final(self).wf(),
            final(self).policy() == old(self).policy(),
            final(self).history() == old(self).history().push(outcome is Success),
            final(self).attempts_made() == old(self).attempts_made() + 1,
            (final(self).finished() <==> (outcome is Success || old(self).attempts_made() + 1
                == old(self).policy().attempts)),
            outcome is Success ==> step == RetryStep::Succeeded,
            (outcome is Failure && old(self).attempts_made() + 1 == old(self).policy().attempts)
                ==> step == RetryStep::Exhausted(RetryExhaustedError {
                location: *location,
                attempts: old(self).policy().attempts,
            }),
            (outcome is Failure && old(self).attempts_made() + 1 < old(self).policy().attempts)
                ==> step == RetryStep::RetryAfter(old(self).policy().delay_between_attempts),
    {
        proof {
            assert(old(self).history().len() < old(self).policy().attempts);
        }
        self.nb_attempts = self.nb_attempts + 1;
        self.history = Ghost(self.history@.push(outcome is Success));
        match outcome {
            AttemptOutcome::Success => {
                self.done = true;
                RetryStep::Succeeded
            },
            AttemptOutcome::Failure => {
                if self.nb_attempts >= self.retry_policy.attempts {
                    self.done = true;
                    RetryStep::Exhausted(
                        RetryExhaustedError {
                            location: location.duplicate(),
                            attempts: self.nb_attempts,
                        },
                    )
                } else {
                    RetryStep::RetryAfter(self.retry_policy.delay_between_attempts)
                }
            },
        }
    }
}

/// How many times a run with `attempts` total attempts invokes the inner
/// downloader when the successive outcomes are `outcomes` (`true` is a
/// success): it stops at the first success, or once `attempts` outcomes
/// have been consumed.
pub open spec fn run_invocations(attempts: nat, outcomes: Seq<bool>) -> nat
    decreases attempts,
{
    if attempts <= 1 || outcomes.len() == 0 || outcomes[0] {
        1
    } else {
        1 + run_invocations((attempts - 1) as nat, outcomes.drop_first())
    }
}

/// Whether a run with `attempts` total attempts and successive outcomes
/// `outcomes` ends in success: some attempt within the budget succeeded.
pub open spec fn run_succeeds(attempts: nat, outcomes: Seq<bool>) -> bool
    decreases attempts,
{
    if outcomes.len() == 0 {
        false
    } else if outcomes[0] {
        true
    } else if attempts <= 1 {
        false
    } else {
        run_succeeds((attempts - 1) as nat, outcomes.drop_first())
    }
}

/// How many inter-attempt delays a run with `attempts` total attempts and
/// successive outcomes `outcomes` incurs: one after each failure that
/// another attempt follows, none after a success and none after the final
/// attempt.
pub open spec fn run_delays(attempts: nat, outcomes: Seq<bool>) -> nat
    decreases attempts,
{
    if attempts <= 1 || outcomes.len() == 0 || outcomes[0] {
        0
    } else {
        1 + run_delays((attempts - 1) as nat, outcomes.drop_first())
    }
}

/// If the inner downloader always fails, a run with `attempts` total
/// attempts invokes it exactly `attempts` times — never one more, never
/// one fewer — returns a terminal failure, and waits exactly
/// `attempts - 1` times between attempts.
pub proof fn lemma_always_failing_invokes_exactly_attempts_times(attempts: nat, outcomes: Seq<bool>)
    requires
        attempts >= 1,
        outcomes.len() >= attempts,
        forall|i: int| 0 <= i < attempts ==> !outcomes[i],
    ensures
        run_invocations(attempts, outcomes) == attempts,
        !run_succeeds(attempts, outcomes),
        run_delays(attempts, outcomes) == attempts - 1,
    decreases attempts,
{
    if attempts > 1 {
        let rest = outcomes.drop_first();
        assert(forall|i: int| 0 <= i < attempts - 1 ==> rest[i] == outcomes[i + 1]);
        lemma_always_failing_invokes_exactly_attempts_times((attempts - 1) as nat, rest);
    }
}

/// If the inner downloader fails on the first `k` attempts and succeeds on
/// attempt `k + 1`, within the attempt budget, the run invokes it exactly
/// `k + 1` times, returns success, and waits exactly `k` times.
pub proof fn lemma_success_after_failures(attempts: nat, outcomes: Seq<bool>, k: nat)
    requires
        attempts >= 1,
        k < attempts,
        outcomes.len() >= attempts,
        forall|i: int| 0 <= i < k ==> !outcomes[i],
        outcomes[k as int],
    ensures
        run_invocations(attempts, outcomes) == k + 1,
        run_succeeds(attempts, outcomes),
        run_delays(attempts, outcomes) == k,
    decreases attempts,
{
    if k > 0 {
        let rest = outcomes.drop_first();
        assert(forall|i: int| 0 <= i < attempts - 1 ==> rest[i] == outcomes[i + 1]);
        lemma_success_after_failures((attempts - 1) as nat, rest, (k - 1) as nat);
    }
}

/// If the inner downloader succeeds on the first attempt, exactly one
/// invocation occurs and no delay is ever incurred.
pub proof fn lemma_first_attempt_success_incurs_no_delay(attempts: nat, outcomes: Seq<bool>)
    requires
        attempts >= 1,
        outcomes.len() >= 1,
        outcomes[0],
    ensures
        run_invocations(attempts, outcomes) == 1,
        run_succeeds(attempts, outcomes),
        run_delays(attempts, outcomes) == 0,
{
}

/// A run never invokes the inner downloader more than its policy's number
/// of attempts for a single request.
pub proof fn lemma_run_never_exceeds_attempts(run: RetryRun)
    requires
        run.wf(),
    ensures
        run.attempts_made() <= run.policy().attempts,
{
}

/// A finished run agrees with the run model: whatever outcomes the inner
/// downloader had in store beyond those consumed, the engine invoked it
/// exactly `run_invocations` times, its verdict is `run_succeeds`, and it
/// waited exactly `run_delays` times, one policy delay each.
pub proof fn lemma_finished_run_matches_model(run: RetryRun, outcomes: Seq<bool>)
    requires
        run.wf(),
        run.finished(),
        outcomes.len() >= run.policy().attempts,
        forall|i: int| 0 <= i < run.history().len() ==> outcomes[i] == run.history()[i],
    ensures
        run_invocations(run.policy().attempts as nat, outcomes) == run.attempts_made(),
        run_succeeds(run.policy().attempts as nat, outcomes) == run.history().last(),
        run_delays(run.policy().attempts as nat, outcomes) == run.attempts_made() - 1,
{
    lemma_complete_history_matches(run.policy().attempts as nat, run.history(), outcomes);
}

/// The run model, applied to any extension of a complete history, stops
/// where the history stops and with the history's verdict.
proof fn lemma_complete_history_matches(attempts: nat, history: Seq<bool>, outcomes: Seq<bool>)
    requires
        1 <= history.len() <= attempts,
        outcomes.len() >= attempts,
        forall|i: int| 0 <= i < history.len() - 1 ==> !history[i],
        history.last() || history.len() == attempts,
        forall|i: int| 0 <= i < history.len() ==> outcomes[i] == history[i],
    ensures
        run_invocations(attempts, outcomes) == history.len(),
        run_succeeds(attempts, outcomes) == history.last(),
        run_delays(attempts, outcomes) == history.len() - 1,
    decreases attempts,
{
    if history.len() == 1 {
        assert(outcomes[0] == history[0]);
        if !history[0] {
            assert(attempts == 1);
        }
    } else {
        assert(!history[0]);
        assert(!outcomes[0]);
        let rest_h = history.drop_first();
        let rest_o = outcomes.drop_first();
        assert(forall|i: int| 0 <= i < rest_h.len() ==> rest_h[i] == history[i + 1]);
        assert(forall|i: int| 0 <= i < attempts - 1 ==> rest_o[i] == outcomes[i + 1]);
        assert(rest_h.last() == history.last());
        lemma_complete_history_matches((attempts - 1) as nat, rest_h, rest_o);
    }
}

} // verus!
