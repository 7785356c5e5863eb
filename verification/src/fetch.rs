//! Fetching credentials: the cache first, then the breaker, then a bounded
//! number of calls with a growing pause between them.
//!
//! The calls themselves are made elsewhere. A `RetrySession` is told how each
//! call went and says what comes next.

use vstd::prelude::*;
use vstd::string::*;
use crate::aws_iot::{credentials_of_text, decode_credentials, AwsCredentialsResponse};
use crate::cache::{refresh_due, CredentialCache};
use crate::circuit_breaker::bumped;
use crate::clock::{instant_of_text, Timestamp};
use crate::error::Error;

verus! {

/// Calls made for one fetch, at most.
pub const MAX_ATTEMPTS: u32 = 3;

/// The pause after the first failed call, in seconds. Each later pause is
/// twice the one before.
pub const INITIAL_BACKOFF_SECS: u64 = 1;

/// The time that one call may take in all, in seconds.
pub const REQUEST_TIMEOUT_SECS: u64 = 15;

/// How many calls a fetch may make, and how long it pauses after the first
/// failure.
#[derive(Clone, Copy, Debug, PartialEq, Eq, Structural)]
pub struct RetryPolicy {
    pub max_attempts: u32,
    pub initial_delay_secs: u64,
}

/// How one call went.
#[derive(Clone, Copy, Debug, PartialEq, Eq, Structural)]
pub enum AttemptOutcome {
    /// A success status, and a body that holds credentials.
    Success,
    /// No answer, or an answer with a status that is not a success.
    Retryable,
    /// A success status with a body that holds no credentials.
    Fatal,
}

/// What follows a call.
#[derive(Clone, Copy, Debug, PartialEq, Eq, Structural)]
pub enum NextMove {
    /// Pause for so many seconds, then call again.
    RetryAfter(u64),
    /// Hand out the credentials.
    Deliver,
    /// Report the failure of the last call.
    GiveUp,
}

/// The calls of one fetch so far.
#[derive(Clone, Copy, Debug, PartialEq, Eq, Structural)]
pub struct RetrySession {
    pub max_attempts: u32,
    /// Calls made so far.
    pub attempts: u32,
    /// The pause before the next call, should this one fail.
    pub delay_secs: u64,
    /// Whether the fetch is over.
    pub finished: bool,
}

/// Twice a pause, held at the largest value it can take.
pub open spec fn doubled(delay_secs: u64) -> u64 {
    if delay_secs * 2 <= u64::MAX {
        (delay_secs * 2) as u64
    } else {
        u64::MAX
    }
}

/// The sum of `gaps` pauses, of which the first is `delay_secs` and each
/// later one twice the one before.
pub open spec fn backoff_sum(delay_secs: u64, gaps: nat) -> nat
    decreases gaps,
{
    if gaps == 0 {
        0
    } else {
        delay_secs as nat + backoff_sum(doubled(delay_secs), (gaps - 1) as nat)
    }
}

impl RetrySession {
    /// A fetch before its first call.
    pub open spec fn started(policy: RetryPolicy) -> RetrySession {
        RetrySession {
            max_attempts: policy.max_attempts,
            attempts: 0,
            delay_secs: policy.initial_delay_secs,
            finished: false,
        }
    }

    /// What follows a call that went as `outcome` says.
    pub open spec fn move_after(self, outcome: AttemptOutcome) -> NextMove {
        match outcome {
            AttemptOutcome::Success => NextMove::Deliver,
            AttemptOutcome::Fatal => NextMove::GiveUp,
            AttemptOutcome::Retryable => if self.finished || self.attempts + 1
                >= self.max_attempts {
                NextMove::GiveUp
            } else {
                NextMove::RetryAfter(self.delay_secs)
            },
        }
    }

    /// The fetch after a call that went as `outcome` says.
    pub open spec fn after(self, outcome: AttemptOutcome) -> RetrySession {
        if self.finished {
            self
        } else if self.move_after(outcome) is RetryAfter {
            RetrySession {
                attempts: bumped(self.attempts),
                delay_secs: doubled(self.delay_secs),
                ..self
            }
        } else {
            RetrySession { attempts: bumped(self.attempts), finished: true, ..self }
        }
    }

    /// The calls that a fetch makes while `outcomes` say how they go, one
    /// after the other, until the fetch is over.
    pub open spec fn calls_made(self, outcomes: Seq<AttemptOutcome>) -> nat
        decreases outcomes.len(),
    {
        if self.finished || outcomes.len() == 0 {
            0
        } else {
            1 + self.after(outcomes.first()).calls_made(outcomes.drop_first())
        }
    }

    /// The seconds that a fetch pauses in all while `outcomes` say how its
    /// calls go.
    pub open spec fn seconds_paused(self, outcomes: Seq<AttemptOutcome>) -> nat
        decreases outcomes.len(),
    {
        if self.finished || outcomes.len() == 0 {
            0
        } else {
            let pause: nat = match self.move_after(outcomes.first()) {
                NextMove::RetryAfter(seconds) => seconds as nat,
                _ => 0,
            };
            pause + self.after(outcomes.first()).seconds_paused(outcomes.drop_first())
        }
    }

    /// The fetch after its calls went as `outcomes` say, one after the other.
    pub open spec fn after_all(self, outcomes: Seq<AttemptOutcome>) -> RetrySession
        decreases outcomes.len(),
    {
        if outcomes.len() == 0 {
            self
        } else {
            self.after(outcomes.first()).after_all(outcomes.drop_first())
        }
    }

    /// Begins a fetch, unless the breaker refuses it: a refused fetch makes
    /// no call at all and fails with `CircuitBreakerOpen`.
    pub fn begin(allowed: bool, policy: RetryPolicy) -> (begun: Result<RetrySession, Error>)
        ensures
            allowed ==> begun == Ok::<RetrySession, Error>(RetrySession::started(policy)),
            !allowed ==> begun == Err::<RetrySession, Error>(Error::CircuitBreakerOpen),
    {
        if allowed {
            Ok(
                RetrySession {
                    max_attempts: policy.max_attempts,
                    attempts: 0,
                    delay_secs: policy.initial_delay_secs,
                    finished: false,
                },
            )
        } else {
            Err(Error::CircuitBreakerOpen)
        }
    }

    /// Takes note of how a call went and says what follows. A failure that
    /// can be retried is followed by a pause and another call while calls are
    /// left; each pause is twice the one before.
    pub fn record(&mut self, outcome: AttemptOutcome) -> (next: NextMove)
        ensures
            next == old(self).move_after(outcome),
            *final(self) == old(self).after(outcome),
    {
        let next = match outcome {
            AttemptOutcome::Success => NextMove::Deliver,
            AttemptOutcome::Fatal => NextMove::GiveUp,
            AttemptOutcome::Retryable => {
                if self.finished || self.attempts.saturating_add(1) >= self.max_attempts {
                    NextMove::GiveUp
                } else {
                    NextMove::RetryAfter(self.delay_secs)
                }
            },
        };
        if !self.finished {
            self.attempts = self.attempts.saturating_add(1);
            match next {
                NextMove::RetryAfter(_) => {
                    self.delay_secs = self.delay_secs.saturating_add(self.delay_secs);
                },
                _ => {
                    self.finished = true;
                },
            }
        }
        next
    }
}

impl RetryPolicy {
    /// Three calls, with pauses of one and two seconds between them.
    pub fn standard() -> (policy: RetryPolicy)
        ensures
            policy.max_attempts == MAX_ATTEMPTS,
            policy.initial_delay_secs == INITIAL_BACKOFF_SECS,
    {
        RetryPolicy { max_attempts: MAX_ATTEMPTS, initial_delay_secs: INITIAL_BACKOFF_SECS }
    }
}

/// What came back from one call to the endpoint.
#[derive(Clone, Debug, PartialEq, Eq)]
pub enum TransportReply {
    /// The endpoint answered.
    Answer { status: u16, body: String },
    /// No answer came: no connection, no TLS session, or a timeout.
    Failure { reason: String },
}

/// What a fetch does after a call.
#[derive(Clone, Debug, PartialEq, Eq)]
pub enum FetchStep {
    /// The call failed and another follows: a failure goes on the breaker's
    /// record, then comes a pause of `delay_secs` seconds, then the next call.
    Retry { delay_secs: u64, failure: Error },
    /// The fetch is over and has credentials: a success goes on the breaker's
    /// record, the credentials go into the cache and to the caller.
    Succeeded(AwsCredentialsResponse),
    /// The fetch is over and has failed: a failure goes on the breaker's
    /// record where `breaker_failure` says so, and the cache stays as it is.
    Failed { failure: Error, breaker_failure: bool },
}

/// What the breaker is told after a call.
#[derive(Clone, Copy, Debug, PartialEq, Eq, Structural)]
pub enum BreakerFeedback {
    /// The call succeeded.
    Success,
    /// The call failed in a way that counts against the endpoint.
    Failure,
    /// Nothing: the call says nothing of the endpoint's health.
    Nothing,
}

impl FetchStep {
    /// What the breaker is told when a fetch takes this step: every call
    /// that ends in a retry or in a failure of the transport or the status
    /// is a failure, the call that brought credentials is a success.
    pub open spec fn feedback(self) -> BreakerFeedback {
        match self {
            FetchStep::Retry { .. } => BreakerFeedback::Failure,
            FetchStep::Succeeded(_) => BreakerFeedback::Success,
            FetchStep::Failed { breaker_failure, .. } => if breaker_failure {
                BreakerFeedback::Failure
            } else {
                BreakerFeedback::Nothing
            },
        }
    }

    /// Whether credentials go into the cache with this step: only with the
    /// one that has them. A fetch that fails leaves the cache as it is.
    pub open spec fn stores(self) -> bool {
        self is Succeeded
    }

    /// What the breaker is to be told with this step.
    pub fn breaker_feedback(&self) -> (told: BreakerFeedback)
        ensures
            told == self.feedback(),
    {
        match self {
            FetchStep::Retry { delay_secs: _, failure: _ } => BreakerFeedback::Failure,
            FetchStep::Succeeded(_) => BreakerFeedback::Success,
            FetchStep::Failed { failure: _, breaker_failure } => {
                if *breaker_failure {
                    BreakerFeedback::Failure
                } else {
                    BreakerFeedback::Nothing
                }
            },
        }
    }

    /// Whether the cache is to take the credentials of this step.
    pub fn updates_cache(&self) -> (stored: bool)
        ensures
            stored == self.stores(),
    {
        match self {
            FetchStep::Succeeded(_) => true,
            _ => false,
        }
    }
}

/// Whether a status is one of success.
pub open spec fn success_status(status: u16) -> bool {
    200 <= status < 300
}

/// How a call went, by what came back.
pub open spec fn classified(reply: TransportReply) -> AttemptOutcome {
    match reply {
        TransportReply::Failure { .. } => AttemptOutcome::Retryable,
        TransportReply::Answer { status, body } => if !success_status(status) {
            AttemptOutcome::Retryable
        } else if credentials_of_text(body@) is Some {
            AttemptOutcome::Success
        } else {
            AttemptOutcome::Fatal
        },
    }
}

/// Whether a failure is the one that `reply` stands for, on a call to `url`.
pub open spec fn failure_of(reply: TransportReply, url: Seq<char>, failure: Error) -> bool {
    match reply {
        TransportReply::Failure { reason } => failure == Error::HttpClient(reason),
        TransportReply::Answer { status, body } => if !success_status(status) {
            failure matches Error::CredentialsRequest { url: called, status: answered }
                && called@ == url && answered == status
        } else {
            failure is JsonParse
        },
    }
}

/// Whether a status is one of success: 200 to 299.
pub fn is_success(status: u16) -> (success: bool)
    ensures
        success == success_status(status),
{
    200 <= status && status < 300
}

/// The cached credentials, where they can still be used at `now`: there is a
/// record, and it is not due for a refresh. Then the fetch is over before it
/// began: no call is made and the breaker is not asked.
pub fn fresh_from_cache(
    cache: &CredentialCache,
    found: Option<AwsCredentialsResponse>,
    margin_seconds: u64,
    now: Timestamp,
) -> (kept: Option<AwsCredentialsResponse>)
    ensures
        kept is Some ==> kept == found,
        kept is Some <==> found is Some && !refresh_due(
            instant_of_text(found->0@.expiration),
            margin_seconds,
            now@,
        ),
{
    match found {
        Some(response) => {
            if cache.needs_refresh_at(&response, margin_seconds, now) {
                None
            } else {
                Some(response)
            }
        },
        None => None,
    }
}

/// Takes what came back from a call to `url` and says what the fetch does
/// next.
///
/// An answer with a success status and credentials in its body ends the
/// fetch well. No answer, or an answer with another status, counts against
/// the breaker, and is followed by a pause and another call while calls are
/// left. An answer with a success status whose body holds no credentials
/// ends the fetch at once: it is not tried again, and does not count against
/// the breaker, since the endpoint did answer.
pub fn on_reply(session: &mut RetrySession, url: &str, reply: TransportReply) -> (step: FetchStep)
    ensures
        *final(session) == old(session).after(classified(reply)),
        step.feedback() == match classified(reply) {
            AttemptOutcome::Success => BreakerFeedback::Success,
            AttemptOutcome::Retryable => BreakerFeedback::Failure,
            AttemptOutcome::Fatal => BreakerFeedback::Nothing,
        },
        step.stores() == (classified(reply) is Success),
        match old(session).move_after(classified(reply)) {
            NextMove::RetryAfter(seconds) => step matches FetchStep::Retry { delay_secs, failure }
                && delay_secs == seconds && failure_of(reply, url@, failure),
            NextMove::Deliver => step matches FetchStep::Succeeded(response) && reply matches TransportReply::Answer {
                body,
                ..
            } && credentials_of_text(body@) == Some(response@),
            NextMove::GiveUp => step matches FetchStep::Failed { failure, breaker_failure }
                && failure_of(reply, url@, failure) && breaker_failure == (classified(reply)
                is Retryable),
        },
{
    match reply {
        TransportReply::Failure { reason } => {
            let failure = Error::HttpClient(reason);
            match session.record(AttemptOutcome::Retryable) {
                NextMove::RetryAfter(delay_secs) => FetchStep::Retry { delay_secs, failure },
                _ => FetchStep::Failed { failure, breaker_failure: true },
            }
        },
        TransportReply::Answer { status, body } => {
            if !is_success(status) {
                let failure = Error::CredentialsRequest { url: String::from_str(url), status };
                match session.record(AttemptOutcome::Retryable) {
                    NextMove::RetryAfter(delay_secs) => FetchStep::Retry { delay_secs, failure },
                    _ => FetchStep::Failed { failure, breaker_failure: true },
                }
            } else {
                match decode_credentials(body.as_str()) {
                    Ok(response) => {
                        let _ = session.record(AttemptOutcome::Success);
                        FetchStep::Succeeded(response)
                    },
                    Err(failure) => {
                        let _ = session.record(AttemptOutcome::Fatal);
                        FetchStep::Failed { failure, breaker_failure: false }
                    },
                }
            }
        },
    }
}

/// While every call fails in a way that can be retried, a fetch goes on
/// until its calls are used up: it makes each call that is left, and pauses
/// after each but the last, each pause twice the one before.
pub proof fn lemma_failing_fetch(session: RetrySession, outcomes: Seq<AttemptOutcome>)
    requires
        !session.finished,
        session.attempts < session.max_attempts,
        outcomes.len() >= session.max_attempts - session.attempts,
        forall|i: int|
            0 <= i < session.max_attempts - session.attempts ==> outcomes[i] is Retryable,
    ensures
        session.calls_made(outcomes) == session.max_attempts - session.attempts,
        session.seconds_paused(outcomes) == backoff_sum(
            session.delay_secs,
            (session.max_attempts - session.attempts - 1) as nat,
        ),
        session.after_all(outcomes).finished,
    decreases outcomes.len(),
{
    let next = session.after(outcomes.first());
    let rest = outcomes.drop_first();
    if session.attempts + 1 < session.max_attempts {
        assert forall|i: int| 0 <= i < next.max_attempts - next.attempts implies rest[i]
            is Retryable by {
            assert(rest[i] == outcomes[i + 1]);
        }
        lemma_failing_fetch(next, rest);
    } else {
        lemma_finished_stays(next, rest);
    }
}

/// A fetch that is over stays over and makes no further call.
pub proof fn lemma_finished_stays(session: RetrySession, outcomes: Seq<AttemptOutcome>)
    requires
        session.finished,
    ensures
        session.after_all(outcomes) == session,
        session.calls_made(outcomes) == 0,
        session.seconds_paused(outcomes) == 0,
    decreases outcomes.len(),
{
    if outcomes.len() > 0 {
        lemma_finished_stays(session, outcomes.drop_first());
    }
}

/// A fetch whose calls all fail makes exactly as many calls as the policy
/// allows, and with the standard policy pauses for one second and then for
/// two, three seconds in all, before it reports the failure.
pub proof fn lemma_failing_fetch_standard(policy: RetryPolicy, outcomes: Seq<AttemptOutcome>)
    requires
        policy.max_attempts >= 1,
        outcomes.len() >= policy.max_attempts,
        forall|i: int| 0 <= i < policy.max_attempts ==> outcomes[i] is Retryable,
    ensures
        RetrySession::started(policy).calls_made(outcomes) == policy.max_attempts,
        RetrySession::started(policy).seconds_paused(outcomes) == backoff_sum(
            policy.initial_delay_secs,
            (policy.max_attempts - 1) as nat,
        ),
        RetrySession::started(policy).after_all(outcomes).finished,
        policy.max_attempts == MAX_ATTEMPTS && policy.initial_delay_secs == INITIAL_BACKOFF_SECS
            ==> RetrySession::started(policy).seconds_paused(outcomes) == 1 + 2,
{
    lemma_failing_fetch(RetrySession::started(policy), outcomes);
    reveal_with_fuel(backoff_sum, 3);
}

} // verus!
