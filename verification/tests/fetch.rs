use authencore::aws_iot::{AwsCredentials, AwsCredentialsResponse};
use authencore::cache::CredentialCache;
use authencore::clock::Timestamp;
use authencore::error::Error;
use authencore::fetch::{
    fresh_from_cache, is_success, on_reply, AttemptOutcome, BreakerFeedback, FetchStep, NextMove,
    RetryPolicy, RetrySession, TransportReply, INITIAL_BACKOFF_SECS, MAX_ATTEMPTS,
    REQUEST_TIMEOUT_SECS,
};

const URL: &str = "https://host/role-aliases/role/credentials";
const BODY: &str = "{\"credentials\":{\"accessKeyId\":\"AKIAEXAMPLE\",\"secretAccessKey\":\"secret\",\"sessionToken\":\"token\",\"expiration\":\"2024-01-01T00:00:00Z\"}}";

fn sample() -> AwsCredentialsResponse {
    AwsCredentialsResponse {
        credentials: AwsCredentials {
            access_key_id: "AKIAEXAMPLE".to_string(),
            secret_access_key: "secret".to_string(),
            session_token: "token".to_string(),
            expiration: "2024-01-01T00:00:00Z".to_string(),
        },
    }
}

fn unreachable_host() -> TransportReply {
    TransportReply::Failure { reason: "connection refused".to_string() }
}

#[test]
fn standard_policy_is_three_calls_from_one_second() {
    assert_eq!(MAX_ATTEMPTS, 3);
    assert_eq!(INITIAL_BACKOFF_SECS, 1);
    assert_eq!(REQUEST_TIMEOUT_SECS, 15);
    assert_eq!(RetryPolicy::standard(), RetryPolicy { max_attempts: 3, initial_delay_secs: 1 });
}

#[test]
fn refused_fetch_makes_no_call() {
    assert_eq!(
        RetrySession::begin(false, RetryPolicy::standard()),
        Err(Error::CircuitBreakerOpen)
    );
}

#[test]
fn allowed_fetch_begins_without_calls() {
    assert_eq!(
        RetrySession::begin(true, RetryPolicy::standard()),
        Ok(RetrySession { max_attempts: 3, attempts: 0, delay_secs: 1, finished: false })
    );
}

#[test]
fn failing_fetch_makes_three_calls_and_pauses_one_then_two_seconds() {
    let mut session = RetrySession::begin(true, RetryPolicy::standard()).unwrap();
    let mut calls = 0;
    let mut pauses = Vec::new();
    let last = loop {
        calls += 1;
        match on_reply(&mut session, URL, unreachable_host()) {
            FetchStep::Retry { delay_secs, failure } => {
                assert_eq!(failure, Error::HttpClient("connection refused".to_string()));
                pauses.push(delay_secs);
            }
            other => break other,
        }
    };
    assert_eq!(calls, 3);
    assert_eq!(pauses, vec![1, 2]);
    assert_eq!(pauses.iter().sum::<u64>(), 3);
    assert_eq!(
        last,
        FetchStep::Failed {
            failure: Error::HttpClient("connection refused".to_string()),
            breaker_failure: true
        }
    );
    assert!(session.finished);
    assert_eq!(session.attempts, 3);
}

#[test]
fn last_failure_is_the_one_reported() {
    let mut session = RetrySession::begin(true, RetryPolicy::standard()).unwrap();
    on_reply(&mut session, URL, unreachable_host());
    on_reply(&mut session, URL, TransportReply::Answer { status: 500, body: String::new() });
    let last = on_reply(
        &mut session,
        URL,
        TransportReply::Answer { status: 403, body: "forbidden".to_string() },
    );
    assert_eq!(
        last,
        FetchStep::Failed {
            failure: Error::CredentialsRequest { url: URL.to_string(), status: 403 },
            breaker_failure: true
        }
    );
}

#[test]
fn pauses_double_with_every_failure() {
    let policy = RetryPolicy { max_attempts: 6, initial_delay_secs: 3 };
    let mut session = RetrySession::begin(true, policy).unwrap();
    let mut pauses = Vec::new();
    loop {
        match session.record(AttemptOutcome::Retryable) {
            NextMove::RetryAfter(seconds) => pauses.push(seconds),
            NextMove::GiveUp => break,
            NextMove::Deliver => panic!("a failure delivers nothing"),
        }
    }
    assert_eq!(pauses, vec![3, 6, 12, 24, 48]);
    assert_eq!(session.attempts, 6);
}

#[test]
fn pause_stops_growing_at_its_largest_value() {
    let policy = RetryPolicy { max_attempts: 4, initial_delay_secs: u64::MAX / 2 + 1 };
    let mut session = RetrySession::begin(true, policy).unwrap();
    assert_eq!(session.record(AttemptOutcome::Retryable), NextMove::RetryAfter(u64::MAX / 2 + 1));
    assert_eq!(session.record(AttemptOutcome::Retryable), NextMove::RetryAfter(u64::MAX));
    assert_eq!(session.record(AttemptOutcome::Retryable), NextMove::RetryAfter(u64::MAX));
    assert_eq!(session.record(AttemptOutcome::Retryable), NextMove::GiveUp);
}

#[test]
fn policy_without_calls_still_makes_one() {
    let policy = RetryPolicy { max_attempts: 0, initial_delay_secs: 1 };
    let mut session = RetrySession::begin(true, policy).unwrap();
    assert_eq!(session.record(AttemptOutcome::Retryable), NextMove::GiveUp);
    assert_eq!(session.attempts, 1);
}

#[test]
fn success_ends_the_fetch_with_credentials() {
    let mut session = RetrySession::begin(true, RetryPolicy::standard()).unwrap();
    let step = on_reply(
        &mut session,
        URL,
        TransportReply::Answer { status: 200, body: BODY.to_string() },
    );
    assert_eq!(step, FetchStep::Succeeded(sample()));
    assert!(session.finished);
    assert_eq!(session.attempts, 1);
}

#[test]
fn success_after_a_failure_ends_the_fetch() {
    let mut session = RetrySession::begin(true, RetryPolicy::standard()).unwrap();
    let step = on_reply(&mut session, URL, TransportReply::Answer { status: 503, body: String::new() });
    assert_eq!(
        step,
        FetchStep::Retry {
            delay_secs: 1,
            failure: Error::CredentialsRequest { url: URL.to_string(), status: 503 }
        }
    );
    let step = on_reply(
        &mut session,
        URL,
        TransportReply::Answer { status: 201, body: BODY.to_string() },
    );
    assert_eq!(step, FetchStep::Succeeded(sample()));
    assert_eq!(session.attempts, 2);
}

#[test]
fn unreadable_body_ends_the_fetch_without_blaming_the_endpoint() {
    let mut session = RetrySession::begin(true, RetryPolicy::standard()).unwrap();
    let step = on_reply(
        &mut session,
        URL,
        TransportReply::Answer { status: 200, body: "<html>".to_string() },
    );
    assert!(matches!(
        step,
        FetchStep::Failed { failure: Error::JsonParse(_), breaker_failure: false }
    ));
    assert!(session.finished);
    assert_eq!(session.attempts, 1);
}

#[test]
fn finished_fetch_retries_no_more() {
    let mut session = RetrySession::begin(true, RetryPolicy::standard()).unwrap();
    session.record(AttemptOutcome::Success);
    let before = session;
    assert_eq!(session.record(AttemptOutcome::Retryable), NextMove::GiveUp);
    assert_eq!(session, before);
}

#[test]
fn success_statuses_are_200_to_299() {
    assert!(!is_success(0));
    assert!(!is_success(199));
    assert!(is_success(200));
    assert!(is_success(204));
    assert!(is_success(299));
    assert!(!is_success(300));
    assert!(!is_success(404));
    assert!(!is_success(u16::MAX));
}

#[test]
fn cached_credentials_are_used_while_fresh() {
    let cache = CredentialCache::new("unused");
    let expires = 1_704_067_200;
    let early = Timestamp::from_parts(expires - 601, 0);
    let late = Timestamp::from_parts(expires - 600, 0);
    assert_eq!(fresh_from_cache(&cache, Some(sample()), 600, early), Some(sample()));
    assert_eq!(fresh_from_cache(&cache, Some(sample()), 600, late), None);
    assert_eq!(fresh_from_cache(&cache, None, 600, early), None);
    let mut broken = sample();
    broken.credentials.expiration = "never".to_string();
    assert_eq!(fresh_from_cache(&cache, Some(broken), 600, early), None);
}

#[test]
fn breaker_hears_of_every_call_that_says_something() {
    let failure = Error::HttpClient("timeout".to_string());
    let retry = FetchStep::Retry { delay_secs: 1, failure: failure.clone() };
    assert_eq!(retry.breaker_feedback(), BreakerFeedback::Failure);
    assert!(!retry.updates_cache());
    let failed = FetchStep::Failed { failure: failure.clone(), breaker_failure: true };
    assert_eq!(failed.breaker_feedback(), BreakerFeedback::Failure);
    assert!(!failed.updates_cache());
    let unreadable = FetchStep::Failed { failure, breaker_failure: false };
    assert_eq!(unreadable.breaker_feedback(), BreakerFeedback::Nothing);
    assert!(!unreadable.updates_cache());
    let succeeded = FetchStep::Succeeded(sample());
    assert_eq!(succeeded.breaker_feedback(), BreakerFeedback::Success);
    assert!(succeeded.updates_cache());
}

#[test]
fn failing_fetch_tells_the_breaker_three_times_and_stores_nothing() {
    let mut session = RetrySession::begin(true, RetryPolicy::standard()).unwrap();
    let mut told = Vec::new();
    loop {
        let step = on_reply(&mut session, URL, unreachable_host());
        told.push(step.breaker_feedback());
        assert!(!step.updates_cache());
        if !matches!(step, FetchStep::Retry { .. }) {
            break;
        }
    }
    assert_eq!(told, vec![BreakerFeedback::Failure; 3]);
}
