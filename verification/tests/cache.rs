use authencore::aws_iot::{AwsCredentials, AwsCredentialsResponse};
use authencore::cache::{refresh_is_due, CredentialCache, DEFAULT_REFRESH_MARGIN_SECS};
use authencore::clock::Timestamp;
use authencore::error::Error;
use authencore::file_lock::{LockSession, Purpose, Reply, Request};

const EXPIRES: i64 = 1_704_067_200;

fn expiring(expiration: &str) -> AwsCredentialsResponse {
    AwsCredentialsResponse {
        credentials: AwsCredentials {
            access_key_id: "AKIAEXAMPLE".to_string(),
            secret_access_key: "secret".to_string(),
            session_token: "token".to_string(),
            expiration: expiration.to_string(),
        },
    }
}

fn run(purpose: Purpose, replies: &[Reply]) -> LockSession {
    let (mut session, _) = LockSession::start(purpose);
    for reply in replies {
        session.advance(*reply);
    }
    session
}

#[test]
fn cache_keeps_its_path() {
    let cache = CredentialCache::new("/var/cache/authencore/creds_cache.json");
    assert_eq!(cache.path(), "/var/cache/authencore/creds_cache.json");
}

#[test]
fn absent_file_reads_as_empty_cache() {
    let cache = CredentialCache::new("/tmp/creds_cache.json");
    let session = run(Purpose::Read, &[Reply::Absent]);
    assert_eq!(cache.read(&session, None, ""), Ok(None));
}

#[test]
fn malformed_json_reads_as_parse_failure() {
    let cache = CredentialCache::new("/tmp/creds_cache.json");
    let session = run(Purpose::Read, &[Reply::Done, Reply::Done, Reply::Done, Reply::Done, Reply::Done]);
    let outcome = cache.read(&session, Some("{ this is not json"), "");
    assert!(matches!(outcome, Err(Error::JsonParse(_))));
    let outcome = cache.read(&session, Some(""), "");
    assert!(matches!(outcome, Err(Error::JsonParse(_))));
    let outcome = cache.read(&session, Some("{\"credentials\":{}}"), "");
    assert_eq!(outcome, Err(Error::JsonParse("credentials are incomplete".to_string())));
}

#[test]
fn record_reads_as_credentials() {
    let cache = CredentialCache::new("/tmp/creds_cache.json");
    let session = run(Purpose::Read, &[Reply::Done, Reply::Done, Reply::Done, Reply::Done, Reply::Done]);
    let text = "{\"credentials\":{\"accessKeyId\":\"AKIAEXAMPLE\",\"secretAccessKey\":\"secret\",\"sessionToken\":\"token\",\"expiration\":\"2024-01-01T00:00:00Z\"}}";
    assert_eq!(cache.read(&session, Some(text), ""), Ok(Some(expiring("2024-01-01T00:00:00Z"))));
}

#[test]
fn written_record_is_read_back_unchanged() {
    let cache = CredentialCache::new("/tmp/creds_cache.json");
    let creds = AwsCredentialsResponse {
        credentials: AwsCredentials {
            access_key_id: "ASIA\"quoted\"".to_string(),
            secret_access_key: "back\\slash\n".to_string(),
            session_token: "\u{20ac}\u{1f600}".to_string(),
            expiration: "2031-05-06T07:08:09.123456789+02:00".to_string(),
        },
    };
    let stored = cache.write(&creds).unwrap();
    let wrote = run(Purpose::Write, &[Reply::Done, Reply::Done, Reply::Done, Reply::Done]);
    assert_eq!(cache.written(&wrote, ""), Ok(()));
    let read = run(Purpose::Read, &[Reply::Done, Reply::Done, Reply::Done, Reply::Done, Reply::Done]);
    assert_eq!(cache.read(&read, Some(&stored), ""), Ok(Some(creds)));
}

#[test]
fn failed_requests_read_as_cache_failures() {
    let cache = CredentialCache::new("/c/creds.json");
    let session = run(Purpose::Read, &[Reply::Done, Reply::Failed]);
    assert_eq!(
        cache.read(&session, None, "denied"),
        Err(Error::Cache("Failed to open cache file /c/creds.json: denied".to_string()))
    );
    let session = run(Purpose::Read, &[Reply::Done, Reply::Done, Reply::Failed]);
    assert_eq!(
        cache.read(&session, None, "busy"),
        Err(Error::Cache("Failed to acquire shared lock on cache file: busy".to_string()))
    );
    let session = run(Purpose::Read, &[Reply::Done, Reply::Done, Reply::Done, Reply::Failed, Reply::Done]);
    assert_eq!(
        cache.read(&session, None, "bad utf-8"),
        Err(Error::Cache("Failed to read cache file: bad utf-8".to_string()))
    );
    let session = run(Purpose::Read, &[Reply::Done, Reply::Done, Reply::Done, Reply::Done, Reply::Failed]);
    assert_eq!(
        cache.read(&session, Some("{}"), "gone"),
        Err(Error::Cache("Failed to release lock on cache file: gone".to_string()))
    );
}

#[test]
fn first_failure_is_the_one_reported() {
    let cache = CredentialCache::new("/c/creds.json");
    let session = run(Purpose::Read, &[Reply::Done, Reply::Done, Reply::Done, Reply::Failed, Reply::Failed]);
    assert_eq!(session.failed, Some(Request::ReadAll));
    assert_eq!(
        cache.read(&session, None, "short read"),
        Err(Error::Cache("Failed to read cache file: short read".to_string()))
    );
}

#[test]
fn read_without_content_is_a_cache_failure() {
    let cache = CredentialCache::new("/c/creds.json");
    let session = run(Purpose::Read, &[Reply::Done, Reply::Done, Reply::Done, Reply::Done, Reply::Done]);
    assert_eq!(
        cache.read(&session, None, "nothing was read"),
        Err(Error::Cache("Failed to read cache file: nothing was read".to_string()))
    );
}

#[test]
fn failed_requests_write_as_cache_failures() {
    let cache = CredentialCache::new("/c/creds.json");
    let session = run(Purpose::Write, &[Reply::Failed]);
    assert_eq!(
        cache.written(&session, "read-only"),
        Err(Error::Cache(
            "Failed to open cache file for writing /c/creds.json: read-only".to_string()
        ))
    );
    let session = run(Purpose::Write, &[Reply::Done, Reply::Failed]);
    assert_eq!(
        cache.written(&session, "busy"),
        Err(Error::Cache("Failed to acquire exclusive lock on cache file: busy".to_string()))
    );
    let session = run(Purpose::Write, &[Reply::Done, Reply::Done, Reply::Failed, Reply::Done]);
    assert_eq!(
        cache.written(&session, "disk full"),
        Err(Error::Cache("Failed to write to cache file /c/creds.json: disk full".to_string()))
    );
    let session = run(Purpose::Write, &[Reply::Done, Reply::Done, Reply::Done, Reply::Failed]);
    assert_eq!(
        cache.written(&session, "gone"),
        Err(Error::Cache("Failed to release lock on cache file: gone".to_string()))
    );
}

#[test]
fn every_request_has_its_failure_text() {
    let cache = CredentialCache::new("p");
    assert_eq!(
        cache.failure(Purpose::Read, Request::Probe, "r"),
        Error::Cache("Failed to find cache file p: r".to_string())
    );
    assert_eq!(
        cache.failure(Purpose::Update, Request::Open, "r"),
        Error::Cache("Failed to open cache file for writing p: r".to_string())
    );
    assert_eq!(
        cache.failure(Purpose::Read, Request::WriteAll, "r"),
        Error::Cache("Failed to write to cache file p: r".to_string())
    );
}

#[test]
fn refresh_is_due_within_the_margin() {
    let cache = CredentialCache::new("unused");
    let creds = expiring("2024-01-01T00:00:00Z");
    let at = |seconds: i64, nanos: u32| Timestamp::from_parts(EXPIRES + seconds, nanos);
    assert!(!cache.needs_refresh_at(&creds, 600, at(-3600, 0)));
    assert!(!cache.needs_refresh_at(&creds, 600, at(-601, 999_999_999)));
    assert!(cache.needs_refresh_at(&creds, 600, at(-600, 0)));
    assert!(cache.needs_refresh_at(&creds, 600, at(-1, 0)));
    assert!(cache.needs_refresh_at(&creds, 600, at(0, 0)));
    assert!(cache.needs_refresh_at(&creds, 600, at(86_400, 0)));
}

#[test]
fn margin_of_zero_refreshes_at_expiration() {
    let cache = CredentialCache::new("unused");
    let creds = expiring("2024-01-01T02:00:00+02:00");
    assert!(!cache.needs_refresh_at(&creds, 0, Timestamp::from_parts(EXPIRES - 1, 999_999_999)));
    assert!(cache.needs_refresh_at(&creds, 0, Timestamp::from_parts(EXPIRES, 0)));
}

#[test]
fn unparsable_expiration_is_always_due() {
    let cache = CredentialCache::new("unused");
    for text in ["", "soon", "2024-01-01", "1704067200"] {
        let creds = expiring(text);
        assert!(cache.needs_refresh_at(&creds, 600, Timestamp::from_parts(0, 0)));
        assert!(cache.needs_refresh_at(&creds, 0, Timestamp::from_nanos(i128::MIN)));
        assert!(cache.needs_refresh(&creds, 600));
    }
}

#[test]
fn refresh_by_the_system_clock() {
    let cache = CredentialCache::new("unused");
    assert!(cache.needs_refresh(&expiring("2001-01-01T00:00:00Z"), DEFAULT_REFRESH_MARGIN_SECS));
    assert!(!cache.needs_refresh(&expiring("9000-01-01T00:00:00Z"), DEFAULT_REFRESH_MARGIN_SECS));
}

#[test]
fn default_margin_is_ten_minutes() {
    assert_eq!(DEFAULT_REFRESH_MARGIN_SECS, 600);
}

#[test]
fn refresh_from_an_instant() {
    let now = Timestamp::from_parts(1_000, 0);
    assert!(refresh_is_due(None, 600, now));
    assert!(refresh_is_due(Some(Timestamp::from_parts(1_600, 0)), 600, now));
    assert!(!refresh_is_due(Some(Timestamp::from_parts(1_600, 1)), 600, now));
    assert!(refresh_is_due(Some(Timestamp::from_nanos(i128::MIN)), 0, now));
    assert!(!refresh_is_due(Some(Timestamp::from_nanos(i128::MAX)), u64::MAX, now));
}

#[test]
fn every_written_set_reads_back_with_its_four_texts() {
    let cache = CredentialCache::new("/tmp/creds_cache.json");
    let read = run(Purpose::Read, &[Reply::Done, Reply::Done, Reply::Done, Reply::Done, Reply::Done]);
    let texts = [
        "",
        "plain",
        "\"quoted\"",
        "back\\slash",
        "line\nfeed\r\ttab",
        "\u{0}\u{1}\u{1f}\u{7f}",
        "caf\u{e9} \u{20ac} \u{1f600}",
        "{\"credentials\":{}}",
        "\u{2028}\u{2029}/</script>",
    ];
    for (at, first) in texts.iter().enumerate() {
        let creds = AwsCredentialsResponse {
            credentials: AwsCredentials {
                access_key_id: first.to_string(),
                secret_access_key: texts[(at + 1) % texts.len()].to_string(),
                session_token: texts[(at + 2) % texts.len()].to_string(),
                expiration: texts[(at + 3) % texts.len()].to_string(),
            },
        };
        let stored = cache.write(&creds).unwrap();
        let found = cache.read(&read, Some(&stored), "").unwrap().unwrap();
        assert_eq!(found.credentials.access_key_id, creds.credentials.access_key_id);
        assert_eq!(found.credentials.secret_access_key, creds.credentials.secret_access_key);
        assert_eq!(found.credentials.session_token, creds.credentials.session_token);
        assert_eq!(found.credentials.expiration, creds.credentials.expiration);
    }
}

#[test]
fn written_content_is_the_record() {
    let cache = CredentialCache::new("/tmp/creds_cache.json");
    assert_eq!(
        cache.write(&expiring("2024-01-01T00:00:00Z")),
        Ok("{\"credentials\":{\"accessKeyId\":\"AKIAEXAMPLE\",\"secretAccessKey\":\"secret\",\"sessionToken\":\"token\",\"expiration\":\"2024-01-01T00:00:00Z\"}}".to_string())
    );
}
