//! The credential cache: one record in one file, read on every invocation and
//! replaced after every successful fetch.

use vstd::prelude::*;
use vstd::string::*;
use crate::aws_iot::{
    credentials_of_text,
    decode_credentials,
    encode_credentials,
    record_of,
    AwsCredentialsResponse,
    CredentialSet,
};
use crate::clock::{instant_of_text, Timestamp, NANOS_PER_SEC};
use crate::error::Error;
use crate::file_lock::{LockSession, Purpose, Request};

verus! {

/// The safety window before a credential's expiration in which it is
/// fetched anew, in seconds.
pub const DEFAULT_REFRESH_MARGIN_SECS: u64 = 600;

/// The cache, which owns the path of its one file.
#[derive(Clone, Debug, PartialEq, Eq)]
pub struct CredentialCache {
    path: String,
}

/// Whether credentials that expire at `expiration` are due for a refresh at
/// `now`: they are within `margin_seconds` of expiring, or past it, or the
/// instant they expire at is not known.
pub open spec fn refresh_due(expiration: Option<int>, margin_seconds: u64, now: int) -> bool {
    match expiration {
        Some(at) => now >= at - margin_seconds * NANOS_PER_SEC,
        None => true,
    }
}

/// The instant of a timestamp that may be there.
pub open spec fn instant_at(expiration: Option<Timestamp>) -> Option<int> {
    match expiration {
        Some(at) => Some(at@),
        None => None,
    }
}

/// Whether credentials are due for a refresh at `now`, given the instant they
/// expire at, or `None` where their expiration text denotes no instant.
pub fn refresh_is_due(expiration: Option<Timestamp>, margin_seconds: u64, now: Timestamp) -> (due:
    bool)
    ensures
        due == refresh_due(instant_at(expiration), margin_seconds, now@),
{
    match expiration {
        Some(at) => at.within_of(&now, margin_seconds),
        None => true,
    }
}

/// The content that is stored for a credential set: its record, as long as
/// the record reads back as the same set. A record that would not is not
/// stored.
pub open spec fn content_for(set: CredentialSet) -> Option<Seq<char>> {
    match record_of(set) {
        Some(text) => if credentials_of_text(text) == Some(set) {
            Some(text)
        } else {
            None
        },
        None => None,
    }
}

/// The credential set that is read from stored content; `None` where the
/// content is no record.
pub open spec fn set_in(content: Seq<char>) -> Option<CredentialSet> {
    credentials_of_text(content)
}

/// What a failed request on the cache file is reported as.
pub open spec fn failure_text(
    path: Seq<char>,
    purpose: Purpose,
    request: Request,
    reason: Seq<char>,
) -> Seq<char> {
    match request {
        Request::Probe => "Failed to find cache file "@ + path + ": "@ + reason,
        Request::Open => if purpose is Read {
            "Failed to open cache file "@ + path + ": "@ + reason
        } else {
            "Failed to open cache file for writing "@ + path + ": "@ + reason
        },
        Request::LockShared => "Failed to acquire shared lock on cache file: "@ + reason,
        Request::LockExclusive => "Failed to acquire exclusive lock on cache file: "@ + reason,
        Request::ReadAll => "Failed to read cache file: "@ + reason,
        Request::WriteAll => "Failed to write to cache file "@ + path + ": "@ + reason,
        Request::Unlock => "Failed to release lock on cache file: "@ + reason,
    }
}

/// An opening, the path, a colon, and the reason.
fn about_path(opening: &str, path: &str, reason: &str) -> (text: String)
    ensures
        text@ == opening@ + path@ + ": "@ + reason@,
{
    let mut text = String::from_str(opening);
    text.append(path);
    text.append(": ");
    text.append(reason);
    text
}

/// An opening and the reason.
fn about(opening: &str, reason: &str) -> (text: String)
    ensures
        text@ == opening@ + reason@,
{
    let mut text = String::from_str(opening);
    text.append(reason);
    text
}

impl CredentialCache {
    /// The path of the cache file.
    pub closed spec fn path_text(self) -> Seq<char> {
        self.path@
    }

    /// A cache on the file at `path`.
    pub fn new(path: &str) -> (cache: CredentialCache)
        ensures
            cache.path_text() == path@,
    {
        CredentialCache { path: String::from_str(path) }
    }

    /// The path of the cache file.
    pub fn path(&self) -> (path: &str)
        ensures
            path@ == self.path_text(),
    {
        self.path.as_str()
    }

    /// The failure that a request on the cache file is reported as, given
    /// the file system's reason.
    pub fn failure(&self, purpose: Purpose, request: Request, reason: &str) -> (failure: Error)
        ensures
            failure matches Error::Cache(text) && text@ == failure_text(
                self.path_text(),
                purpose,
                request,
                reason@,
            ),
    {
        let text = match request {
            Request::Probe => about_path("Failed to find cache file ", self.path.as_str(), reason),
            Request::Open => match purpose {
                Purpose::Read => about_path(
                    "Failed to open cache file ",
                    self.path.as_str(),
                    reason,
                ),
                _ => about_path(
                    "Failed to open cache file for writing ",
                    self.path.as_str(),
                    reason,
                ),
            },
            Request::LockShared => about("Failed to acquire shared lock on cache file: ", reason),
            Request::LockExclusive => about(
                "Failed to acquire exclusive lock on cache file: ",
                reason,
            ),
            Request::ReadAll => about("Failed to read cache file: ", reason),
            Request::WriteAll => about_path(
                "Failed to write to cache file ",
                self.path.as_str(),
                reason,
            ),
            Request::Unlock => about("Failed to release lock on cache file: ", reason),
        };
        Error::Cache(text)
    }

    /// What a finished read session amounts to. `content` is what was read,
    /// if anything was; `reason` is the file system's word on the first
    /// request that failed, if one did.
    ///
    /// A file that is not there is no failure: the cache is empty. A request
    /// that failed is a `Cache` failure. Content that is not a credential
    /// record is a `JsonParse` failure, and never an empty cache.
    pub fn read(&self, session: &LockSession, content: Option<&str>, reason: &str) -> (outcome:
        Result<Option<AwsCredentialsResponse>, Error>)
        ensures
            session.failed is Some ==> (outcome matches Err(Error::Cache(text)) && text@
                == failure_text(self.path_text(), Purpose::Read, session.failed->0, reason@)),
            session.failed is None && session.absent ==> outcome == Ok::<
                Option<AwsCredentialsResponse>,
                Error,
            >(None),
            session.failed is None && !session.absent && content is Some ==> {
                &&& outcome.is_ok() == set_in(content->0@).is_some()
                &&& outcome matches Ok(found) ==> found matches Some(response) && set_in(
                    content->0@,
                ) == Some(response@)
                &&& outcome matches Err(failure) ==> failure is JsonParse
            },
            session.failed is None && !session.absent && content is None ==> (outcome matches Err(
                Error::Cache(text),
            ) && text@ == failure_text(self.path_text(), Purpose::Read, Request::ReadAll, reason@)),
    {
        match session.failed {
            Some(request) => Err(self.failure(Purpose::Read, request, reason)),
            None => {
                if session.absent {
                    Ok(None)
                } else {
                    match content {
                        Some(text) => match decode_credentials(text) {
                            Ok(response) => Ok(Some(response)),
                            Err(failure) => Err(failure),
                        },
                        None => Err(self.failure(Purpose::Read, Request::ReadAll, reason)),
                    }
                }
            },
        }
    }

    /// The content to store for `creds`. It is made in full before the file
    /// is touched, and read back: content that would not read back as `creds`
    /// is a `JsonParse` failure, and no write session begins.
    pub fn write(&self, creds: &AwsCredentialsResponse) -> (outcome: Result<String, Error>)
        ensures
            outcome.is_ok() == content_for(creds@).is_some(),
            outcome matches Ok(text) ==> content_for(creds@) == Some(text@),
            outcome matches Ok(text) ==> record_of(creds@) == Some(text@) && set_in(text@)
                == Some(creds@),
            outcome matches Err(failure) ==> failure is JsonParse,
    {
        let text = match encode_credentials(creds) {
            Ok(text) => text,
            Err(failure) => { return Err(failure); },
        };
        match decode_credentials(text.as_str()) {
            Ok(read) => {
                if read.credentials.same_as(&creds.credentials) {
                    Ok(text)
                } else {
                    Err(
                        Error::JsonParse(
                            String::from_str("credentials would not read back as written"),
                        ),
                    )
                }
            },
            Err(failure) => Err(failure),
        }
    }

    /// What a finished write session amounts to: success, or the `Cache`
    /// failure of the first request that failed, with the file system's word
    /// on it.
    pub fn written(&self, session: &LockSession, reason: &str) -> (outcome: Result<(), Error>)
        ensures
            session.failed is None ==> outcome is Ok,
            session.failed is Some ==> (outcome matches Err(Error::Cache(text)) && text@
                == failure_text(self.path_text(), Purpose::Write, session.failed->0, reason@)),
    {
        match session.failed {
            Some(request) => Err(self.failure(Purpose::Write, request, reason)),
            None => Ok(()),
        }
    }

    /// Whether `creds` are due for a refresh at `now`: their expiration is
    /// no more than `margin_seconds` away, or lies in the past, or is no
    /// RFC 3339 text.
    pub fn needs_refresh_at(
        &self,
        creds: &AwsCredentialsResponse,
        margin_seconds: u64,
        now: Timestamp,
    ) -> (due: bool)
        ensures
            due == refresh_due(instant_of_text(creds@.expiration), margin_seconds, now@),
    {
        let expiration = Timestamp::parse(creds.credentials.expiration.as_str());
        refresh_is_due(expiration, margin_seconds, now)
    }

    /// Whether `creds` are due for a refresh by the system clock. What the
    /// clock says is not known here; the answer is the one that
    /// `needs_refresh_at` gives for the instant that the clock gave.
    pub fn needs_refresh(&self, creds: &AwsCredentialsResponse, margin_seconds: u64) -> (due: bool)
        ensures
            instant_of_text(creds@.expiration) is None ==> due,
            exists|now: Timestamp|
                now.clock_reading() && due == refresh_due(
                    instant_of_text(creds@.expiration),
                    margin_seconds,
                    now@,
                ),
    {
        let now = Timestamp::now();
        self.needs_refresh_at(creds, margin_seconds, now)
    }
}

/// What was written is what is read: the content that `write` hands out
/// for a credential set is content in which `read` finds that very set, its
/// four texts unchanged.
pub proof fn lemma_written_record_reads_back(written: CredentialSet, content: Seq<char>)
    requires
        content_for(written) == Some(content),
    ensures
        set_in(content) == Some(written),
        set_in(content)->0.access_key_id == written.access_key_id,
        set_in(content)->0.secret_access_key == written.secret_access_key,
        set_in(content)->0.session_token == written.session_token,
        set_in(content)->0.expiration == written.expiration,
{
}

} // verus!
