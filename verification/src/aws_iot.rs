//! The credential set that the endpoint issues, and its three texts: the
//! record kept in the cache file, the body of the endpoint's answer, and the
//! line handed to the consuming SDK.

use vstd::prelude::*;
use vstd::string::*;
use crate::error::Error;
use crate::json::{json_parsed, json_quoted, json_string_at, parse_document, quote, string_at};
use crate::text::text_of;

verus! {

/// Short-lived credentials: key identifier, secret key, session token, and
/// the instant they expire at, as an RFC 3339 text.
#[derive(Clone, Debug, PartialEq, Eq)]
pub struct AwsCredentials {
    pub access_key_id: String,
    pub secret_access_key: String,
    pub session_token: String,
    pub expiration: String,
}

/// The endpoint's answer, and the cache's record: one credential set.
#[derive(Clone, Debug, PartialEq, Eq)]
pub struct AwsCredentialsResponse {
    pub credentials: AwsCredentials,
}

/// A credential set as four texts.
pub struct CredentialSet {
    pub access_key_id: Seq<char>,
    pub secret_access_key: Seq<char>,
    pub session_token: Seq<char>,
    pub expiration: Seq<char>,
}

impl View for AwsCredentials {
    type V = CredentialSet;

    open spec fn view(&self) -> CredentialSet {
        CredentialSet {
            access_key_id: self.access_key_id@,
            secret_access_key: self.secret_access_key@,
            session_token: self.session_token@,
            expiration: self.expiration@,
        }
    }
}

impl View for AwsCredentialsResponse {
    type V = CredentialSet;

    open spec fn view(&self) -> CredentialSet {
        self.credentials@
    }
}

/// The credential set that four members make. All four must be there.
pub open spec fn assembled(
    access_key_id: Option<Seq<char>>,
    secret_access_key: Option<Seq<char>>,
    session_token: Option<Seq<char>>,
    expiration: Option<Seq<char>>,
) -> Option<CredentialSet> {
    if access_key_id is Some && secret_access_key is Some && session_token is Some
        && expiration is Some {
        Some(
            CredentialSet {
                access_key_id: access_key_id->0,
                secret_access_key: secret_access_key->0,
                session_token: session_token->0,
                expiration: expiration->0,
            },
        )
    } else {
        None
    }
}

/// The credential set that a document holds: an object `credentials` with the
/// string members `accessKeyId`, `secretAccessKey`, `sessionToken` and
/// `expiration`. Other members are passed over.
pub open spec fn credentials_in(document: serde_json::Value) -> Option<CredentialSet> {
    assembled(
        json_string_at(document, "/credentials/accessKeyId"@),
        json_string_at(document, "/credentials/secretAccessKey"@),
        json_string_at(document, "/credentials/sessionToken"@),
        json_string_at(document, "/credentials/expiration"@),
    )
}

/// The credential set that a text holds, where the text is JSON of that
/// shape.
pub open spec fn credentials_of_text(text: Seq<char>) -> Option<CredentialSet> {
    match json_parsed(text) {
        Some(document) => credentials_in(document),
        None => None,
    }
}

/// The cache record around four members that are already written as JSON
/// strings.
pub open spec fn record_text(
    access_key_id: Seq<char>,
    secret_access_key: Seq<char>,
    session_token: Seq<char>,
    expiration: Seq<char>,
) -> Seq<char> {
    "{\"credentials\":{\"accessKeyId\":"@ + access_key_id + ",\"secretAccessKey\":"@
        + secret_access_key + ",\"sessionToken\":"@ + session_token + ",\"expiration\":"@
        + expiration + "}}"@
}

/// The line for the consuming SDK around four members that are already
/// written as JSON strings.
pub open spec fn output_text(
    access_key_id: Seq<char>,
    expiration: Seq<char>,
    secret_access_key: Seq<char>,
    session_token: Seq<char>,
) -> Seq<char> {
    "{\"AccessKeyId\":"@ + access_key_id + ",\"Expiration\":"@ + expiration
        + ",\"SecretAccessKey\":"@ + secret_access_key + ",\"SessionToken\":"@ + session_token
        + ",\"Version\":1}"@
}

/// The cache record of a credential set; `None` where a member cannot be
/// written as a JSON string.
pub open spec fn record_of(set: CredentialSet) -> Option<Seq<char>> {
    if json_quoted(set.access_key_id) is Some && json_quoted(set.secret_access_key) is Some
        && json_quoted(set.session_token) is Some && json_quoted(set.expiration) is Some {
        Some(
            record_text(
                json_quoted(set.access_key_id)->0,
                json_quoted(set.secret_access_key)->0,
                json_quoted(set.session_token)->0,
                json_quoted(set.expiration)->0,
            ),
        )
    } else {
        None
    }
}

/// The line for the consuming SDK of a credential set; `None` where a member
/// cannot be written as a JSON string.
pub open spec fn output_of(set: CredentialSet) -> Option<Seq<char>> {
    if json_quoted(set.access_key_id) is Some && json_quoted(set.secret_access_key) is Some
        && json_quoted(set.session_token) is Some && json_quoted(set.expiration) is Some {
        Some(
            output_text(
                json_quoted(set.access_key_id)->0,
                json_quoted(set.expiration)->0,
                json_quoted(set.secret_access_key)->0,
                json_quoted(set.session_token)->0,
            ),
        )
    } else {
        None
    }
}

impl AwsCredentials {
    /// Whether two credential sets hold the same four texts.
    pub fn same_as(&self, other: &AwsCredentials) -> (same: bool)
        ensures
            same == (self@ == other@),
    {
        self.access_key_id == other.access_key_id && self.secret_access_key
            == other.secret_access_key && self.session_token == other.session_token
            && self.expiration == other.expiration
    }
}

/// The address that credentials are asked from.
pub open spec fn url_text(endpoint: Seq<char>, role_alias: Seq<char>) -> Seq<char> {
    "https://"@ + endpoint + "/role-aliases/"@ + role_alias + "/credentials"@
}

/// The address that credentials are asked from, for an endpoint host and a
/// role alias.
pub fn credentials_url(endpoint: &str, role_alias: &str) -> (url: String)
    ensures
        url@ == url_text(endpoint@, role_alias@),
{
    let mut url = String::from_str("https://");
    url.append(endpoint);
    url.append("/role-aliases/");
    url.append(role_alias);
    url.append("/credentials");
    url
}

/// Makes a credential set of four members looked up in a document. It is
/// there exactly when all four are.
pub fn assemble_credentials(
    access_key_id: Option<String>,
    secret_access_key: Option<String>,
    session_token: Option<String>,
    expiration: Option<String>,
) -> (made: Option<AwsCredentialsResponse>)
    ensures
        made.is_some() == assembled(
            text_of(access_key_id),
            text_of(secret_access_key),
            text_of(session_token),
            text_of(expiration),
        ).is_some(),
        made matches Some(response) ==> assembled(
            text_of(access_key_id),
            text_of(secret_access_key),
            text_of(session_token),
            text_of(expiration),
        ) == Some(response@),
{
    match (access_key_id, secret_access_key, session_token, expiration) {
        (Some(access_key_id), Some(secret_access_key), Some(session_token), Some(expiration)) => {
            Some(
                AwsCredentialsResponse {
                    credentials: AwsCredentials {
                        access_key_id,
                        secret_access_key,
                        session_token,
                        expiration,
                    },
                },
            )
        },
        _ => None,
    }
}

/// Reads a credential set from a text: the cache file's content, or the body
/// of the endpoint's answer. The text must be JSON and hold the four members;
/// anything else is a `JsonParse` failure, which says where the text is JSON
/// that the credentials are incomplete, and otherwise what `serde_json` said.
pub fn decode_credentials(text: &str) -> (outcome: Result<AwsCredentialsResponse, Error>)
    ensures
        outcome.is_ok() == credentials_of_text(text@).is_some(),
        outcome matches Ok(response) ==> credentials_of_text(text@) == Some(response@),
        outcome matches Err(failure) ==> failure is JsonParse,
        outcome matches Err(Error::JsonParse(reason)) ==> (json_parsed(text@) is Some ==> reason@
            == "credentials are incomplete"@),
{
    match parse_document(text) {
        Ok(document) => {
            let made = assemble_credentials(
                string_at(&document, "/credentials/accessKeyId"),
                string_at(&document, "/credentials/secretAccessKey"),
                string_at(&document, "/credentials/sessionToken"),
                string_at(&document, "/credentials/expiration"),
            );
            match made {
                Some(response) => Ok(response),
                None => Err(Error::JsonParse(String::from_str("credentials are incomplete"))),
            }
        },
        Err(reason) => Err(Error::JsonParse(reason)),
    }
}

/// Puts four members, already written as JSON strings, into a cache record.
pub fn render_record(
    access_key_id: &str,
    secret_access_key: &str,
    session_token: &str,
    expiration: &str,
) -> (text: String)
    ensures
        text@ == record_text(access_key_id@, secret_access_key@, session_token@, expiration@),
{
    let mut text = String::from_str("{\"credentials\":{\"accessKeyId\":");
    text.append(access_key_id);
    text.append(",\"secretAccessKey\":");
    text.append(secret_access_key);
    text.append(",\"sessionToken\":");
    text.append(session_token);
    text.append(",\"expiration\":");
    text.append(expiration);
    text.append("}}");
    text
}

/// Puts four members, already written as JSON strings, into the line for the
/// consuming SDK: one object, its members in the order of their names, with
/// `Version` 1.
pub fn render_output(
    access_key_id: &str,
    expiration: &str,
    secret_access_key: &str,
    session_token: &str,
) -> (text: String)
    ensures
        text@ == output_text(access_key_id@, expiration@, secret_access_key@, session_token@),
{
    let mut text = String::from_str("{\"AccessKeyId\":");
    text.append(access_key_id);
    text.append(",\"Expiration\":");
    text.append(expiration);
    text.append(",\"SecretAccessKey\":");
    text.append(secret_access_key);
    text.append(",\"SessionToken\":");
    text.append(session_token);
    text.append(",\"Version\":1}");
    text
}

/// The four members of a credential set, each written as a JSON string, in
/// the order of the fields.
fn quote_members(credentials: &AwsCredentials) -> (outcome: Result<
    (String, String, String, String),
    Error,
>)
    ensures
        outcome is Ok,
        outcome.is_ok() == (json_quoted(credentials@.access_key_id) is Some && json_quoted(
            credentials@.secret_access_key,
        ) is Some && json_quoted(credentials@.session_token) is Some && json_quoted(
            credentials@.expiration,
        ) is Some),
        outcome matches Ok(quoted) ==> {
            &&& json_quoted(credentials@.access_key_id) == Some(quoted.0@)
            &&& json_quoted(credentials@.secret_access_key) == Some(quoted.1@)
            &&& json_quoted(credentials@.session_token) == Some(quoted.2@)
            &&& json_quoted(credentials@.expiration) == Some(quoted.3@)
        },
        outcome matches Err(failure) ==> failure is JsonParse,
{
    let access_key_id = match quote(credentials.access_key_id.as_str()) {
        Ok(quoted) => quoted,
        Err(reason) => { return Err(Error::JsonParse(reason)); },
    };
    let secret_access_key = match quote(credentials.secret_access_key.as_str()) {
        Ok(quoted) => quoted,
        Err(reason) => { return Err(Error::JsonParse(reason)); },
    };
    let session_token = match quote(credentials.session_token.as_str()) {
        Ok(quoted) => quoted,
        Err(reason) => { return Err(Error::JsonParse(reason)); },
    };
    let expiration = match quote(credentials.expiration.as_str()) {
        Ok(quoted) => quoted,
        Err(reason) => { return Err(Error::JsonParse(reason)); },
    };
    Ok((access_key_id, secret_access_key, session_token, expiration))
}

/// Writes a credential set as the cache file's record. Every set can be
/// written.
pub fn encode_credentials(response: &AwsCredentialsResponse) -> (outcome: Result<String, Error>)
    ensures
        outcome is Ok,
        outcome.is_ok() == record_of(response@).is_some(),
        outcome matches Ok(text) ==> record_of(response@) == Some(text@),
        outcome matches Err(failure) ==> failure is JsonParse,
{
    match quote_members(&response.credentials) {
        Ok(quoted) => Ok(
            render_record(
                quoted.0.as_str(),
                quoted.1.as_str(),
                quoted.2.as_str(),
                quoted.3.as_str(),
            ),
        ),
        Err(failure) => Err(failure),
    }
}

/// Writes a credential set as the one line that the consuming SDK reads from
/// standard output. Every set can be written.
pub fn format_credential_output(creds: &AwsCredentialsResponse) -> (outcome: Result<String, Error>)
    ensures
        outcome is Ok,
        outcome.is_ok() == output_of(creds@).is_some(),
        outcome matches Ok(text) ==> output_of(creds@) == Some(text@),
        outcome matches Err(failure) ==> failure is JsonParse,
{
    match quote_members(&creds.credentials) {
        Ok(quoted) => Ok(
            render_output(
                quoted.0.as_str(),
                quoted.3.as_str(),
                quoted.1.as_str(),
                quoted.2.as_str(),
            ),
        ),
        Err(failure) => Err(failure),
    }
}

} // verus!
