//! The failures that the helper can report.

use vstd::prelude::*;
use vstd::string::*;
use crate::text::{decimal_text, push_decimal};

verus! {

/// A failure in finding, reading or interpreting the configuration.
#[derive(Clone, Debug, PartialEq, Eq)]
pub enum ConfigError {
    /// The environment named as current has no profile.
    MissingEnvironment(String),
    /// A file that the configuration points to is not there.
    FileNotFound { file: String, description: String },
    /// The configuration could not be found or read.
    LoadError(String),
    /// A required setting is absent or empty.
    MissingField(String),
    /// A line of the configuration is not of the expected shape.
    InvalidFormat(String),
}

/// Any failure of the helper.
#[derive(Clone, Debug, PartialEq, Eq)]
pub enum Error {
    Config(ConfigError),
    LoadCaCert { path: String, source: String },
    LoadClientCert { path: String, source: String },
    LoadPrivateKey { path: String, source: String },
    /// The transport failed: no connection, no TLS session, or a timeout.
    HttpClient(String),
    /// The endpoint answered with a status that is not a success.
    CredentialsRequest { url: String, status: u16 },
    /// A text that should hold JSON of a known shape does not.
    JsonParse(String),
    Io(String),
    /// The cache file could not be opened, locked, read or written.
    Cache(String),
    /// The circuit breaker refused the request before any call was made.
    CircuitBreakerOpen,
    InvalidExpiration(String),
    Logging(String),
    AwsIot(String),
    Security(String),
}

impl ConfigError {
    /// The failure in words.
    pub open spec fn message_text(self) -> Seq<char> {
        match self {
            ConfigError::MissingEnvironment(name) => "Missing environment configuration: "@
                + name@,
            ConfigError::FileNotFound { file, description } => "File not found: "@ + file@
                + " ("@ + description@ + ")"@,
            ConfigError::LoadError(reason) => "Configuration load error: "@ + reason@,
            ConfigError::MissingField(field) => "Missing required field: "@ + field@,
            ConfigError::InvalidFormat(reason) => "Invalid configuration format: "@ + reason@,
        }
    }

    /// The failure in words.
    pub fn message(&self) -> (text: String)
        ensures
            text@ == self.message_text(),
    {
        match self {
            ConfigError::MissingEnvironment(name) => {
                let mut text = String::from_str("Missing environment configuration: ");
                text.append(name.as_str());
                text
            },
            ConfigError::FileNotFound { file, description } => {
                let mut text = String::from_str("File not found: ");
                text.append(file.as_str());
                text.append(" (");
                text.append(description.as_str());
                text.append(")");
                text
            },
            ConfigError::LoadError(reason) => {
                let mut text = String::from_str("Configuration load error: ");
                text.append(reason.as_str());
                text
            },
            ConfigError::MissingField(field) => {
                let mut text = String::from_str("Missing required field: ");
                text.append(field.as_str());
                text
            },
            ConfigError::InvalidFormat(reason) => {
                let mut text = String::from_str("Invalid configuration format: ");
                text.append(reason.as_str());
                text
            },
        }
    }
}

/// A fixed opening followed by a detail.
fn prefixed(opening: &str, detail: &str) -> (text: String)
    ensures
        text@ == opening@ + detail@,
{
    let mut text = String::from_str(opening);
    text.append(detail);
    text
}

/// What failed to load, where from, and why.
fn load_failure(what: &str, path: &str, source: &str) -> (text: String)
    ensures
        text@ == "Failed to load "@ + what@ + " from "@ + path@ + ": "@ + source@,
{
    let mut text = String::from_str("Failed to load ");
    text.append(what);
    text.append(" from ");
    text.append(path);
    text.append(": ");
    text.append(source);
    text
}

impl Error {
    /// The failure in words.
    pub open spec fn message_text(self) -> Seq<char> {
        match self {
            Error::Config(inner) => "Configuration error: "@ + inner.message_text(),
            Error::LoadCaCert { path, source } => "Failed to load "@ + "CA certificate"@
                + " from "@ + path@ + ": "@ + source@,
            Error::LoadClientCert { path, source } => "Failed to load "@
                + "client certificate"@ + " from "@ + path@ + ": "@ + source@,
            Error::LoadPrivateKey { path, source } => "Failed to load "@ + "private key"@
                + " from "@ + path@ + ": "@ + source@,
            Error::HttpClient(reason) => "HTTP client error: "@ + reason@,
            Error::CredentialsRequest { url, status } => "Credentials request to "@ + url@
                + " failed with status "@ + decimal_text(status as nat),
            Error::JsonParse(reason) => "JSON parsing error: "@ + reason@,
            Error::Io(reason) => "IO error: "@ + reason@,
            Error::Cache(reason) => "Cache error: "@ + reason@,
            Error::CircuitBreakerOpen => "Circuit breaker open"@,
            Error::InvalidExpiration(reason) => "Invalid expiration format: "@ + reason@,
            Error::Logging(reason) => "Logging setup error: "@ + reason@,
            Error::AwsIot(reason) => "AWS IoT error: "@ + reason@,
            Error::Security(reason) => "Security error: "@ + reason@,
        }
    }

    /// The failure in words.
    pub fn message(&self) -> (text: String)
        ensures
            text@ == self.message_text(),
    {
        match self {
            Error::Config(inner) => {
                let detail = inner.message();
                prefixed("Configuration error: ", detail.as_str())
            },
            Error::LoadCaCert { path, source } => load_failure(
                "CA certificate",
                path.as_str(),
                source.as_str(),
            ),
            Error::LoadClientCert { path, source } => load_failure(
                "client certificate",
                path.as_str(),
                source.as_str(),
            ),
            Error::LoadPrivateKey { path, source } => load_failure(
                "private key",
                path.as_str(),
                source.as_str(),
            ),
            Error::HttpClient(reason) => prefixed("HTTP client error: ", reason.as_str()),
            Error::CredentialsRequest { url, status } => {
                let mut text = String::from_str("Credentials request to ");
                text.append(url.as_str());
                text.append(" failed with status ");
                push_decimal(&mut text, *status as u64);
                text
            },
            Error::JsonParse(reason) => prefixed("JSON parsing error: ", reason.as_str()),
            Error::Io(reason) => prefixed("IO error: ", reason.as_str()),
            Error::Cache(reason) => prefixed("Cache error: ", reason.as_str()),
            Error::CircuitBreakerOpen => String::from_str("Circuit breaker open"),
            Error::InvalidExpiration(reason) => prefixed(
                "Invalid expiration format: ",
                reason.as_str(),
            ),
            Error::Logging(reason) => prefixed("Logging setup error: ", reason.as_str()),
            Error::AwsIot(reason) => prefixed("AWS IoT error: ", reason.as_str()),
            Error::Security(reason) => prefixed("Security error: ", reason.as_str()),
        }
    }
}

} // verus!
