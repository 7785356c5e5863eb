//! The flat form of an environment's settings: one `key = value` per line,
//! with blank lines and lines that begin with `#` passed over.

use vstd::prelude::*;
use vstd::string::*;
use crate::config::{EnvironmentProfile, ProfileView};
use crate::error::{ConfigError, Error};
use crate::text::{
    after_first,
    before_first,
    concat2,
    lemma_find_from_bounds,
    same_text,
    split_first,
    trim,
    trimmed,
};

verus! {

/// What is wrong with a text of settings.
pub enum Flaw {
    /// A line has no `=`.
    MissingValue,
    /// A line sets something that is no setting.
    UnknownKey(Seq<char>),
    /// A setting that must be there is not, or is empty.
    MissingField(Seq<char>),
}

/// What a line says.
pub enum LineMeaning {
    /// Nothing: the line is blank, or a comment.
    Blank,
    /// Nothing that can be understood: there is no `=`.
    NoValue,
    /// That `key` is `value`.
    Setting { key: Seq<char>, value: Seq<char> },
}

/// An environment with nothing set.
pub open spec fn nothing_set() -> ProfileView {
    ProfileView {
        aws_iot_endpoint: Seq::empty(),
        role_alias: Seq::empty(),
        cert_path: Seq::empty(),
        key_path: Seq::empty(),
        ca_path: Seq::empty(),
    }
}

/// What a line says. White space around the line, the key and the value does
/// not count; the key ends at the first `=`.
pub open spec fn line_meaning(line: Seq<char>) -> LineMeaning {
    let kept = trimmed(line);
    if kept.len() == 0 || kept[0] == '#' {
        LineMeaning::Blank
    } else {
        match after_first(kept, '=') {
            Some(value) => LineMeaning::Setting {
                key: trimmed(before_first(kept, '=')),
                value: trimmed(value),
            },
            None => LineMeaning::NoValue,
        }
    }
}

/// The settings after `key` is set to `value`.
pub open spec fn with_setting(profile: ProfileView, key: Seq<char>, value: Seq<char>) -> Result<
    ProfileView,
    Flaw,
> {
    if key == "aws_iot_endpoint"@ {
        Ok(ProfileView { aws_iot_endpoint: value, ..profile })
    } else if key == "role_alias"@ {
        Ok(ProfileView { role_alias: value, ..profile })
    } else if key == "cert_path"@ {
        Ok(ProfileView { cert_path: value, ..profile })
    } else if key == "key_path"@ {
        Ok(ProfileView { key_path: value, ..profile })
    } else if key == "ca_path"@ {
        Ok(ProfileView { ca_path: value, ..profile })
    } else {
        Err(Flaw::UnknownKey(key))
    }
}

/// The settings after a line.
pub open spec fn with_line(profile: ProfileView, line: Seq<char>) -> Result<ProfileView, Flaw> {
    match line_meaning(line) {
        LineMeaning::Blank => Ok(profile),
        LineMeaning::NoValue => Err(Flaw::MissingValue),
        LineMeaning::Setting { key, value } => with_setting(profile, key, value),
    }
}

/// The settings after all lines of a text, taken in order; the first line
/// that is wrong ends the reading.
pub open spec fn with_lines(profile: ProfileView, text: Seq<char>) -> Result<ProfileView, Flaw>
    decreases text.len(),
{
    match with_line(profile, before_first(text, '\n')) {
        Ok(next) => match after_first(text, '\n') {
            Some(rest) => {
                proof {
                    lemma_find_from_bounds(text, '\n', 0);
                }
                with_lines(next, rest)
            },
            None => Ok(next),
        },
        Err(flaw) => Err(flaw),
    }
}

/// Settings in which what must be set is set: the endpoint and the role
/// alias.
pub open spec fn complete(profile: ProfileView) -> Result<ProfileView, Flaw> {
    if profile.aws_iot_endpoint.len() == 0 {
        Err(Flaw::MissingField("aws_iot_endpoint"@))
    } else if profile.role_alias.len() == 0 {
        Err(Flaw::MissingField("role_alias"@))
    } else {
        Ok(profile)
    }
}

/// The settings that a text holds.
pub open spec fn parsed(text: Seq<char>) -> Result<ProfileView, Flaw> {
    match with_lines(nothing_set(), text) {
        Ok(profile) => complete(profile),
        Err(flaw) => Err(flaw),
    }
}

/// Whether a failure reports a flaw.
pub open spec fn reports(failure: Error, flaw: Flaw) -> bool {
    match flaw {
        Flaw::MissingValue => failure matches Error::Config(ConfigError::InvalidFormat(reason))
            && reason@ == "Missing value"@,
        Flaw::UnknownKey(key) => failure matches Error::Config(
            ConfigError::InvalidFormat(reason),
        ) && reason@ == "Unknown key: "@ + key,
        Flaw::MissingField(name) => failure matches Error::Config(
            ConfigError::MissingField(field),
        ) && field@ == name,
    }
}

/// Whether an outcome is the one that the reading of a text calls for.
pub open spec fn agrees(outcome: Result<(), Error>, after: ProfileView, wanted: Result<
    ProfileView,
    Flaw,
>) -> bool {
    match wanted {
        Ok(profile) => outcome is Ok && after == profile,
        Err(flaw) => outcome matches Err(failure) && reports(failure, flaw),
    }
}

/// Sets `key` to `value`.
fn set(profile: &mut EnvironmentProfile, key: &str, value: &str) -> (outcome: Result<(), Error>)
    ensures
        agrees(outcome, final(profile)@, with_setting(old(profile)@, key@, value@)),
{
    if same_text(key, "aws_iot_endpoint") {
        profile.aws_iot_endpoint = String::from_str(value);
        Ok(())
    } else if same_text(key, "role_alias") {
        profile.role_alias = String::from_str(value);
        Ok(())
    } else if same_text(key, "cert_path") {
        profile.cert_path = String::from_str(value);
        Ok(())
    } else if same_text(key, "key_path") {
        profile.key_path = String::from_str(value);
        Ok(())
    } else if same_text(key, "ca_path") {
        profile.ca_path = String::from_str(value);
        Ok(())
    } else {
        Err(Error::Config(ConfigError::InvalidFormat(concat2("Unknown key: ", key))))
    }
}

/// Takes one line into the settings.
fn read_line(profile: &mut EnvironmentProfile, line: &str) -> (outcome: Result<(), Error>)
    ensures
        agrees(outcome, final(profile)@, with_line(old(profile)@, line@)),
{
    let kept = trim(line);
    if kept.unicode_len() == 0 {
        return Ok(());
    }
    if kept.get_char(0) == '#' {
        return Ok(());
    }
    let parts = split_first(kept, '=');
    match parts.1 {
        Some(value) => set(profile, trim(parts.0), trim(value)),
        None => Err(Error::Config(ConfigError::InvalidFormat(String::from_str("Missing value")))),
    }
}

/// Checks that what must be set is set: the endpoint, then the role alias.
pub fn validate_required_fields(config: &EnvironmentProfile) -> (outcome: Result<(), ConfigError>)
    ensures
        match complete(config@) {
            Ok(_) => outcome is Ok,
            Err(flaw) => outcome matches Err(failure) && reports(Error::Config(failure), flaw),
        },
{
    if config.aws_iot_endpoint.as_str().is_empty() {
        return Err(ConfigError::MissingField(String::from_str("aws_iot_endpoint")));
    }
    if config.role_alias.as_str().is_empty() {
        return Err(ConfigError::MissingField(String::from_str("role_alias")));
    }
    Ok(())
}

/// Reads an environment's settings from a text of `key = value` lines.
///
/// The keys are `aws_iot_endpoint`, `role_alias`, `cert_path`, `key_path` and
/// `ca_path`; a key set twice keeps its last value. A line without `=` or
/// with another key is a failure of format, and so ends the reading. The
/// endpoint and the role alias must be set in the end, and not to nothing.
pub fn parse(content: &str) -> (outcome: Result<EnvironmentProfile, Error>)
    ensures
        match parsed(content@) {
            Ok(profile) => outcome matches Ok(read) && read@ == profile,
            Err(flaw) => outcome matches Err(failure) && reports(failure, flaw),
        },
{
    let mut profile = EnvironmentProfile {
        aws_iot_endpoint: String::new(),
        role_alias: String::new(),
        cert_path: String::new(),
        key_path: String::new(),
        ca_path: String::new(),
    };
    assert(profile@ == nothing_set());
    let mut rest: &str = content;
    loop
        invariant
            with_lines(nothing_set(), content@) == with_lines(profile@, rest@),
        ensures
            with_lines(nothing_set(), content@) == Ok::<ProfileView, Flaw>(profile@),
        decreases rest@.len(),
    {
        let parts = split_first(rest, '\n');
        match read_line(&mut profile, parts.0) {
            Ok(()) => {},
            Err(failure) => { return Err(failure); },
        }
        match parts.1 {
            Some(next) => {
                proof {
                    lemma_find_from_bounds(rest@, '\n', 0);
                }
                rest = next;
            },
            None => { break ; },
        }
    }
    match validate_required_fields(&profile) {
        Ok(()) => Ok(profile),
        Err(failure) => Err(Error::Config(failure)),
    }
}

} // verus!
