//! What the log needs to be told: where it goes, how much of it there is,
//! and the identifier that ties the lines of one request together.

use vstd::prelude::*;
use vstd::string::*;
use crate::text::{chars_of, concat2, digit_char};

verus! {

/// How much is logged.
#[derive(Clone, Copy, Debug, PartialEq, Eq, Structural)]
pub enum LogLevel {
    Error,
    Warn,
    Info,
    Debug,
    Trace,
}

/// Where the log goes, and how much of it there is.
#[derive(Clone, Debug, PartialEq, Eq)]
pub struct LogConfig {
    pub directory: String,
    pub file_name: String,
    pub level: LogLevel,
}

/// An identifier for one request: a random UUID, held as its 128 bits.
#[derive(Clone, Copy, Debug, PartialEq, Eq, Structural)]
pub struct RequestId {
    pub value: u128,
}

/// The character that writes a hexadecimal digit, in lower case.
pub open spec fn hex_char(digit: u128) -> char {
    if digit < 10 {
        digit_char(digit as nat)
    } else if digit == 10 {
        'a'
    } else if digit == 11 {
        'b'
    } else if digit == 12 {
        'c'
    } else if digit == 13 {
        'd'
    } else if digit == 14 {
        'e'
    } else {
        'f'
    }
}

/// The hexadecimal digit of 128 bits at a place, counted from the most
/// significant digit, which has place 0, to the least, which has place 31.
pub open spec fn hex_digit(value: u128, place: int) -> u128 {
    (value >> ((4 * (31 - place)) as u128)) & 0xF
}

/// The hyphens that stand before a position of a UUID's text.
pub open spec fn hyphens_before(position: int) -> int {
    if position < 8 {
        0
    } else if position < 13 {
        1
    } else if position < 18 {
        2
    } else if position < 23 {
        3
    } else {
        4
    }
}

/// The text of the UUID of these 128 bits: 36 characters, of which those at
/// the positions 8, 13, 18 and 23 are hyphens and the others are the 32
/// hexadecimal digits of the bits, in lower case, the most significant
/// first.
pub open spec fn uuid_text(value: u128) -> Seq<char> {
    Seq::new(
        36,
        |position: int|
            if position == 8 || position == 13 || position == 18 || position == 23 {
                '-'
            } else {
                hex_char(hex_digit(value, position - hyphens_before(position)))
            },
    )
}

/// Whether 128 bits are a UUID of version 4 in the usual variant: the bits
/// that say so are set as they must be, all others are free.
pub open spec fn is_random_uuid(value: u128) -> bool {
    value & 0xF000_C000_0000_0000_0000u128 == 0x4000_8000_0000_0000_0000u128
}

/// Calls `uuid::Uuid::new_v4` and hands back the UUID's bits, as
/// `Uuid::as_u128` gives them. The bits are random but for the six that
/// mark version and variant, which `new_v4` sets. `new_v4` panics where the
/// system gives no random bytes.
#[verifier::external_body]
fn random_uuid() -> (value: u128)
    ensures
        is_random_uuid(value),
{
    uuid::Uuid::new_v4().as_u128()
}

/// Makes the UUID of these bits with `uuid::Uuid::from_u128` and writes it
/// through its `Display`, which gives the hyphenated form in lower case: the
/// digits of the bits in their order, with a hyphen after the 8th, the 12th,
/// the 16th and the 20th.
#[verifier::external_body]
fn write_uuid(value: u128) -> (text: String)
    ensures
        text@ == uuid_text(value),
{
    uuid::Uuid::from_u128(value).to_string()
}

/// A letter of the Latin alphabet in lower case; any other character as it
/// is.
pub open spec fn lower(c: char) -> char {
    if 'A' <= c <= 'Z' {
        ((c as u8) + 32) as char
    } else {
        c
    }
}

/// A text with its Latin letters in lower case.
pub open spec fn lowered(text: Seq<char>) -> Seq<char> {
    Seq::new(text.len(), |i: int| lower(text[i]))
}

/// The level that a name stands for, whatever the case of its letters.
pub open spec fn level_named(name: Seq<char>) -> Option<LogLevel> {
    if lowered(name) == "error"@ {
        Some(LogLevel::Error)
    } else if lowered(name) == "warn"@ {
        Some(LogLevel::Warn)
    } else if lowered(name) == "info"@ {
        Some(LogLevel::Info)
    } else if lowered(name) == "debug"@ {
        Some(LogLevel::Debug)
    } else if lowered(name) == "trace"@ {
        Some(LogLevel::Trace)
    } else {
        None
    }
}

/// A letter of the Latin alphabet in lower case; any other character as it
/// is.
fn to_lower(c: char) -> (small: char)
    ensures
        small == lower(c),
{
    if 'A' <= c && c <= 'Z' {
        ((c as u8) + 32) as char
    } else {
        c
    }
}

/// Whether `name` is `word` but for the case of its Latin letters.
fn is_word(name: &Vec<char>, word: &str) -> (same: bool)
    ensures
        same == (lowered(name@) == word@),
{
    let letters = chars_of(word);
    if letters.len() != name.len() {
        return false;
    }
    let mut at: usize = 0;
    while at < name.len()
        invariant
            at <= name.len(),
            letters.len() == name.len(),
            letters@ == word@,
            forall|i: int| 0 <= i < at ==> lowered(name@)[i] == letters@[i],
        decreases name.len() - at,
    {
        if to_lower(name[at]) != letters[at] {
            assert(lowered(name@)[at as int] != word@[at as int]);
            return false;
        }
        at += 1;
    }
    assert(lowered(name@) =~= word@);
    true
}

impl LogLevel {
    /// The level's name, in lower case.
    pub open spec fn name(self) -> Seq<char> {
        match self {
            LogLevel::Error => "error"@,
            LogLevel::Warn => "warn"@,
            LogLevel::Info => "info"@,
            LogLevel::Debug => "debug"@,
            LogLevel::Trace => "trace"@,
        }
    }

    /// The level that a name stands for: `error`, `warn`, `info`, `debug` or
    /// `trace`, in any case. Any other text is refused, and named in the
    /// refusal.
    pub fn from_str(s: &str) -> (outcome: Result<LogLevel, String>)
        ensures
            match level_named(s@) {
                Some(level) => outcome == Ok::<LogLevel, String>(level),
                None => outcome matches Err(reason) && reason@ == "Invalid log level: "@ + s@,
            },
    {
        let name = chars_of(s);
        if is_word(&name, "error") {
            Ok(LogLevel::Error)
        } else if is_word(&name, "warn") {
            Ok(LogLevel::Warn)
        } else if is_word(&name, "info") {
            Ok(LogLevel::Info)
        } else if is_word(&name, "debug") {
            Ok(LogLevel::Debug)
        } else if is_word(&name, "trace") {
            Ok(LogLevel::Trace)
        } else {
            Err(concat2("Invalid log level: ", s))
        }
    }

    /// The directive that lets this level and the graver ones through a
    /// filter: the level's name.
    pub fn to_filter_directive(&self) -> (directive: &'static str)
        ensures
            directive@ == self.name(),
    {
        match self {
            LogLevel::Error => "error",
            LogLevel::Warn => "warn",
            LogLevel::Info => "info",
            LogLevel::Debug => "debug",
            LogLevel::Trace => "trace",
        }
    }
}

impl Default for LogConfig {
    /// The log of a helper that was told nothing: `authguard.log` in
    /// `/var/log/authguard`, at level `Info`.
    fn default() -> (config: LogConfig)
        ensures
            config.directory@ == "/var/log/authguard"@,
            config.file_name@ == "authguard.log"@,
            config.level == LogLevel::Info,
    {
        LogConfig {
            directory: String::from_str("/var/log/authguard"),
            file_name: String::from_str("authguard.log"),
            level: LogLevel::Info,
        }
    }
}

impl RequestId {
    /// A new identifier, random but for the bits that mark it as a UUID of
    /// version 4.
    pub fn new() -> (id: RequestId)
        ensures
            is_random_uuid(id.value),
    {
        RequestId { value: random_uuid() }
    }

    /// The identifier as a UUID's text.
    pub fn to_text(&self) -> (text: String)
        ensures
            text@ == uuid_text(self.value),
    {
        write_uuid(self.value)
    }
}

} // verus!
