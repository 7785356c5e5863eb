//! The circuit breaker: a state machine that decides whether the credential
//! endpoint may be called, fed by the outcome of every call.

use vstd::prelude::*;
use vstd::string::*;
use crate::clock::{in_leap_second, timestamp_of_text, Timestamp, NANOS_PER_SEC};
use crate::json::{
    json_parsed,
    json_quoted,
    json_string_at,
    json_u64_at,
    parse_document,
    quote,
    string_at,
    u64_at,
};
use crate::text::{
    decimal_text,
    join_path,
    joined_path,
    push_decimal,
    same_text,
    slice_text,
    text_of,
};

verus! {

/// Seconds that must lie between two probes while the breaker is half open.
pub const PROBE_INTERVAL_SECS: u64 = 5;

/// Consecutive successes that close a half-open breaker.
pub const SUCCESSES_TO_CLOSE: u32 = 2;

/// Where the breaker stands.
#[derive(Clone, Copy, Debug, PartialEq, Eq, Structural)]
pub enum BreakerState {
    /// Requests pass.
    Closed,
    /// Requests are refused until the cool-down has passed since `opened_at`.
    Open { opened_at: Timestamp },
    /// Probing: one request is admitted every few seconds.
    HalfOpen { attempt_count: u32, last_attempt: Timestamp },
}

/// The breaker's whole record, as it is kept between invocations.
#[derive(Clone, Copy, Debug, PartialEq, Eq, Structural)]
pub struct CircuitBreakerState {
    pub state: BreakerState,
    pub failure_count: u32,
    pub last_failure: Timestamp,
    pub consecutive_successes: u32,
}

/// A counter raised by one, held at the largest value it can take.
pub open spec fn bumped(count: u32) -> u32 {
    if count < u32::MAX {
        (count + 1) as u32
    } else {
        u32::MAX
    }
}

impl CircuitBreakerState {
    /// The record of a breaker that has never been seen: closed, without
    /// failures. `now` stands in for the time of a last failure.
    pub open spec fn fresh(now: Timestamp) -> CircuitBreakerState {
        CircuitBreakerState {
            state: BreakerState::Closed,
            failure_count: 0,
            last_failure: now,
            consecutive_successes: 0,
        }
    }

    /// Whether a request is admitted at `now`.
    pub open spec fn allows(self, cool_down_seconds: u64, now: Timestamp) -> bool {
        match self.state {
            BreakerState::Closed => true,
            BreakerState::Open { opened_at } => now@ - opened_at@ >= cool_down_seconds
                * NANOS_PER_SEC,
            BreakerState::HalfOpen { last_attempt, .. } => now@ - last_attempt@
                >= PROBE_INTERVAL_SECS * NANOS_PER_SEC,
        }
    }

    /// The record after a failure at `now`.
    pub open spec fn after_failure(self, failure_threshold: u32, now: Timestamp) -> CircuitBreakerState {
        let failures = bumped(self.failure_count);
        CircuitBreakerState {
            state: match self.state {
                BreakerState::Closed => if failures >= failure_threshold {
                    BreakerState::Open { opened_at: now }
                } else {
                    BreakerState::Closed
                },
                BreakerState::Open { opened_at } => BreakerState::Open { opened_at },
                BreakerState::HalfOpen { .. } => BreakerState::Open { opened_at: now },
            },
            failure_count: failures,
            last_failure: now,
            consecutive_successes: 0,
        }
    }

    /// The record after a success at `now`.
    pub open spec fn after_success(self, now: Timestamp) -> CircuitBreakerState {
        let successes = bumped(self.consecutive_successes);
        match self.state {
            BreakerState::Closed => CircuitBreakerState {
                state: BreakerState::Closed,
                failure_count: 0,
                last_failure: self.last_failure,
                consecutive_successes: successes,
            },
            BreakerState::Open { .. } => CircuitBreakerState {
                state: BreakerState::HalfOpen { attempt_count: 0, last_attempt: now },
                failure_count: self.failure_count,
                last_failure: self.last_failure,
                consecutive_successes: successes,
            },
            BreakerState::HalfOpen { attempt_count, .. } => if successes >= SUCCESSES_TO_CLOSE {
                CircuitBreakerState {
                    state: BreakerState::Closed,
                    failure_count: 0,
                    last_failure: self.last_failure,
                    consecutive_successes: successes,
                }
            } else {
                CircuitBreakerState {
                    state: BreakerState::HalfOpen {
                        attempt_count: bumped(attempt_count),
                        last_attempt: now,
                    },
                    failure_count: self.failure_count,
                    last_failure: self.last_failure,
                    consecutive_successes: successes,
                }
            },
        }
    }

    /// The record after a failure at each of `times`, in order.
    pub open spec fn after_failures(self, failure_threshold: u32, times: Seq<Timestamp>) -> CircuitBreakerState
        decreases times.len(),
    {
        if times.len() == 0 {
            self
        } else {
            self.after_failures(failure_threshold, times.drop_last()).after_failure(
                failure_threshold,
                times.last(),
            )
        }
    }

    /// The record of a breaker that has never been seen.
    pub fn initial(now: Timestamp) -> (record: CircuitBreakerState)
        ensures
            record == CircuitBreakerState::fresh(now),
    {
        CircuitBreakerState {
            state: BreakerState::Closed,
            failure_count: 0,
            last_failure: now,
            consecutive_successes: 0,
        }
    }

    /// Whether a request may be made at `now`. A closed breaker admits every
    /// request; an open one admits a probe once `cool_down_seconds` have
    /// passed since it opened; a half-open one admits a probe once
    /// `PROBE_INTERVAL_SECS` have passed since the last one. The threshold
    /// plays no part here: it decides when failures open the breaker.
    pub fn should_allow_request(
        &self,
        failure_threshold: u32,
        cool_down_seconds: u64,
        now: Timestamp,
    ) -> (allowed: bool)
        ensures
            allowed == self.allows(cool_down_seconds, now),
    {
        let _ = failure_threshold;
        match self.state {
            BreakerState::Closed => true,
            BreakerState::Open { opened_at } => now.elapsed_at_least(&opened_at, cool_down_seconds),
            BreakerState::HalfOpen { attempt_count: _, last_attempt } => now.elapsed_at_least(
                &last_attempt,
                PROBE_INTERVAL_SECS,
            ),
        }
    }

    /// Records a failed call at `now`: one more failure, no consecutive
    /// successes left. A closed breaker opens once the failures reach the
    /// threshold, a half-open one opens at once, an open one stays as it is.
    pub fn record_failure(&mut self, failure_threshold: u32, now: Timestamp)
        ensures
            *final(self) == old(self).after_failure(failure_threshold, now),
    {
        let failures = self.failure_count.saturating_add(1);
        let next = match self.state {
            BreakerState::Closed => if failures >= failure_threshold {
                BreakerState::Open { opened_at: now }
            } else {
                BreakerState::Closed
            },
            BreakerState::Open { opened_at } => BreakerState::Open { opened_at },
            BreakerState::HalfOpen { attempt_count: _, last_attempt: _ } => BreakerState::Open {
                opened_at: now,
            },
        };
        self.state = next;
        self.failure_count = failures;
        self.last_failure = now;
        self.consecutive_successes = 0;
    }

    /// Records a successful call at `now`: one more consecutive success. An
    /// open breaker becomes half open, a half-open one closes once
    /// `SUCCESSES_TO_CLOSE` successes have followed one another, and a
    /// breaker that is closed afterwards has no failures left.
    pub fn record_success(&mut self, now: Timestamp)
        ensures
            *final(self) == old(self).after_success(now),
    {
        let successes = self.consecutive_successes.saturating_add(1);
        match self.state {
            BreakerState::Closed => {
                self.failure_count = 0;
            },
            BreakerState::Open { opened_at: _ } => {
                self.state = BreakerState::HalfOpen { attempt_count: 0, last_attempt: now };
            },
            BreakerState::HalfOpen { attempt_count, last_attempt: _ } => {
                if successes >= SUCCESSES_TO_CLOSE {
                    self.state = BreakerState::Closed;
                    self.failure_count = 0;
                } else {
                    self.state = BreakerState::HalfOpen {
                        attempt_count: attempt_count.saturating_add(1),
                        last_attempt: now,
                    };
                }
            },
        }
        self.consecutive_successes = successes;
    }
}

/// The counter that a looked-up number gives; `None` where the number is
/// missing or too large for a counter.
pub open spec fn counter_of(found: Option<u64>) -> Option<u32> {
    match found {
        Some(number) => if number <= u32::MAX {
            Some(number as u32)
        } else {
            None
        },
        None => None,
    }
}

/// Where the breaker stands, by the members of a record that say so: the
/// name `Closed`, or the time it opened at, or the probes made and the time
/// of the last one.
pub open spec fn assembled_position(
    name: Option<Seq<char>>,
    opened_at: Option<Timestamp>,
    attempt_count: Option<u64>,
    last_attempt: Option<Timestamp>,
) -> Option<BreakerState> {
    if name == Some("Closed"@) {
        Some(BreakerState::Closed)
    } else if opened_at is Some {
        Some(BreakerState::Open { opened_at: opened_at->0 })
    } else if counter_of(attempt_count) is Some && last_attempt is Some {
        Some(
            BreakerState::HalfOpen {
                attempt_count: counter_of(attempt_count)->0,
                last_attempt: last_attempt->0,
            },
        )
    } else {
        None
    }
}

/// The record that its members make. All of them must be there.
pub open spec fn assembled_state(
    position: Option<BreakerState>,
    failure_count: Option<u64>,
    last_failure: Option<Timestamp>,
    consecutive_successes: Option<u64>,
) -> Option<CircuitBreakerState> {
    if position is Some && counter_of(failure_count) is Some && last_failure is Some
        && counter_of(consecutive_successes) is Some {
        Some(
            CircuitBreakerState {
                state: position->0,
                failure_count: counter_of(failure_count)->0,
                last_failure: last_failure->0,
                consecutive_successes: counter_of(consecutive_successes)->0,
            },
        )
    } else {
        None
    }
}

/// The timestamp that a document holds at a pointer, as an RFC 3339 string.
pub open spec fn time_in(document: serde_json::Value, pointer: Seq<char>) -> Option<Timestamp> {
    match json_string_at(document, pointer) {
        Some(text) => timestamp_of_text(text),
        None => None,
    }
}

/// The record that a document holds: `state`, which is the string `Closed`,
/// or an object `Open` with `opened_at`, or an object `HalfOpen` with
/// `attempt_count` and `last_attempt`; and beside it `failure_count`,
/// `last_failure` and `consecutive_successes`.
pub open spec fn state_in(document: serde_json::Value) -> Option<CircuitBreakerState> {
    assembled_state(
        assembled_position(
            json_string_at(document, "/state"@),
            time_in(document, "/state/Open/opened_at"@),
            json_u64_at(document, "/state/HalfOpen/attempt_count"@),
            time_in(document, "/state/HalfOpen/last_attempt"@),
        ),
        json_u64_at(document, "/failure_count"@),
        time_in(document, "/last_failure"@),
        json_u64_at(document, "/consecutive_successes"@),
    )
}

/// The record that a text holds, where the text is JSON of that shape.
pub open spec fn state_of_text(text: Seq<char>) -> Option<CircuitBreakerState> {
    match json_parsed(text) {
        Some(document) => state_in(document),
        None => None,
    }
}

/// The record to go on from: the one that is stored, or that of a breaker
/// never seen where nothing is stored or what is stored holds no record.
pub open spec fn loaded(stored: Option<Seq<char>>, now: Timestamp) -> CircuitBreakerState {
    match stored {
        Some(text) => match state_of_text(text) {
            Some(record) => record,
            None => CircuitBreakerState::fresh(now),
        },
        None => CircuitBreakerState::fresh(now),
    }
}

/// A timestamp as a JSON string: its RFC 3339 text in quotes. `None` where
/// the timestamp has no such text.
pub open spec fn json_time(at: Timestamp) -> Option<Seq<char>> {
    match at.rfc3339() {
        Some(text) => json_quoted(text),
        None => None,
    }
}

/// The time that a position's text shows: none for a closed breaker.
pub open spec fn time_shown(position: BreakerState) -> Option<Timestamp> {
    match position {
        BreakerState::Closed => None,
        BreakerState::Open { opened_at } => Some(opened_at),
        BreakerState::HalfOpen { last_attempt, .. } => Some(last_attempt),
    }
}

/// A position as JSON, around its time, which is written as a JSON string
/// already.
pub open spec fn position_text(position: BreakerState, time: Seq<char>) -> Seq<char> {
    match position {
        BreakerState::Closed => "\"Closed\""@,
        BreakerState::Open { .. } => "{\"Open\":{\"opened_at\":"@ + time + "}}"@,
        BreakerState::HalfOpen { attempt_count, .. } => "{\"HalfOpen\":{\"attempt_count\":"@
            + decimal_text(attempt_count as nat) + ",\"last_attempt\":"@ + time + "}}"@,
    }
}

/// A record as JSON, around its position and the time of its last failure,
/// both written as JSON already.
pub open spec fn record_text(
    position: Seq<char>,
    failure_count: u32,
    last_failure: Seq<char>,
    consecutive_successes: u32,
) -> Seq<char> {
    "{\"state\":"@ + position + ",\"failure_count\":"@ + decimal_text(failure_count as nat)
        + ",\"last_failure\":"@ + last_failure + ",\"consecutive_successes\":"@ + decimal_text(
        consecutive_successes as nat,
    ) + "}"@
}

/// The text that a record is stored as; `None` where one of its times cannot
/// be written.
pub open spec fn stored_text(record: CircuitBreakerState) -> Option<Seq<char>> {
    let shown = time_shown(record.state);
    if json_time(record.last_failure) is Some && (shown is Some ==> json_time(shown->0)
        is Some) {
        Some(
            record_text(
                position_text(
                    record.state,
                    if shown is Some {
                        json_time(shown->0)->0
                    } else {
                        Seq::<char>::empty()
                    },
                ),
                record.failure_count,
                json_time(record.last_failure)->0,
                record.consecutive_successes,
            ),
        )
    } else {
        None
    }
}

/// Whether every time of a record can be written: the time of its last
/// failure, and the time that its position shows.
pub open spec fn datable(record: CircuitBreakerState) -> bool {
    record.last_failure.writable() && (time_shown(record.state) is Some ==> time_shown(
        record.state,
    )->0.writable())
}

/// Whether a document holds, at a pointer, a time within a leap second.
pub open spec fn leap_second_in(document: serde_json::Value, pointer: Seq<char>) -> bool {
    json_string_at(document, pointer) matches Some(text) && in_leap_second(text)
}

/// Whether none of the times that a document holds for a record lies within
/// a leap second.
pub open spec fn leap_free(document: serde_json::Value) -> bool {
    !leap_second_in(document, "/state/Open/opened_at"@) && !leap_second_in(
        document,
        "/state/HalfOpen/last_attempt"@,
    ) && !leap_second_in(document, "/last_failure"@)
}

/// Whether what is stored holds no time within a leap second. That is so
/// where nothing is stored, and where what is stored is not JSON.
pub open spec fn leap_free_text(stored: Option<Seq<char>>) -> bool {
    match stored {
        Some(text) => match json_parsed(text) {
            Some(document) => leap_free(document),
            None => true,
        },
        None => true,
    }
}

/// The counter that a looked-up number gives.
fn counter(found: Option<u64>) -> (made: Option<u32>)
    ensures
        made == counter_of(found),
{
    match found {
        Some(number) => if number <= u32::MAX as u64 {
            Some(number as u32)
        } else {
            None
        },
        None => None,
    }
}

/// Says where the breaker stands, by the members of a record that say so. See
/// `assembled_position`.
pub fn assemble_position(
    name: Option<String>,
    opened_at: Option<Timestamp>,
    attempt_count: Option<u64>,
    last_attempt: Option<Timestamp>,
) -> (position: Option<BreakerState>)
    ensures
        position == assembled_position(text_of(name), opened_at, attempt_count, last_attempt),
{
    let closed = match &name {
        Some(text) => same_text(text.as_str(), "Closed"),
        None => false,
    };
    if closed {
        Some(BreakerState::Closed)
    } else {
        match opened_at {
            Some(opened_at) => Some(BreakerState::Open { opened_at }),
            None => match (counter(attempt_count), last_attempt) {
                (Some(attempt_count), Some(last_attempt)) => Some(
                    BreakerState::HalfOpen { attempt_count, last_attempt },
                ),
                _ => None,
            },
        }
    }
}

/// Makes a record of its members. It is there exactly when all of them are,
/// and the counters fit.
pub fn assemble_state(
    position: Option<BreakerState>,
    failure_count: Option<u64>,
    last_failure: Option<Timestamp>,
    consecutive_successes: Option<u64>,
) -> (record: Option<CircuitBreakerState>)
    ensures
        record == assembled_state(position, failure_count, last_failure, consecutive_successes),
{
    match (position, counter(failure_count), last_failure, counter(consecutive_successes)) {
        (Some(state), Some(failure_count), Some(last_failure), Some(consecutive_successes)) => {
            Some(CircuitBreakerState { state, failure_count, last_failure, consecutive_successes })
        },
        _ => None,
    }
}

/// The timestamp that a document holds at a pointer.
fn time_at(document: &serde_json::Value, pointer: &str) -> (found: Option<Timestamp>)
    ensures
        found == time_in(*document, pointer@),
        found matches Some(at) ==> (!leap_second_in(*document, pointer@) ==> at.writable()),
{
    match string_at(document, pointer) {
        Some(text) => Timestamp::parse(text.as_str()),
        None => None,
    }
}

/// Reads a record from the text it is stored as; `None` where the text is
/// not JSON or holds no record. The times of a record that was read can be
/// written again, unless one of them lies within a leap second.
pub fn decode_state(text: &str) -> (record: Option<CircuitBreakerState>)
    ensures
        record == state_of_text(text@),
        record is Some && leap_free(json_parsed(text@)->0) ==> datable(record->0),
{
    match parse_document(text) {
        Ok(document) => {
            let position = assemble_position(
                string_at(&document, "/state"),
                time_at(&document, "/state/Open/opened_at"),
                u64_at(&document, "/state/HalfOpen/attempt_count"),
                time_at(&document, "/state/HalfOpen/last_attempt"),
            );
            assemble_state(
                position,
                u64_at(&document, "/failure_count"),
                time_at(&document, "/last_failure"),
                u64_at(&document, "/consecutive_successes"),
            )
        },
        Err(_) => None,
    }
}

/// Writes a position as JSON, around its time, which is written as a JSON
/// string already. A closed breaker shows no time.
pub fn render_position(position: &BreakerState, time: &str) -> (text: String)
    ensures
        text@ == position_text(*position, time@),
{
    match position {
        BreakerState::Closed => String::from_str("\"Closed\""),
        BreakerState::Open { opened_at: _ } => {
            let mut text = String::from_str("{\"Open\":{\"opened_at\":");
            text.append(time);
            text.append("}}");
            text
        },
        BreakerState::HalfOpen { attempt_count, last_attempt: _ } => {
            let mut text = String::from_str("{\"HalfOpen\":{\"attempt_count\":");
            push_decimal(&mut text, *attempt_count as u64);
            text.append(",\"last_attempt\":");
            text.append(time);
            text.append("}}");
            text
        },
    }
}

/// Writes a record as JSON, around its position and the time of its last
/// failure, both written as JSON already.
pub fn render_record(
    position: &str,
    failure_count: u32,
    last_failure: &str,
    consecutive_successes: u32,
) -> (text: String)
    ensures
        text@ == record_text(position@, failure_count, last_failure@, consecutive_successes),
{
    let mut text = String::from_str("{\"state\":");
    text.append(position);
    text.append(",\"failure_count\":");
    push_decimal(&mut text, failure_count as u64);
    text.append(",\"last_failure\":");
    text.append(last_failure);
    text.append(",\"consecutive_successes\":");
    push_decimal(&mut text, consecutive_successes as u64);
    text.append("}");
    text
}

/// A timestamp as a JSON string.
fn write_time(at: &Timestamp) -> (text: Option<String>)
    ensures
        text_of(text) == json_time(*at),
        at.writable() ==> text is Some,
{
    match at.to_rfc3339() {
        Some(written) => match quote(written.as_str()) {
            Ok(quoted) => Some(quoted),
            Err(_) => None,
        },
        None => None,
    }
}

/// Writes a record as the text it is stored as; `None` where one of its
/// times lies outside the dates that can be written. A record whose times
/// can all be written is written.
pub fn encode_state(record: &CircuitBreakerState) -> (text: Option<String>)
    ensures
        text_of(text) == stored_text(*record),
        datable(*record) ==> text is Some,
{
    let last_failure = match write_time(&record.last_failure) {
        Some(written) => written,
        None => { return None; },
    };
    let time = match record.state {
        BreakerState::Closed => String::new(),
        BreakerState::Open { opened_at } => match write_time(&opened_at) {
            Some(written) => written,
            None => { return None; },
        },
        BreakerState::HalfOpen { attempt_count: _, last_attempt } => match write_time(
            &last_attempt,
        ) {
            Some(written) => written,
            None => { return None; },
        },
    };
    let position = render_position(&record.state, time.as_str());
    Some(
        render_record(
            position.as_str(),
            record.failure_count,
            last_failure.as_str(),
            record.consecutive_successes,
        ),
    )
}

/// The record to go on from, given what is stored: see `loaded`. Its times
/// can be written where `now` can and nothing stored lies within a leap
/// second.
pub fn load_or_default(stored: Option<&str>, now: Timestamp) -> (record: CircuitBreakerState)
    ensures
        record == loaded(slice_text(stored), now),
        now.writable() && leap_free_text(slice_text(stored)) ==> datable(record),
{
    match stored {
        Some(text) => match decode_state(text) {
            Some(record) => record,
            None => CircuitBreakerState::initial(now),
        },
        None => CircuitBreakerState::initial(now),
    }
}

/// The path of the breaker's record below the cache directory.
pub fn state_file_path(cache_dir: &str) -> (path: String)
    ensures
        path@ == joined_path(cache_dir@, "cb_state.json"@),
{
    join_path(cache_dir, "cb_state.json")
}

/// Whether the breaker refuses a request at `now`, given what is stored of
/// it. A breaker of which nothing is stored refuses nothing.
pub fn is_open_at(
    stored: Option<&str>,
    failure_threshold: u32,
    cool_down_seconds: u64,
    now: Timestamp,
) -> (open: bool)
    ensures
        open == !loaded(slice_text(stored), now).allows(cool_down_seconds, now),
{
    let record = load_or_default(stored, now);
    !record.should_allow_request(failure_threshold, cool_down_seconds, now)
}

/// Whether the breaker refuses a request by the system clock. What the clock
/// says is not known here; the answer is the one that `is_open_at` gives for
/// the instant that the clock gave.
pub fn is_open(stored: Option<&str>, failure_threshold: u32, cool_down_seconds: u64) -> (open: bool)
    ensures
        stored is None ==> !open,
        exists|now: Timestamp|
            now.clock_reading() && open == !loaded(slice_text(stored), now).allows(
                cool_down_seconds,
                now,
            ),
{
    let now = Timestamp::now();
    is_open_at(stored, failure_threshold, cool_down_seconds, now)
}

/// The text to store after a failure at `now`, given what is stored;
/// `None` where the new record cannot be written, and what is stored stays.
///
/// The new record is written where `now` can be written and the record keeps
/// no other time, which is so unless the breaker was open already; and where
/// it was open, if the time it opened at can be written, as it can unless
/// what is stored lies within a leap second.
pub fn record_failure_at(stored: Option<&str>, failure_threshold: u32, now: Timestamp) -> (updated:
    Option<String>)
    ensures
        text_of(updated) == stored_text(
            loaded(slice_text(stored), now).after_failure(failure_threshold, now),
        ),
        datable(loaded(slice_text(stored), now).after_failure(failure_threshold, now))
            ==> updated is Some,
        now.writable() && !(loaded(slice_text(stored), now).state is Open) ==> updated is Some,
        now.writable() && leap_free_text(slice_text(stored)) ==> updated is Some,
{
    let mut record = load_or_default(stored, now);
    record.record_failure(failure_threshold, now);
    encode_state(&record)
}

/// The text to store after a failure at the instant that the system clock
/// gives. Which instant that is is not known here. Whatever it is, it can be
/// written, so the new record is there unless the breaker was open already
/// and the time it opened at lies within a leap second.
pub fn record_failure(stored: Option<&str>, failure_threshold: u32) -> (updated: Option<String>)
    ensures
        stored is None ==> updated is Some,
        leap_free_text(slice_text(stored)) ==> updated is Some,
        exists|now: Timestamp|
            now.clock_reading() && text_of(updated) == stored_text(
                loaded(slice_text(stored), now).after_failure(failure_threshold, now),
            ) && (!(loaded(slice_text(stored), now).state is Open) ==> updated is Some),
{
    let now = Timestamp::now();
    record_failure_at(stored, failure_threshold, now)
}

/// The text to store after a success at `now`, given what is stored; `None`
/// where the new record cannot be written, and what is stored stays.
///
/// The new record is written where `now` and the time of the last failure
/// can be written. The time of the last failure is `now` where nothing is
/// stored, and can be written unless what is stored lies within a leap
/// second.
pub fn record_success_at(stored: Option<&str>, now: Timestamp) -> (updated: Option<String>)
    ensures
        text_of(updated) == stored_text(loaded(slice_text(stored), now).after_success(now)),
        datable(loaded(slice_text(stored), now).after_success(now)) ==> updated is Some,
        now.writable() && loaded(slice_text(stored), now).last_failure.writable()
            ==> updated is Some,
        now.writable() && leap_free_text(slice_text(stored)) ==> updated is Some,
{
    let mut record = load_or_default(stored, now);
    record.record_success(now);
    encode_state(&record)
}

/// The text to store after a success at the instant that the system clock
/// gives. Which instant that is is not known here. Whatever it is, it can be
/// written, so the new record is there unless the time of the last failure
/// that is stored lies within a leap second.
pub fn record_success(stored: Option<&str>) -> (updated: Option<String>)
    ensures
        stored is None ==> updated is Some,
        leap_free_text(slice_text(stored)) ==> updated is Some,
        exists|now: Timestamp|
            now.clock_reading() && text_of(updated) == stored_text(
                loaded(slice_text(stored), now).after_success(now),
            ) && (loaded(slice_text(stored), now).last_failure.writable() ==> updated is Some),
{
    let now = Timestamp::now();
    record_success_at(stored, now)
}

/// While a closed breaker has seen fewer failures than the threshold, it
/// stays closed and admits every request, whenever the failures came.
pub proof fn lemma_below_threshold_allows(
    start: CircuitBreakerState,
    failure_threshold: u32,
    cool_down_seconds: u64,
    times: Seq<Timestamp>,
    now: Timestamp,
)
    requires
        start.state is Closed,
        start.failure_count + times.len() < failure_threshold,
    ensures
        start.after_failures(failure_threshold, times).state is Closed,
        start.after_failures(failure_threshold, times).failure_count == start.failure_count
            + times.len(),
        start.after_failures(failure_threshold, times).allows(cool_down_seconds, now),
    decreases times.len(),
{
    if times.len() > 0 {
        lemma_below_threshold_allows(
            start,
            failure_threshold,
            cool_down_seconds,
            times.drop_last(),
            now,
        );
    }
}

/// The failure that brings a closed breaker's count up to the threshold opens
/// it at the time of that failure, and from then on a request is admitted
/// exactly when the cool-down has passed since then.
pub proof fn lemma_threshold_opens(
    start: CircuitBreakerState,
    failure_threshold: u32,
    cool_down_seconds: u64,
    times: Seq<Timestamp>,
    now: Timestamp,
)
    requires
        start.state is Closed,
        times.len() >= 1,
        start.failure_count + times.len() == failure_threshold,
    ensures
        start.after_failures(failure_threshold, times).state == (BreakerState::Open {
            opened_at: times.last(),
        }),
        start.after_failures(failure_threshold, times).allows(cool_down_seconds, now) <==> now@
            - times.last()@ >= cool_down_seconds * NANOS_PER_SEC,
{
    lemma_below_threshold_allows(
        start,
        failure_threshold,
        cool_down_seconds,
        times.drop_last(),
        now,
    );
}

/// Failures recorded while the breaker is open leave the time it opened at
/// untouched, so the cool-down still counts from the failure that opened it.
pub proof fn lemma_open_stays_open(
    start: CircuitBreakerState,
    failure_threshold: u32,
    times: Seq<Timestamp>,
)
    requires
        start.state is Open,
    ensures
        start.after_failures(failure_threshold, times).state == start.state,
    decreases times.len(),
{
    if times.len() > 0 {
        lemma_open_stays_open(start, failure_threshold, times.drop_last());
    }
}

/// Once the cool-down has passed an open breaker admits a probe. When that
/// probe's success is recorded the breaker is half open, and admits no further
/// request until `PROBE_INTERVAL_SECS` have passed since that record.
pub proof fn lemma_probe_after_cool_down(
    open: CircuitBreakerState,
    cool_down_seconds: u64,
    probe_at: Timestamp,
    later: Timestamp,
)
    requires
        open.state is Open,
        probe_at@ - open.state->opened_at@ >= cool_down_seconds * NANOS_PER_SEC,
    ensures
        open.allows(cool_down_seconds, probe_at),
        open.after_success(probe_at).state == (BreakerState::HalfOpen {
            attempt_count: 0,
            last_attempt: probe_at,
        }),
        open.after_success(probe_at).allows(cool_down_seconds, later) <==> later@ - probe_at@
            >= PROBE_INTERVAL_SECS * NANOS_PER_SEC,
{
}

/// Two successes recorded one after the other close the breaker, wherever it
/// stood, and leave it without failures.
pub proof fn lemma_two_successes_close(
    start: CircuitBreakerState,
    first: Timestamp,
    second: Timestamp,
)
    ensures
        start.after_success(first).after_success(second).state is Closed,
        start.after_success(first).after_success(second).failure_count == 0,
{
}

/// One failure recorded while the breaker is half open opens it again at the
/// time of that failure, whatever the threshold.
pub proof fn lemma_half_open_failure_reopens(
    probing: CircuitBreakerState,
    failure_threshold: u32,
    cool_down_seconds: u64,
    failed_at: Timestamp,
    now: Timestamp,
)
    requires
        probing.state is HalfOpen,
    ensures
        probing.after_failure(failure_threshold, failed_at).state == (BreakerState::Open {
            opened_at: failed_at,
        }),
        probing.after_failure(failure_threshold, failed_at).allows(cool_down_seconds, now)
            <==> now@ - failed_at@ >= cool_down_seconds * NANOS_PER_SEC,
{
}

} // verus!
