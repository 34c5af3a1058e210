//! A structured-event logging core: typed envelopes, correlation
//! identifiers, JSON rendering of event fields, and a bounded line queue with
//! an explicit backpressure policy.
//!
//! A producer builds an envelope, one of the four emission functions turns it
//! into the serialized record and names the severity at which it travels, the
//! formatter wraps it as a field of one line, and the writer queue holds the
//! line until the sink takes it.

pub mod builder;
pub mod debug;
pub mod entries;
pub mod generator;
pub mod json;
pub mod metadata;
pub mod setting;
pub mod writer;

use crate::builder::{entries_of, text_of, Envelope, LogAction, LogBuilder};
use crate::entries::Entry;
use crate::generator::{generate_log_id, is_log_id};
use crate::json::{error_reason, json_object_text, json_string_text, string_to_json};
use crate::metadata::Metadata;
use crate::setting::SerializeError;
use vstd::prelude::*;
use vstd::string::*;

verus! {

/// The canonical content of one log line.
pub struct LogEntry {
    /// The instant of assembly, in UTC, as RFC 3339 text.
    pub timestamp: String,
    pub log_id: String,
    pub log_level: String,
    pub log_type: String,
    pub module: String,
    pub user_id: Option<String>,
    pub user_name: Option<String>,
    pub event_id: String,
    pub log_msg: String,
    pub action: String,
    pub metadata: Option<Metadata>,
}

/// What a record holds, as plain values.
pub struct Record {
    pub timestamp: Seq<char>,
    pub log_id: Seq<char>,
    pub log_level: Seq<char>,
    pub log_type: Seq<char>,
    pub module: Seq<char>,
    pub user_id: Option<Seq<char>>,
    pub user_name: Option<Seq<char>>,
    pub event_id: Seq<char>,
    pub log_msg: Seq<char>,
    pub action: Seq<char>,
    pub metadata: Option<Seq<Entry>>,
}

impl View for LogEntry {
    type V = Record;

    open spec fn view(&self) -> Record {
        Record {
            timestamp: self.timestamp@,
            log_id: self.log_id@,
            log_level: self.log_level@,
            log_type: self.log_type@,
            module: self.module@,
            user_id: text_of(self.user_id),
            user_name: text_of(self.user_name),
            event_id: self.event_id@,
            log_msg: self.log_msg@,
            action: self.action@,
            metadata: entries_of(self.metadata),
        }
    }
}

/// The text that stands for the action of an envelope without one.
pub open spec fn absent_action_text() -> Seq<char> {
    "None"@
}

/// The action text of a record: the short text of the envelope's action, or
/// `None` where the envelope has no action.
pub open spec fn action_text(action: Option<Seq<char>>) -> Seq<char> {
    match action {
        Some(text) => text,
        None => absent_action_text(),
    }
}

/// The record assembled from `envelope` at severity `level`, identified by
/// `log_id` and stamped with `timestamp`: every field of the envelope is
/// carried over unchanged, and the action by its short text.
pub open spec fn assembled(
    envelope: Envelope,
    level: Seq<char>,
    log_id: Seq<char>,
    timestamp: Seq<char>,
) -> Record {
    Record {
        timestamp,
        log_id,
        log_level: level,
        log_type: envelope.log_type,
        module: envelope.module,
        user_id: envelope.user_id,
        user_name: envelope.user_name,
        event_id: envelope.event_id,
        log_msg: envelope.log_msg,
        action: action_text(envelope.action),
        metadata: envelope.metadata,
    }
}

/// The JSON text of an optional string: `null` where it is absent.
pub open spec fn optional_string_text(s: Option<Seq<char>>) -> Seq<char> {
    match s {
        Some(s) => json_string_text(s),
        None => "null"@,
    }
}

/// The JSON text of optional metadata: `null` where it is absent.
pub open spec fn optional_object_text(entries: Option<Seq<Entry>>) -> Seq<char> {
    match entries {
        Some(entries) => json_object_text(entries),
        None => "null"@,
    }
}

/// The JSON texts of the members of one record, each already serialized.
pub struct RecordMembers {
    pub timestamp: String,
    pub log_id: String,
    pub log_level: String,
    pub log_type: String,
    pub module: String,
    pub user_id: String,
    pub user_name: String,
    pub event_id: String,
    pub log_msg: String,
    pub action: String,
    pub metadata: String,
}

/// The members of one record as plain texts.
pub struct MemberTexts {
    pub timestamp: Seq<char>,
    pub log_id: Seq<char>,
    pub log_level: Seq<char>,
    pub log_type: Seq<char>,
    pub module: Seq<char>,
    pub user_id: Seq<char>,
    pub user_name: Seq<char>,
    pub event_id: Seq<char>,
    pub log_msg: Seq<char>,
    pub action: Seq<char>,
    pub metadata: Seq<char>,
}

impl View for RecordMembers {
    type V = MemberTexts;

    open spec fn view(&self) -> MemberTexts {
        MemberTexts {
            timestamp: self.timestamp@,
            log_id: self.log_id@,
            log_level: self.log_level@,
            log_type: self.log_type@,
            module: self.module@,
            user_id: self.user_id@,
            user_name: self.user_name@,
            event_id: self.event_id@,
            log_msg: self.log_msg@,
            action: self.action@,
            metadata: self.metadata@,
        }
    }
}

/// The JSON texts of the members of `record`.
pub open spec fn member_texts(record: Record) -> MemberTexts {
    MemberTexts {
        timestamp: json_string_text(record.timestamp),
        log_id: json_string_text(record.log_id),
        log_level: json_string_text(record.log_level),
        log_type: json_string_text(record.log_type),
        module: json_string_text(record.module),
        user_id: optional_string_text(record.user_id),
        user_name: optional_string_text(record.user_name),
        event_id: json_string_text(record.event_id),
        log_msg: json_string_text(record.log_msg),
        action: json_string_text(record.action),
        metadata: optional_object_text(record.metadata),
    }
}

/// One compact JSON object that holds the members under their names, in the
/// canonical order.
pub open spec fn framed(members: MemberTexts) -> Seq<char> {
    "{\"timestamp\":"@ + members.timestamp + ",\"log_id\":"@ + members.log_id
        + ",\"log_level\":"@ + members.log_level + ",\"log_type\":"@ + members.log_type
        + ",\"module\":"@ + members.module + ",\"user_id\":"@ + members.user_id
        + ",\"user_name\":"@ + members.user_name + ",\"event_id\":"@ + members.event_id
        + ",\"log_msg\":"@ + members.log_msg + ",\"action\":"@ + members.action
        + ",\"metadata\":"@ + members.metadata + "}"@
}

/// The serialized record.
pub open spec fn record_text(record: Record) -> Seq<char> {
    framed(member_texts(record))
}

/// What is logged in place of a record that could not be serialized.
pub open spec fn failure_text(reason: Seq<char>) -> Seq<char> {
    "Failed to serialize log: "@ + reason
}

/// `c` is a decimal digit.
pub open spec fn is_digit(c: char) -> bool {
    '0' <= c && c <= '9'
}

/// Every character of `s` is a decimal digit.
pub open spec fn is_digits(s: Seq<char>) -> bool {
    forall|i: int| 0 <= i < s.len() ==> is_digit(#[trigger] s[i])
}

/// `s` is the year of an RFC 3339 date: four digits, or a plus sign and
/// five digits or more for a year after 9999.
pub open spec fn is_stamp_year(s: Seq<char>) -> bool {
    ||| s.len() == 4 && is_digits(s)
    ||| s.len() >= 6 && s[0] == '+' && is_digits(s.skip(1))
}

/// `s` is what follows the year up to the seconds: `-MM-DDTHH:MM:SS`.
pub open spec fn is_stamp_clock(s: Seq<char>) -> bool {
    &&& s.len() == 15
    &&& s[0] == '-' && is_digit(s[1]) && is_digit(s[2])
    &&& s[3] == '-' && is_digit(s[4]) && is_digit(s[5])
    &&& s[6] == 'T' && is_digit(s[7]) && is_digit(s[8])
    &&& s[9] == ':' && is_digit(s[10]) && is_digit(s[11])
    &&& s[12] == ':' && is_digit(s[13]) && is_digit(s[14])
}

/// `s` is the fraction of a second: nothing, or a point and three, six or
/// nine digits.
pub open spec fn is_stamp_fraction(s: Seq<char>) -> bool {
    ||| s.len() == 0
    ||| (s.len() == 4 || s.len() == 7 || s.len() == 10) && s[0] == '.' && is_digits(s.skip(1))
}

/// `text` has the form of an RFC 3339 instant in UTC: year, month, day, `T`,
/// hour, minute, second, an optional fraction, and `Z`.
pub open spec fn is_utc_stamp(text: Seq<char>) -> bool {
    exists|year: int, fraction: int|
        {
            &&& 0 <= year && 0 <= fraction
            &&& text.len() == year + 15 + fraction + 1
            &&& is_stamp_year(#[trigger] text.subrange(0, year))
            &&& is_stamp_clock(text.subrange(year, year + 15))
            &&& is_stamp_fraction(#[trigger] text.subrange(year + 15, year + 15 + fraction))
            &&& text.last() == 'Z'
        }
}

/// `line` is what emitting `envelope` at `level` hands on: the serialized
/// record of the envelope with a well-shaped fresh identifier and a UTC
/// timestamp.
pub open spec fn is_log_line(envelope: Envelope, level: Seq<char>, line: Seq<char>) -> bool {
    exists|log_id: Seq<char>, timestamp: Seq<char>|
        is_log_id(log_id) && is_utc_stamp(timestamp) && line == #[trigger] record_text(
            assembled(envelope, level, log_id, timestamp),
        )
}

/// Calls `chrono::Utc::now` and `DateTime::to_rfc3339_opts` with
/// `SecondsFormat::AutoSi` and `Z` for the offset, which is the text that
/// chrono's own serializer writes. Which instant the text denotes depends on
/// the clock. Trusted: whatever the instant, the text is a year of four
/// digits (or a plus sign and more digits after the year 9999), then
/// `-MM-DDTHH:MM:SS`, then no fraction or one of three, six or nine digits,
/// then `Z`. `Utc::now` panics where the system clock stands before 1970.
#[verifier::external_body]
fn utc_now_text() -> (text: String)
    ensures
        is_utc_stamp(text@),
{
    chrono::Utc::now().to_rfc3339_opts(chrono::SecondsFormat::AutoSi, true)
}

/// The JSON text of a string, as the serializer writes it.
fn json_string(s: &str) -> (r: Result<String, SerializeError>)
    ensures
        r is Ok,
        r matches Ok(text) ==> text@ == json_string_text(s@),
{
    match string_to_json(s) {
        Ok(text) => Ok(text),
        Err(e) => Err(SerializeError { reason: error_reason(&e) }),
    }
}

/// The JSON text of an optional string. An absent string is `null`.
fn json_optional_string(s: &Option<String>) -> (r: Result<String, SerializeError>)
    ensures
        r is Ok,
        r matches Ok(text) ==> text@ == optional_string_text(text_of(*s)),
{
    match s {
        Some(s) => json_string(s.as_str()),
        None => Ok("null".to_owned()),
    }
}

/// The JSON text of optional metadata. Absent metadata is `null`.
fn json_optional_metadata(metadata: &Option<Metadata>) -> (r: Result<String, SerializeError>)
    ensures
        r is Ok,
        r matches Ok(text) ==> text@ == optional_object_text(entries_of(*metadata)),
{
    match metadata {
        Some(m) => m.to_json(),
        None => Ok("null".to_owned()),
    }
}

/// Frames serialized members as one record.
pub fn frame_record(members: &RecordMembers) -> (text: String)
    ensures
        text@ == framed(members@),
{
    let mut text = String::from_str("{\"timestamp\":");
    text.append(members.timestamp.as_str());
    text.append(",\"log_id\":");
    text.append(members.log_id.as_str());
    text.append(",\"log_level\":");
    text.append(members.log_level.as_str());
    text.append(",\"log_type\":");
    text.append(members.log_type.as_str());
    text.append(",\"module\":");
    text.append(members.module.as_str());
    text.append(",\"user_id\":");
    text.append(members.user_id.as_str());
    text.append(",\"user_name\":");
    text.append(members.user_name.as_str());
    text.append(",\"event_id\":");
    text.append(members.event_id.as_str());
    text.append(",\"log_msg\":");
    text.append(members.log_msg.as_str());
    text.append(",\"action\":");
    text.append(members.action.as_str());
    text.append(",\"metadata\":");
    text.append(members.metadata.as_str());
    text.append("}");
    text
}

impl LogEntry {
    /// Serializes each member: strings as JSON strings, an absent user as
    /// `null`, the metadata as an object of strings or as `null`. The
    /// serializer does not fail on strings, so every member is written.
    pub fn serialize_members(&self) -> (r: Result<RecordMembers, SerializeError>)
        ensures
            r is Ok,
            r matches Ok(members) ==> members@ == member_texts(self@),
    {
        Ok(
            RecordMembers {
                timestamp: json_string(self.timestamp.as_str())?,
                log_id: json_string(self.log_id.as_str())?,
                log_level: json_string(self.log_level.as_str())?,
                log_type: json_string(self.log_type.as_str())?,
                module: json_string(self.module.as_str())?,
                user_id: json_optional_string(&self.user_id)?,
                user_name: json_optional_string(&self.user_name)?,
                event_id: json_string(self.event_id.as_str())?,
                log_msg: json_string(self.log_msg.as_str())?,
                action: json_string(self.action.as_str())?,
                metadata: json_optional_metadata(&self.metadata)?,
            },
        )
    }

    /// The record as one line of compact JSON: the members under their
    /// names, in the canonical order.
    pub fn to_json(&self) -> (r: Result<String, SerializeError>)
        ensures
            r is Ok,
            r matches Ok(text) ==> text@ == record_text(self@),
    {
        match self.serialize_members() {
            Ok(members) => Ok(frame_record(&members)),
            Err(e) => Err(e),
        }
    }
}

/// Renders the action of an envelope: its short text, or `None` where the
/// envelope has no action. The text is never empty.
pub fn render_action<A: LogAction>(action: &Option<A>) -> (text: String)
    ensures
        text@ == action_text(
            match *action {
                Some(a) => Some(a.short_text()),
                None => None,
            },
        ),
        text@.len() > 0,
{
    proof {
        reveal_strlit("None");
    }
    match action {
        Some(a) => a.to_string(),
        None => "None".to_owned(),
    }
}

/// Assembles the record for `log` at severity `log_level`, identified by
/// `log_id` and stamped with `timestamp`. Every field of the envelope is
/// carried over unchanged; the action is rendered to its short text, or to
/// `None` where the envelope has none, and is never empty.
pub fn assemble<A: LogAction>(
    log: LogBuilder<A>,
    log_level: &str,
    log_id: String,
    timestamp: String,
) -> (entry: LogEntry)
    ensures
        entry@ == assembled(log@, log_level@, log_id@, timestamp@),
        entry@.action.len() > 0,
{
    let action = render_action(&log.action);
    LogEntry {
        timestamp,
        log_id,
        log_level: log_level.to_owned(),
        log_type: log.log_type,
        module: log.module,
        user_id: log.user_id,
        user_name: log.user_name,
        event_id: log.event_id,
        log_msg: log.log_msg,
        action,
        metadata: log.metadata,
    }
}

/// What is handed on for a record, given what serializing it gave: the JSON
/// text, or the diagnostic that embeds the reason. A failure never reaches
/// the caller as an error.
pub fn finish_log(serialized: Result<String, SerializeError>) -> (line: String)
    ensures
        line@ == match serialized {
            Ok(json) => json@,
            Err(e) => failure_text(e.reason@),
        },
{
    match serialized {
        Ok(json) => json,
        Err(e) => {
            let mut line = String::from_str("Failed to serialize log: ");
            line.append(e.reason.as_str());
            line
        },
    }
}

/// Serializes the record for `log` at severity `log_level`, with a fresh
/// identifier and the current time: the line is the record of the envelope,
/// never the diagnostic, since the serializer does not fail on a record.
///
/// The call reads the system's random source and its clock. It panics where
/// the random source fails or the clock stands before 1970; nothing else in
/// it can make a log call fail its caller.
pub fn create_log<A: LogAction>(log: LogBuilder<A>, log_level: &str) -> (line: String)
    ensures
        is_log_line(log@, log_level@, line@),
{
    let log_id = generate_log_id();
    let timestamp = utc_now_text();
    let ghost id_text = log_id@;
    let ghost time_text = timestamp@;
    let entry = assemble(log, log_level, log_id, timestamp);
    let line = finish_log(entry.to_json());
    assert(line@ == record_text(assembled(log@, log_level@, id_text, time_text)));
    line
}

/// The severity at which a line travels through the logging facility.
#[derive(Clone, Copy, Debug, PartialEq, Eq, Structural)]
pub enum Severity {
    Info,
    Warn,
    Error,
}

/// One line for the logging facility, with the severity at which to hand it
/// over.
pub struct Emission {
    pub severity: Severity,
    pub line: String,
}

/// The line for `log` at level `INFO`, to be handed over at `Info`.
pub fn log_info<A: LogAction>(log: LogBuilder<A>) -> (emission: Emission)
    ensures
        emission.severity == Severity::Info,
        is_log_line(log@, "INFO"@, emission.line@),
{
    Emission { severity: Severity::Info, line: create_log(log, "INFO") }
}

/// The line for `log` at level `WARN`, to be handed over at `Warn`.
pub fn log_warn<A: LogAction>(log: LogBuilder<A>) -> (emission: Emission)
    ensures
        emission.severity == Severity::Warn,
        is_log_line(log@, "WARN"@, emission.line@),
{
    Emission { severity: Severity::Warn, line: create_log(log, "WARN") }
}

/// The line for `log` at level `ERROR`, to be handed over at `Error`.
pub fn log_error<A: LogAction>(log: LogBuilder<A>) -> (emission: Emission)
    ensures
        emission.severity == Severity::Error,
        is_log_line(log@, "ERROR"@, emission.line@),
{
    Emission { severity: Severity::Error, line: create_log(log, "ERROR") }
}

/// The line for `log` at level `AUDIT`. The record keeps its own level tag;
/// the line is handed over at `Info`.
pub fn log_audit<A: LogAction>(log: LogBuilder<A>) -> (emission: Emission)
    ensures
        emission.severity == Severity::Info,
        is_log_line(log@, "AUDIT"@, emission.line@),
{
    Emission { severity: Severity::Info, line: create_log(log, "AUDIT") }
}

} // verus!
