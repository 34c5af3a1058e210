//! From the named fields of one event to one line of JSON.
//!
//! The fields are visited in the order in which the call site attached them
//! and collected in an ordered JSON object; the formatter wraps that object
//! together with the service label. The pairing of formatter and writer is
//! installed once for the process.

use crate::entries::{keys_distinct, lemma_upsert, upsert, upsert_all, Entry};
use crate::json::{
    error_reason, json_object_text, json_string_text, object_entries, object_insert, object_new,
    object_to_json, string_to_json,
};
use vstd::prelude::*;
use vstd::string::*;

verus! {

/// Why a value could not be written as JSON.
pub struct SerializeError {
    /// The serializer's reason, in words.
    pub reason: String,
}

/// The value of one field of an event, as the call site gave it.
pub enum FieldValue {
    /// A string, taken as it is.
    Str(String),
    /// Any other value, by its debug rendering.
    Debug(String),
}

impl FieldValue {
    /// The text that the field set holds for this value. A value that is not
    /// a string is held as the string of its rendering, never as a JSON
    /// number or boolean.
    pub open spec fn text(&self) -> Seq<char> {
        match self {
            FieldValue::Str(s) => s@,
            FieldValue::Debug(rendered) => rendered@,
        }
    }
}

/// One named field of an event.
pub struct EventField {
    pub name: String,
    pub value: FieldValue,
}

impl EventField {
    /// The entry that visiting this field writes.
    pub open spec fn entry(&self) -> Entry {
        (self.name@, self.value.text())
    }
}

/// The entries that visiting `fields` in order writes, one for each field.
pub open spec fn writes_of(fields: Seq<EventField>) -> Seq<Entry> {
    Seq::new(fields.len(), |i: int| fields[i].entry())
}

/// The entries of the field set that visiting `fields` in order builds.
pub open spec fn visit(fields: Seq<EventField>) -> Seq<Entry> {
    upsert_all(Seq::empty(), writes_of(fields))
}

/// The ordered JSON object built from the fields of one event. A later write
/// to a name replaces the earlier value; names stand in the order in which
/// they were first written.
pub struct FieldSet {
    object: serde_json::Map<String, serde_json::Value>,
}

impl FieldSet {
    /// The members, in order.
    pub closed spec fn entries(&self) -> Seq<Entry> {
        object_entries(self.object)
    }

    /// What every value of this type satisfies: no name is held twice.
    #[verifier::type_invariant]
    pub open spec fn well_formed(&self) -> bool {
        keys_distinct(self.entries())
    }

    /// The empty field set.
    pub fn new() -> (set: FieldSet)
        ensures
            set.entries() == Seq::<Entry>::empty(),
    {
        FieldSet { object: object_new() }
    }

    /// Visits a string field: `value` is held for `name` as it is. A name
    /// that is present keeps its place and takes the new value; a new name
    /// is appended.
    pub fn record_str(&mut self, name: &str, value: &str)
        ensures
            final(self).entries() == upsert(old(self).entries(), name@, value@),
    {
        self.write(name, value);
    }

    /// Visits a field that is not a string: `rendered`, its debug rendering,
    /// is held for `name` as a string.
    pub fn record_debug(&mut self, name: &str, rendered: &str)
        ensures
            final(self).entries() == upsert(old(self).entries(), name@, rendered@),
    {
        self.write(name, rendered);
    }

    /// Visits `field`.
    pub fn record(&mut self, field: &EventField)
        ensures
            final(self).entries() == upsert(
                old(self).entries(),
                field.entry().0,
                field.entry().1,
            ),
    {
        match &field.value {
            FieldValue::Str(value) => self.record_str(field.name.as_str(), value.as_str()),
            FieldValue::Debug(rendered) => self.record_debug(
                field.name.as_str(),
                rendered.as_str(),
            ),
        }
    }

    fn write(&mut self, name: &str, text: &str)
        ensures
            final(self).entries() == upsert(old(self).entries(), name@, text@),
    {
        proof {
            use_type_invariant(&*self);
            lemma_upsert(self.entries(), name@, text@);
        }
        let mut object = object_new();
        core::mem::swap(&mut self.object, &mut object);
        object_insert(&mut object, name.to_owned(), text.to_owned());
        core::mem::swap(&mut self.object, &mut object);
    }

    /// The compact JSON text of the object: its members in order between
    /// braces. The serializer does not fail on an object of strings.
    pub fn to_json(&self) -> (r: Result<String, SerializeError>)
        ensures
            r is Ok,
            r matches Ok(text) ==> text@ == json_object_text(self.entries()),
    {
        match object_to_json(&self.object) {
            Ok(text) => Ok(text),
            Err(e) => Err(SerializeError { reason: error_reason(&e) }),
        }
    }
}

/// Visits the fields of one event in order and collects them.
pub fn process_event(fields: &Vec<EventField>) -> (set: FieldSet)
    ensures
        set.entries() == visit(fields@),
{
    let mut set = FieldSet::new();
    let n = fields.len();
    let mut i: usize = 0;
    while i < n
        invariant
            i <= n,
            n == fields@.len(),
            set.entries() == upsert_all(Seq::empty(), writes_of(fields@).take(i as int)),
        decreases n - i,
    {
        proof {
            let writes = writes_of(fields@);
            assert(writes.take(i + 1).drop_last() =~= writes.take(i as int));
            assert(writes.take(i + 1).last() == fields@[i as int].entry());
        }
        set.record(&fields[i]);
        i += 1;
    }
    proof {
        assert(writes_of(fields@).take(n as int) =~= writes_of(fields@));
    }
    set
}

/// The line that wraps the JSON text `fields_json` with the label `scope`:
/// one JSON object with the label as a string and the fields as they are,
/// and a line feed.
pub open spec fn line_text(scope: Seq<char>, fields_json: Seq<char>) -> Seq<char> {
    "{\"scope\":"@ + json_string_text(scope) + ",\"fields\":"@ + fields_json + "}\n"@
}

/// The JSON text that stands for the fields in a line: the serialized
/// object, or the empty object where serializing failed.
pub open spec fn fields_or_empty(serialized: Option<Seq<char>>) -> Seq<char> {
    match serialized {
        Some(text) => text,
        None => "{}"@,
    }
}

/// Formats events for one service.
pub struct CustomFormatter {
    /// The label written as the scope of every line.
    pub service_name: String,
}

impl CustomFormatter {
    /// The line for one event, given what serializing its fields gave:
    /// `{"scope":"<label>","fields":<object>}` and a line feed, with the
    /// empty object in place of fields that could not be serialized. The
    /// label is written as a JSON string, so a label with a quote or a line
    /// feed in it still gives one line of JSON. The formatter adds no
    /// timestamp and no level.
    pub fn format_line(&self, serialized: Option<&str>) -> (line: String)
        ensures
            line@ == line_text(
                self.service_name@,
                fields_or_empty(
                    match serialized {
                        Some(text) => Some(text@),
                        None => None,
                    },
                ),
            ),
    {
        let mut line = String::from_str("{\"scope\":");
        match string_to_json(self.service_name.as_str()) {
            Ok(label) => line.append(label.as_str()),
            Err(_) => {
                line.append("\"");
                line.append(self.service_name.as_str());
                line.append("\"");
            },
        }
        line.append(",\"fields\":");
        match serialized {
            Some(text) => line.append(text),
            None => line.append("{}"),
        }
        line.append("}\n");
        line
    }

    /// The line for a field set: its serialized object wrapped with the
    /// label.
    pub fn format_fields(&self, set: &FieldSet) -> (line: String)
        ensures
            line@ == line_text(self.service_name@, json_object_text(set.entries())),
    {
        match set.to_json() {
            Ok(text) => self.format_line(Some(text.as_str())),
            Err(_) => self.format_line(None),
        }
    }

    /// The line for one event: its fields are visited in order, collected,
    /// serialized and wrapped.
    pub fn format_event(&self, fields: &Vec<EventField>) -> (line: String)
        ensures
            line@ == line_text(self.service_name@, json_object_text(visit(fields@))),
    {
        let set = process_event(fields);
        self.format_fields(&set)
    }
}

/// Why the log consumer could not be installed.
#[derive(Clone, Copy, Debug, PartialEq, Eq, Structural)]
pub enum InitError {
    /// A consumer is installed already; it stays in place.
    AlreadyInitialized,
}

/// Whether the process has its log consumer. The consumer is installed
/// once; a second attempt is refused and changes nothing.
pub struct Installation {
    installed: bool,
}

impl View for Installation {
    type V = bool;

    /// Whether a consumer is installed.
    closed spec fn view(&self) -> bool {
        self.installed
    }
}

impl Installation {
    /// The state of a process without a log consumer.
    pub fn new() -> (state: Installation)
        ensures
            !state@,
    {
        Installation { installed: false }
    }

    /// Whether a consumer is installed.
    pub fn is_installed(&self) -> (installed: bool)
        ensures
            installed == self@,
    {
        self.installed
    }

    /// Claims the installation. The first claim succeeds; every later one
    /// fails with `AlreadyInitialized` and leaves the first in place.
    pub fn install(&mut self) -> (r: Result<(), InitError>)
        ensures
            final(self)@,
            r is Ok == !old(self)@,
            r is Err ==> r == Err::<(), InitError>(InitError::AlreadyInitialized),
    {
        if self.installed {
            Err(InitError::AlreadyInitialized)
        } else {
            self.installed = true;
            Ok(())
        }
    }
}

} // verus!
