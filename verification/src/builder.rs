//! Envelopes: the draft of a log event, built by its producer.

use crate::entries::{keys_distinct, to_map, upsert, Entry};
use crate::debug::{
    debug_string, optional_debug_text, optional_map_debug_text, optional_string_debug_text,
};
use crate::metadata::Metadata;
use vstd::prelude::*;
use vstd::string::*;

verus! {

/// What an action must offer to be carried in an envelope: a short text for
/// the record, and a text for diagnostics. The short text is never empty.
///
/// Both texts belong to the contract of an action, so an implementation is
/// written where its texts can be stated. A vocabulary that is declared
/// elsewhere is carried by its renderings, as a `RenderedAction`.
pub trait LogAction {
    /// The short text of the action.
    spec fn short_text(&self) -> Seq<char>;

    /// The diagnostic text of the action.
    spec fn diagnostic_text(&self) -> Seq<char>;

    /// Renders the short text.
    fn to_string(&self) -> (text: String)
        ensures
            text@ == self.short_text(),
            text@.len() > 0,
    ;

    /// Renders the diagnostic text.
    fn to_debug_string(&self) -> (text: String)
        ensures
            text@ == self.diagnostic_text(),
    ;
}

/// The actions that the system itself records.
#[derive(Debug)]
pub enum SystemLogs {
    SystemAction,
}

/// The short text of the system action, which is its diagnostic text too.
pub open spec fn system_action_text() -> Seq<char> {
    "SystemAction"@
}

impl LogAction for SystemLogs {
    open spec fn short_text(&self) -> Seq<char> {
        system_action_text()
    }

    open spec fn diagnostic_text(&self) -> Seq<char> {
        system_action_text()
    }

    fn to_string(&self) -> (text: String) {
        proof {
            reveal_strlit("SystemAction");
        }
        match self {
            SystemLogs::SystemAction => "SystemAction".to_owned(),
        }
    }

    fn to_debug_string(&self) -> (text: String) {
        match self {
            SystemLogs::SystemAction => "SystemAction".to_owned(),
        }
    }
}

/// An action known by its two renderings: the form in which a vocabulary of
/// actions that is declared elsewhere travels in an envelope.
#[derive(Debug)]
pub struct RenderedAction {
    text: String,
    debug: String,
}

impl RenderedAction {
    /// What every value of this type satisfies: the short text is not empty.
    #[verifier::type_invariant]
    pub closed spec fn well_formed(&self) -> bool {
        self.text@.len() > 0
    }

    /// The action with the short text `text` and the diagnostic text
    /// `debug`. There is no action with an empty short text.
    pub fn new(text: &str, debug: &str) -> (action: Option<RenderedAction>)
        ensures
            action is Some == (text@.len() > 0),
            action matches Some(a) ==> a.short_text() == text@ && a.diagnostic_text() == debug@,
    {
        if text.is_empty() {
            None
        } else {
            Some(RenderedAction { text: text.to_owned(), debug: debug.to_owned() })
        }
    }
}

impl LogAction for RenderedAction {
    closed spec fn short_text(&self) -> Seq<char> {
        self.text@
    }

    closed spec fn diagnostic_text(&self) -> Seq<char> {
        self.debug@
    }

    fn to_string(&self) -> (text: String) {
        proof {
            use_type_invariant(self);
        }
        self.text.clone()
    }

    fn to_debug_string(&self) -> (text: String) {
        self.debug.clone()
    }
}

/// The category of an envelope built for a user's action.
pub open spec fn user_category() -> Seq<char> {
    "User"@
}

/// The category of an envelope built for the system's own events.
pub open spec fn system_category() -> Seq<char> {
    "System"@
}

/// The draft of a log event.
pub struct LogBuilder<A: LogAction> {
    pub event_id: String,
    pub log_type: String,
    pub log_msg: String,
    pub module: String,
    pub user_id: Option<String>,
    pub user_name: Option<String>,
    pub action: Option<A>,
    pub metadata: Option<Metadata>,
}

/// What an envelope holds, as plain values: texts for the strings, the short
/// text of the action, and the metadata entries in first-write order.
pub struct Envelope {
    pub event_id: Seq<char>,
    pub log_type: Seq<char>,
    pub log_msg: Seq<char>,
    pub module: Seq<char>,
    pub user_id: Option<Seq<char>>,
    pub user_name: Option<Seq<char>>,
    pub action: Option<Seq<char>>,
    pub metadata: Option<Seq<Entry>>,
}

/// The text of an optional string.
pub open spec fn text_of(s: Option<String>) -> Option<Seq<char>> {
    match s {
        Some(s) => Some(s@),
        None => None,
    }
}

/// The entries of optional metadata.
pub open spec fn entries_of(metadata: Option<Metadata>) -> Option<Seq<Entry>> {
    match metadata {
        Some(m) => Some(m.entries()),
        None => None,
    }
}

/// The entries that optional metadata holds: none where it is absent.
pub open spec fn entries_or_empty(metadata: Option<Seq<Entry>>) -> Seq<Entry> {
    match metadata {
        Some(entries) => entries,
        None => Seq::empty(),
    }
}

/// The one-line summary of `envelope`, with `action` as the diagnostic text
/// of its action: who acted, what was done, the message and the metadata.
pub open spec fn summary_text(envelope: Envelope, action: Option<Seq<char>>) -> Seq<char> {
    "{ user_id: "@ + optional_string_debug_text(envelope.user_id) + ", action: "@
        + optional_debug_text(action) + ", message: \""@ + envelope.log_msg + "\", metadata: "@
        + optional_map_debug_text(envelope.metadata) + " }"@
}

fn optional_debug_string(inner: Option<String>) -> (text: String)
    ensures
        text@ == optional_debug_text(text_of(inner)),
{
    match inner {
        Some(inner) => {
            let mut text = String::from_str("Some(");
            text.append(inner.as_str());
            text.append(")");
            text
        },
        None => String::from_str("None"),
    }
}

impl<A: LogAction> View for LogBuilder<A> {
    type V = Envelope;

    open spec fn view(&self) -> Envelope {
        Envelope {
            event_id: self.event_id@,
            log_type: self.log_type@,
            log_msg: self.log_msg@,
            module: self.module@,
            user_id: text_of(self.user_id),
            user_name: text_of(self.user_name),
            action: match self.action {
                Some(a) => Some(a.short_text()),
                None => None,
            },
            metadata: entries_of(self.metadata),
        }
    }
}

impl<A: LogAction> LogBuilder<A> {
    /// The metadata as a mapping, order set aside; empty where the envelope
    /// holds none.
    pub open spec fn metadata_map(&self) -> Map<Seq<char>, Seq<char>> {
        to_map(entries_or_empty(self@.metadata))
    }

    /// The diagnostic text of the action, if the envelope has one.
    pub open spec fn diagnostic_action(&self) -> Option<Seq<char>> {
        match self.action {
            Some(a) => Some(a.diagnostic_text()),
            None => None,
        }
    }

    /// The one-line summary of the envelope, for diagnostics: who acted,
    /// the action by its diagnostic text, the message and the metadata.
    pub fn summary(&self) -> (text: String)
        ensures
            text@ == summary_text(self@, self.diagnostic_action()),
    {
        let user_id = optional_debug_string(
            match &self.user_id {
                Some(id) => Some(debug_string(id.as_str())),
                None => None,
            },
        );
        let action = optional_debug_string(
            match &self.action {
                Some(a) => Some(a.to_debug_string()),
                None => None,
            },
        );
        let metadata = optional_debug_string(
            match &self.metadata {
                Some(m) => Some(m.to_debug_string()),
                None => None,
            },
        );
        let mut text = String::from_str("{ user_id: ");
        text.append(user_id.as_str());
        text.append(", action: ");
        text.append(action.as_str());
        text.append(", message: \"");
        text.append(self.log_msg.as_str());
        text.append("\", metadata: ");
        text.append(metadata.as_str());
        text.append(" }");
        text
    }

    /// An envelope for a user's action, with empty metadata.
    pub fn user(
        event_id: &str,
        module: &str,
        user_id: &str,
        user_name: &str,
        msg: &str,
        action: A,
    ) -> (log: Self)
        ensures
            log@ == (Envelope {
                event_id: event_id@,
                log_type: user_category(),
                log_msg: msg@,
                module: module@,
                user_id: Some(user_id@),
                user_name: Some(user_name@),
                action: Some(action.short_text()),
                metadata: Some(Seq::empty()),
            }),
            log.action == Some(action),
    {
        LogBuilder {
            event_id: event_id.to_owned(),
            module: module.to_owned(),
            log_type: "User".to_owned(),
            user_id: Some(user_id.to_owned()),
            user_name: Some(user_name.to_owned()),
            log_msg: msg.to_owned(),
            action: Some(action),
            metadata: Some(Metadata::new()),
        }
    }

    /// The envelope with `value` written for the metadata key `key`. The
    /// last write for a key wins, every other key keeps its value, and
    /// nothing else in the envelope changes. An envelope without metadata
    /// gets metadata that holds this one entry.
    pub fn add_metadata(self, key: &str, value: &str) -> (log: Self)
        ensures
            log@ == (Envelope {
                metadata: Some(upsert(entries_or_empty(self@.metadata), key@, value@)),
                ..self@
            }),
            log.action == self.action,
            log.metadata_map() == self.metadata_map().insert(key@, value@),
            keys_distinct(entries_or_empty(log@.metadata)),
    {
        let mut metadata = match self.metadata {
            Some(m) => m,
            None => Metadata::new(),
        };
        metadata.insert(key, value);
        proof {
            use_type_invariant(&metadata);
        }
        LogBuilder {
            event_id: self.event_id,
            log_type: self.log_type,
            log_msg: self.log_msg,
            module: self.module,
            user_id: self.user_id,
            user_name: self.user_name,
            action: self.action,
            metadata: Some(metadata),
        }
    }
}

impl LogBuilder<SystemLogs> {
    /// An envelope for one of the system's own events: no user, the fixed
    /// system action, empty metadata.
    pub fn system(event_id: &str, module: &str, msg: &str) -> (log: Self)
        ensures
            log@ == (Envelope {
                event_id: event_id@,
                log_type: system_category(),
                log_msg: msg@,
                module: module@,
                user_id: None,
                user_name: None,
                action: Some(system_action_text()),
                metadata: Some(Seq::empty()),
            }),
            log.action == Some(SystemLogs::SystemAction),
    {
        LogBuilder {
            event_id: event_id.to_owned(),
            module: module.to_owned(),
            log_type: "System".to_owned(),
            user_id: None,
            user_name: None,
            log_msg: msg.to_owned(),
            action: Some(SystemLogs::SystemAction),
            metadata: Some(Metadata::new()),
        }
    }
}

} // verus!
