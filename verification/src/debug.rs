//! Debug renderings, as the standard library writes them.

use crate::entries::Entry;
use vstd::prelude::*;

verus! {

/// The debug rendering of a string: quoted and escaped, as the standard
/// library writes it.
pub uninterp spec fn debug_text(s: Seq<char>) -> Seq<char>;

/// Formats a string with `{:?}`, that is with the `Debug` of `str`. Trusted:
/// the text depends on the characters alone.
#[verifier::external_body]
pub(crate) fn debug_string(s: &str) -> (text: String)
    ensures
        text@ == debug_text(s@),
{
    format!("{:?}", s)
}

/// The debug rendering of one entry: key, colon, value.
pub open spec fn entry_debug_text(entry: Entry) -> Seq<char> {
    debug_text(entry.0) + ": "@ + debug_text(entry.1)
}

/// The debug renderings of `entries`, separated by a comma and a space.
pub open spec fn entries_debug_text(entries: Seq<Entry>) -> Seq<char>
    decreases entries.len(),
{
    if entries.len() == 0 {
        Seq::empty()
    } else if entries.len() == 1 {
        entry_debug_text(entries[0])
    } else {
        entries_debug_text(entries.drop_last()) + ", "@ + entry_debug_text(entries.last())
    }
}

/// The debug rendering of a mapping with these entries: the renderings of
/// the entries between braces.
pub open spec fn map_debug_text(entries: Seq<Entry>) -> Seq<char> {
    "{"@ + entries_debug_text(entries) + "}"@
}

/// The debug rendering of an optional value whose own rendering is `inner`.
pub open spec fn optional_debug_text(inner: Option<Seq<char>>) -> Seq<char> {
    match inner {
        Some(text) => "Some("@ + text + ")"@,
        None => "None"@,
    }
}

/// The debug rendering of an optional string.
pub open spec fn optional_string_debug_text(s: Option<Seq<char>>) -> Seq<char> {
    optional_debug_text(
        match s {
            Some(s) => Some(debug_text(s)),
            None => None,
        },
    )
}

/// The debug rendering of an optional mapping.
pub open spec fn optional_map_debug_text(entries: Option<Seq<Entry>>) -> Seq<char> {
    optional_debug_text(
        match entries {
            Some(entries) => Some(map_debug_text(entries)),
            None => None,
        },
    )
}

} // verus!
