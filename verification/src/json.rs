use vstd::prelude::*;

verus! {

/// What a JSON pointer finds in a text.
#[derive(Debug)]
pub enum JsonLookup {
    /// The text is not one well-formed JSON document.
    NotJson,
    /// The document has no value at the pointer.
    Absent,
    /// The document has a value at the pointer: its text when it is a JSON
    /// string, `None` for any other kind of value.
    Found(Option<String>),
}

/// The mathematical value of a [`JsonLookup`].
pub enum JsonLookupView {
    NotJson,
    Absent,
    Found(Option<Seq<char>>),
}

impl View for JsonLookup {
    type V = JsonLookupView;

    open spec fn view(&self) -> JsonLookupView {
        match self {
            JsonLookup::NotJson => JsonLookupView::NotJson,
            JsonLookup::Absent => JsonLookupView::Absent,
            JsonLookup::Found(Some(s)) => JsonLookupView::Found(Some(s@)),
            JsonLookup::Found(None) => JsonLookupView::Found(None),
        }
    }
}

/// What `serde_json` finds at the JSON pointer `pointer` (RFC 6901) of the
/// text `text`: whether the text parses as a JSON document, whether the
/// pointer resolves, and the string there if the value is a JSON string.
pub uninterp spec fn json_lookup(text: Seq<char>, pointer: Seq<char>) -> JsonLookupView;

/// Whether a lookup found a value.
pub open spec fn found(l: JsonLookupView) -> bool {
    l is Found
}

/// The string a lookup found, if it found one.
pub open spec fn found_str(l: JsonLookupView) -> Option<Seq<char>> {
    match l {
        JsonLookupView::Found(s) => s,
        _ => None,
    }
}

/// Parses `text` with `serde_json::from_str` into a `serde_json::Value`,
/// resolves `pointer` with `serde_json::Value::pointer`, and reports what
/// was found.
#[verifier::external_body]
pub(crate) fn lookup_json(text: &str, pointer: &str) -> (r: JsonLookup)
    ensures
        r@ == json_lookup(text@, pointer@),
{
    match serde_json::from_str::<serde_json::Value>(text) {
        Err(_) => JsonLookup::NotJson,
        Ok(value) => match value.pointer(pointer) {
            None => JsonLookup::Absent,
            Some(serde_json::Value::String(s)) => JsonLookup::Found(Some(s.clone())),
            Some(_) => JsonLookup::Found(None),
        },
    }
}

/// The string a lookup found, if it found one.
pub fn found_string(l: JsonLookup) -> (r: Option<String>)
    ensures
        match r {
            Some(s) => found_str(l@) == Some(s@),
            None => found_str(l@) is None,
        },
{
    match l {
        JsonLookup::Found(s) => s,
        _ => None,
    }
}

} // verus!
