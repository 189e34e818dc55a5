//! The JSON-typed column fallback: a column whose SQL type is a JSON
//! document arrives as its textual serialization; a text that parses stays a
//! document, one that does not degrades to a null-equivalent field instead
//! of failing the request.

use vstd::prelude::*;

verus! {

/// Whether a text parses as one complete JSON document.
pub uninterp spec fn json_well_formed(s: Seq<char>) -> bool;

/// Relies on serde_json::from_str::<serde_json::Value>: whether a text
/// parses as a JSON document depends on the text alone.
#[verifier::external_body]
fn json_text_parses(s: &str) -> (r: bool)
    ensures
        r == json_well_formed(s@),
{
    serde_json::from_str::<serde_json::Value>(s).is_ok()
}

/// A JSON-typed field of a result record: the document's well-formed text,
/// or the null-equivalent a malformed text degrades to.
pub enum JsonField {
    Doc(String),
    Null,
}

/// What a JSON-typed column's text becomes in the result record.
pub open spec fn spec_json_field(t: String) -> JsonField {
    if json_well_formed(t@) {
        JsonField::Doc(t)
    } else {
        JsonField::Null
    }
}

impl JsonField {
    /// Whether this field degraded to the null-equivalent.
    pub open spec fn spec_is_null(&self) -> bool {
        *self is Null
    }

    /// Reports whether this field holds the null-equivalent.
    pub fn is_null(&self) -> (r: bool)
        ensures
            r == self.spec_is_null(),
    {
        matches!(self, JsonField::Null)
    }

    /// The document text, where the field holds one.
    pub fn doc_text(&self) -> (r: Option<&String>)
        ensures
            match r {
                Some(t) => *self == JsonField::Doc(*t),
                None => *self is Null,
            },
    {
        match self {
            JsonField::Doc(t) => Some(t),
            JsonField::Null => None,
        }
    }
}

/// Turns a JSON-typed column's text into the record's field: the document
/// itself when the text parses, the null-equivalent when it does not.
pub fn json_field_from_text(t: String) -> (r: JsonField)
    ensures
        r == spec_json_field(t),
        !json_well_formed(t@) ==> r is Null,
{
    if json_text_parses(t.as_str()) {
        JsonField::Doc(t)
    } else {
        JsonField::Null
    }
}

} // verus!
