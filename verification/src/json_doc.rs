use vstd::prelude::*;

verus! {

/// A parsed JSON document, handled by the `json` crate. The value is opaque
/// to the verifier; the trusted accessors below are the only way this
/// library reads one, and the named spec functions beside them let the
/// decoders' contracts speak about what was read.
#[verifier::external_type_specification]
#[verifier::external_body]
pub struct ExJsonValue(json::JsonValue);

/// Why an inbound or CI document could not be decoded.
#[derive(Clone, Copy, Debug, PartialEq, Eq, Structural)]
pub enum DecodeError {
    /// The document is not well-formed JSON.
    UnparseableDocument,
    /// A job-detail document carries no display name; a build decoded from
    /// it could false-match an empty derived name, so it is rejected.
    MissingDisplayName,
    /// A job-list document carries no `builds` array.
    MissingBuilds,
    /// The `pull_request.head` subtree of an inbound event lacks a required
    /// field; no commit reference can be built and tracking is not
    /// attempted.
    MissingHeadField,
}

/// Whether a text parses as JSON: a function of the characters alone.
pub uninterp spec fn json_parses(s: Seq<char>) -> bool;

/// The document a text parses to, when it parses at all.
pub uninterp spec fn parsed_document(s: Seq<char>) -> json::JsonValue;

/// Relies on json::parse: decodes a document, deterministically, or fails
/// on malformed input.
#[verifier::external_body]
pub(crate) fn parse_json(source: &str) -> (r: Option<json::JsonValue>)
    ensures
        r is Some <==> json_parses(source@),
        r matches Some(doc) ==> doc == parsed_document(source@),
{
    json::parse(source).ok()
}

/// The named member of an object value; JSON null when the member is absent
/// or the value is not an object.
pub uninterp spec fn member_of(doc: json::JsonValue, key: Seq<char>) -> json::JsonValue;

/// Relies on the json crate's Index<&str>: the named member of an object
/// value, and JSON null when the member is absent or the value is not an
/// object. The member is handed out as a clone.
#[verifier::external_body]
pub(crate) fn member(doc: &json::JsonValue, key: &str) -> (r: json::JsonValue)
    ensures
        r == member_of(*doc, key@),
{
    doc[key].clone()
}

/// The characters of the named string member; None when the member is
/// absent or not a string.
pub uninterp spec fn str_member_of(doc: json::JsonValue, key: Seq<char>) -> Option<Seq<char>>;

/// Relies on the json crate's Index<&str> and JsonValue::as_str: the
/// characters of the named string member, and None when the member is
/// absent or not a string.
#[verifier::external_body]
pub(crate) fn str_member(doc: &json::JsonValue, key: &str) -> (r: Option<String>)
    ensures
        r.deep_view() == str_member_of(*doc, key@),
{
    match doc[key].as_str() {
        Option::Some(s) => Option::Some(s.to_owned()),
        Option::None => Option::None,
    }
}

/// Whether the value is a JSON array.
pub uninterp spec fn document_is_array(doc: json::JsonValue) -> bool;

/// Relies on JsonValue::is_array.
#[verifier::external_body]
pub(crate) fn is_array(doc: &json::JsonValue) -> (r: bool)
    ensures
        r == document_is_array(*doc),
{
    doc.is_array()
}

/// The number of elements of an array value (the number of keys of an
/// object value, and 0 for anything else).
pub uninterp spec fn member_count_of(doc: json::JsonValue) -> usize;

/// Relies on JsonValue::len: the number of elements of an array value, the
/// number of keys of an object value, and 0 for anything else.
#[verifier::external_body]
pub(crate) fn member_count(doc: &json::JsonValue) -> (r: usize)
    ensures
        r == member_count_of(*doc),
{
    doc.len()
}

/// The element of an array value at an index; JSON null when out of bounds
/// or not an array.
pub uninterp spec fn array_member_of(doc: json::JsonValue, index: int) -> json::JsonValue;

/// Relies on the json crate's Index<usize>: the element of an array value
/// at the index, and JSON null when out of bounds or not an array. The
/// element is handed out as a clone.
#[verifier::external_body]
pub(crate) fn array_member(doc: &json::JsonValue, index: usize) -> (r: json::JsonValue)
    ensures
        r == array_member_of(*doc, index as int),
{
    doc[index].clone()
}

/// The quoted, escaped JSON encoding of a string's characters: a function
/// of the characters alone.
pub uninterp spec fn json_string_of(s: Seq<char>) -> Seq<char>;

/// Relies on json::stringify on a string value: the quoted, escaped JSON
/// string encoding the characters.
#[verifier::external_body]
pub(crate) fn quote_string(s: &str) -> (r: String)
    ensures
        r@ == json_string_of(s@),
{
    json::stringify(s)
}

} // verus!
