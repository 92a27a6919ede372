//! JSON documents and the members of JSON objects.
use vstd::prelude::*;

verus! {

/// A JSON document.
#[verifier::external_type_specification]
#[verifier::external_body]
pub struct ExValue(serde_json::Value);

/// Why text is not JSON, or a document has no text.
#[verifier::external_type_specification]
#[verifier::external_body]
pub struct ExError(serde_json::Error);

/// The document that `text` is, or why it is none.
pub uninterp spec fn json_parsed(text: Seq<char>) -> Result<serde_json::Value, serde_json::Error>;

/// What a JSON error says of itself.
pub uninterp spec fn json_error_text(e: serde_json::Error) -> Seq<char>;

/// The members of a document that is an object.
pub uninterp spec fn json_members(v: serde_json::Value) -> Option<
    Map<Seq<char>, serde_json::Value>,
>;

/// The document is `null`.
pub uninterp spec fn json_is_null(v: serde_json::Value) -> bool;

/// The document that is a JSON string.
pub uninterp spec fn json_string(text: Seq<char>) -> serde_json::Value;

/// The document with member `key` set to `member`.
pub uninterp spec fn json_with_member(
    v: serde_json::Value,
    key: Seq<char>,
    member: serde_json::Value,
) -> serde_json::Value;

/// The text of a document, spread over lines, or why it has none.
pub uninterp spec fn json_pretty(v: serde_json::Value) -> Result<Seq<char>, serde_json::Error>;

/// Members can be set in the document: it is an object, or `null`, which counts
/// as an empty one.
pub open spec fn json_takes_members(v: serde_json::Value) -> bool {
    json_members(v) is Some || json_is_null(v)
}

/// The members of a document that takes members.
pub open spec fn json_entries(v: serde_json::Value) -> Map<Seq<char>, serde_json::Value> {
    match json_members(v) {
        Some(members) => members,
        None => Map::empty(),
    }
}

/// The document is a JSON string or `null`.
pub open spec fn json_is_plain(v: serde_json::Value) -> bool {
    json_is_null(v) || exists|t: Seq<char>| v == json_string(t)
}

/// The document is an object whose members are strings or `null`, every one.
pub open spec fn json_is_flat(v: serde_json::Value) -> bool {
    json_members(v) matches Some(members) && forall|key: Seq<char>| #[trigger]
        members.contains_key(key) ==> json_is_plain(members[key])
}

/// Two sets of members have the same keys, and agree on every member that is a
/// string or `null` in the second.
pub open spec fn same_plain_members(
    read: Map<Seq<char>, serde_json::Value>,
    members: Map<Seq<char>, serde_json::Value>,
) -> bool {
    &&& read.dom() == members.dom()
    &&& forall|key: Seq<char>| #[trigger]
        members.contains_key(key) && json_is_plain(members[key]) ==> read[key] == members[key]
}

/// Where `text` reads back as a document at all, and `v` is an object, it reads back
/// as an object with the keys of `v` and its strings.
pub open spec fn keeps_members(text: Seq<char>, v: serde_json::Value) -> bool {
    json_members(v) matches Some(members) ==> (json_parsed(text) matches Ok(document) ==> (
    json_members(document) matches Some(read) && same_plain_members(read, members)))
}

/// `text` reads back as the document `v`.
pub open spec fn reads_as(text: Seq<char>, v: serde_json::Value) -> bool {
    json_parsed(text) matches Ok(document) && document == v
}

/// The outcome of parsing is the document `null`.
pub open spec fn is_null_document(r: Result<serde_json::Value, serde_json::Error>) -> bool {
    r matches Ok(document) && json_is_null(document)
}

/// A printed result in terms of what it holds.
pub open spec fn pretty_view(r: Result<String, serde_json::Error>) -> Result<
    Seq<char>,
    serde_json::Error,
> {
    match r {
        Ok(text) => Ok(text@),
        Err(e) => Err(e),
    }
}

/// `serde_json::from_str` for a `Value`. The outcome depends on the text alone, and
/// `null` parses as the document `null`.
#[verifier::external_body]
pub(crate) fn parse(text: &str) -> (r: Result<serde_json::Value, serde_json::Error>)
    ensures
        r == json_parsed(text@),
        text@ == "null"@ ==> is_null_document(r),
{
    serde_json::from_str(text)
}

/// `Display` of serde_json's `Error`. The text depends on the error alone.
#[verifier::external_body]
pub(crate) fn error_text(e: &serde_json::Error) -> (r: String)
    ensures
        r@ == json_error_text(*e),
{
    e.to_string()
}

/// `Value::is_object`: the document is an object, and so has members.
#[verifier::external_body]
pub(crate) fn is_object(v: &serde_json::Value) -> (r: bool)
    ensures
        r == (json_members(*v) is Some),
{
    v.is_object()
}

/// `Value::is_null`: the document is `null`, and so is no object with members.
#[verifier::external_body]
pub(crate) fn is_null(v: &serde_json::Value) -> (r: bool)
    ensures
        r == json_is_null(*v),
        r ==> json_members(*v) is None,
{
    v.is_null()
}

/// `Value::String`: the document that is a JSON string.
#[verifier::external_body]
pub(crate) fn string(text: String) -> (r: serde_json::Value)
    ensures
        r == json_string(text@),
{
    serde_json::Value::String(text)
}

/// `IndexMut` of serde_json's `Value` with a string key, assigned to. An object
/// keeps its other members, `null` becomes an object with this one, and any
/// other document makes the call panic.
#[verifier::external_body]
pub(crate) fn set_member(v: &mut serde_json::Value, key: &str, member: serde_json::Value)
    requires
        json_takes_members(*old(v)),
    ensures
        *final(v) == json_with_member(*old(v), key@, member),
        json_members(*final(v)) == Some(json_entries(*old(v)).insert(key@, member)),
{
    v[key] = member;
}

/// `serde_json::to_string_pretty`. The outcome depends on the document alone. It is
/// a text for every document, since all keys are strings and no document refuses to
/// be printed. The text of an object that holds nothing but strings and `null` reads
/// back as that object. The text of any object, where it reads back, does so with
/// the same keys and the same strings. What else comes back is left unsaid: numbers
/// with a fraction need not come back exactly, nor documents that are nested deeper
/// than the parser goes.
#[verifier::external_body]
pub(crate) fn pretty(v: &serde_json::Value) -> (r: Result<String, serde_json::Error>)
    ensures
        pretty_view(r) == json_pretty(*v),
        r is Ok,
        r matches Ok(text) ==> (json_is_flat(*v) ==> reads_as(text@, *v)),
        r matches Ok(text) ==> keeps_members(text@, *v),
{
    serde_json::to_string_pretty(v)
}

/// Members can be set in objects and in `null`, and in nothing else; `null` has none
/// to begin with.
pub proof fn law_objects_and_null_take_members(v: serde_json::Value)
    ensures
        json_takes_members(v) <==> json_members(v) is Some || json_is_null(v),
        json_members(v) matches Some(members) ==> json_entries(v) == members,
        json_members(v) is None ==> forall|key: Seq<char>| !#[trigger]
            json_entries(v).contains_key(key),
{
}

} // verus!
