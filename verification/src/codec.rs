//! Base64, as images travel in it.
use base64::Engine;
use vstd::prelude::*;

verus! {

/// Why text is not Base64.
#[verifier::external_type_specification]
#[verifier::external_body]
pub struct ExDecodeError(base64::DecodeError);

/// The Base64 text of `data`, in the standard alphabet with padding.
pub uninterp spec fn base64_encoded(data: Seq<u8>) -> Seq<char>;

/// What `text` decodes to as Base64 in the standard alphabet with padding, or
/// why it does not.
pub uninterp spec fn base64_decoded(text: Seq<char>) -> Result<Seq<u8>, base64::DecodeError>;

/// What a decoding error says of itself.
pub uninterp spec fn base64_error_text(e: base64::DecodeError) -> Seq<char>;

/// How many characters the Base64 text of `len` bytes has.
pub open spec fn base64_len(len: nat) -> nat {
    (len + 2) / 3 * 4
}

/// `text` is Base64 for `data`.
pub open spec fn decodes_as(text: Seq<char>, data: Seq<u8>) -> bool {
    base64_decoded(text) matches Ok(bytes) && bytes == data
}

/// A decoded result in terms of what it holds.
pub open spec fn decoded_view(r: Result<Vec<u8>, base64::DecodeError>) -> Result<
    Seq<u8>,
    base64::DecodeError,
> {
    match r {
        Ok(bytes) => Ok(bytes@),
        Err(e) => Err(e),
    }
}

/// `Engine::encode` of base64's `STANDARD` engine. The text depends on the bytes
/// alone, has four characters for every three bytes begun, and decodes to the
/// bytes again. The call panics where that many characters cannot be allocated.
#[verifier::external_body]
pub(crate) fn encode(data: &Vec<u8>) -> (r: String)
    requires
        base64_len(data@.len()) <= isize::MAX,
    ensures
        r@ == base64_encoded(data@),
        r@.len() == base64_len(data@.len()),
        decodes_as(r@, data@),
{
    base64::engine::general_purpose::STANDARD.encode(data)
}

/// `Engine::decode` of base64's `STANDARD` engine. The outcome depends on the
/// text alone.
#[verifier::external_body]
pub(crate) fn decode(text: &str) -> (r: Result<Vec<u8>, base64::DecodeError>)
    ensures
        decoded_view(r) == base64_decoded(text@),
{
    base64::engine::general_purpose::STANDARD.decode(text)
}

/// `Display` of base64's `DecodeError`. The text depends on the error alone.
#[verifier::external_body]
pub(crate) fn error_text(e: &base64::DecodeError) -> (r: String)
    ensures
        r@ == base64_error_text(*e),
{
    e.to_string()
}

/// Base64 text comes in fours of characters, of which every four carry three bytes,
/// and there are no more of them than it takes.
pub proof fn law_base64_takes_four_for_three(len: nat)
    ensures
        base64_len(len) % 4 == 0,
        base64_len(len) / 4 * 3 >= len,
        base64_len(len) / 4 * 3 < len + 3,
{
}

/// Text is Base64 for one run of bytes at most.
pub proof fn law_text_decodes_to_one_thing(text: Seq<char>, a: Seq<u8>, b: Seq<u8>)
    requires
        decodes_as(text, a),
    ensures
        base64_decoded(text) == Ok::<Seq<u8>, base64::DecodeError>(a),
        decodes_as(text, b) ==> a == b,
{
}

} // verus!
