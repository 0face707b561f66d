//! Binary-to-text encoding of keys and ciphertexts: standard base64 with
//! padding, done by the `base64` crate.

use base64::engine::general_purpose::STANDARD;
use base64::Engine;
use crate::common::errors::Error;
use vstd::prelude::*;
use vstd::string::*;

verus! {

/// The text that the standard base64 engine makes of `bytes`.
pub uninterp spec fn base64_encode(bytes: Seq<u8>) -> Seq<char>;

/// The bytes that the standard base64 engine reads from `text`, or `None`
/// where it rejects the text.
pub uninterp spec fn base64_decode(text: Seq<char>) -> Option<Seq<u8>>;

/// Whether the encoded form of `len` bytes has a length that fits in `usize`.
pub open spec fn encodable_len(len: nat) -> bool {
    (len / 3) * 4 + 4 <= usize::MAX
}

/// Whether the encoded form of `len` bytes has a length that fits in `usize`.
pub fn is_encodable(len: usize) -> (fits: bool)
    ensures
        fits == encodable_len(len as nat),
{
    len / 3 <= (usize::MAX - 4) / 4
}

/// Length of the text that stands for `len` bytes: four characters for
/// every three bytes, and four more for what is left over.
pub open spec fn encoded_len_spec(len: nat) -> nat {
    (len / 3) * 4 + if len % 3 == 0 {
        0nat
    } else {
        4nat
    }
}

/// How many `=` end the text that stands for `len` bytes.
pub open spec fn padding_len_spec(len: nat) -> nat {
    if len % 3 == 1 {
        2
    } else if len % 3 == 2 {
        1
    } else {
        0
    }
}

/// Whether `text` has the shape of the text for `len` bytes: it has its
/// length, and `=` stands at the end as padding and nowhere else.
pub open spec fn has_encoded_shape(text: Seq<char>, len: nat) -> bool {
    &&& text.len() == encoded_len_spec(len)
    &&& forall|i: int|
        0 <= i < text.len() ==> ((#[trigger] text[i]) == '=' <==> i >= text.len()
            - padding_len_spec(len))
}

/// Makes `base64::DecodeError` known to the verifier, as a type it cannot
/// look into.
#[verifier::external_type_specification]
#[verifier::external_body]
pub struct ExDecodeError(base64::DecodeError);

/// Calls `base64::Engine::encode` on the `STANDARD` engine.
///
/// Trusted: the result is the engine's encoding of `bytes`, and the engine
/// decodes that text to `bytes` again. The text has four characters for
/// every three bytes begun, and `=` stands in it as padding at the end and
/// nowhere else. The engine panics when the encoded length overflows
/// `usize`; the precondition keeps such inputs out.
#[verifier::external_body]
pub(crate) fn encode_standard(bytes: &[u8]) -> (text: String)
    requires
        encodable_len(bytes@.len()),
    ensures
        text@ == base64_encode(bytes@),
        base64_decode(text@) == Some(bytes@),
        has_encoded_shape(text@, bytes@.len()),
{
    STANDARD.encode(bytes)
}

/// Calls `base64::Engine::decode` on the `STANDARD` engine.
///
/// Trusted: the result is what the engine reads from `text`; an error stands
/// for a text that the engine rejects.
#[verifier::external_body]
pub(crate) fn decode_standard(text: &str) -> (res: Result<Vec<u8>, base64::DecodeError>)
    ensures
        res matches Ok(bytes) ==> base64_decode(text@) == Some(bytes@),
        res is Err ==> base64_decode(text@) is None,
{
    STANDARD.decode(text)
}

/// Formats a `base64::DecodeError` through its `Display` impl.
///
/// Trusted: nothing is claimed of the text.
#[verifier::external_body]
pub(crate) fn decode_error_text(error: &base64::DecodeError) -> String {
    format!("{}", error)
}

/// Whether `text` is the text form of `bytes`: the encoder makes it of them,
/// the decoder reads them from it, and it has the shape of their text.
pub open spec fn is_text_of(text: Seq<char>, bytes: Seq<u8>) -> bool {
    &&& text == base64_encode(bytes)
    &&& base64_decode(text) == Some(bytes)
    &&& has_encoded_shape(text, bytes.len())
}

/// The text form of a key's bytes. Fails with `KeyExportFailed` exactly when
/// the bytes are too many for their text to be addressed.
pub fn key_text(bytes: &[u8]) -> (res: Result<String, Error>)
    ensures
        encodable_len(bytes@.len()) ==> (res matches Ok(text) && is_text_of(text@, bytes@)),
        !encodable_len(bytes@.len()) ==> (res matches Err(e) && e is KeyExportFailed),
{
    if !is_encodable(bytes.len()) {
        return Err(Error::KeyExportFailed(String::from_str("key is too long to encode")));
    }
    Ok(encode_standard(bytes))
}

/// The error for a key text that is not base64: `KeyImportFailed`, its message
/// `Base64 decoding failed: ` followed by the decoder's own words.
pub(crate) fn import_failure(cause: &base64::DecodeError) -> (e: Error)
    ensures
        e matches Error::KeyImportFailed(message) && "Base64 decoding failed: "@.is_prefix_of(
            message@,
        ),
{
    let mut message = String::from_str("Base64 decoding failed: ");
    let detail = decode_error_text(cause);
    message.append(detail.as_str());
    Error::KeyImportFailed(message)
}

} // verus!
