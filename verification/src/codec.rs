//! Byte and text encodings that the runtime relies on: Base64 (through the
//! `base64` crate), UTF-8 (through std) and random container names
//! (through the `uuid` crate).

use vstd::prelude::*;
use vstd::utf8::{decode_utf8, encode_utf8, valid_utf8};

verus! {

#[verifier::external_type_specification]
#[verifier::external_body]
pub struct ExBase64DecodeError(base64::DecodeError);

#[verifier::external_type_specification]
#[verifier::external_body]
pub struct ExFromUtf8Error(std::string::FromUtf8Error);

/// The standard (padded, RFC 4648) Base64 text of `bytes`, as
/// `base64::encode` produces it.
pub uninterp spec fn base64_encoding(bytes: Seq<u8>) -> Seq<char>;

/// The bytes that `base64::decode` recovers from `text`, or `None` where it
/// rejects the text as standard padded Base64.
pub uninterp spec fn base64_decoding(text: Seq<u8>) -> Option<Seq<u8>>;

/// The text that `String::from_utf8_lossy` makes of `bytes`.
pub uninterp spec fn utf8_lossy_decoding(bytes: Seq<u8>) -> Seq<char>;

/// A symbol of standard Base64 text: a letter, a digit, `+`, `/`, or the
/// padding `=`.
pub open spec fn is_base64_symbol(c: char) -> bool {
    ||| ('A' <= c <= 'Z')
    ||| ('a' <= c <= 'z')
    ||| ('0' <= c <= '9')
    ||| c == '+'
    ||| c == '/'
    ||| c == '='
}

/// Calls `base64::encode` (standard alphabet, with padding): the result is
/// the Base64 text of the input bytes; it is made of Base64 symbols only,
/// and `base64::decode` gives the input back from it. The length bound
/// keeps the crate's size computation, which panics on overflow, in range.
#[verifier::external_body]
pub fn encode_base64(input: &[u8]) -> (encoded: String)
    requires
        input@.len() <= usize::MAX / 2,
    ensures
        encoded@ == base64_encoding(input@),
        forall|i: int| 0 <= i < encoded@.len() ==> is_base64_symbol(#[trigger] encoded@[i]),
        base64_decoding(encode_utf8(encoded@)) == Some(input@),
{
    base64::encode(input)
}

/// Calls `base64::decode` (standard alphabet, with padding): it succeeds
/// exactly when the input is accepted, and then returns the decoded bytes.
/// Which `DecodeError` comes back on rejection is left unsaid. The length
/// bound keeps the crate's size computations, which panic on overflow, in
/// range.
#[verifier::external_body]
pub fn decode_base64(input: &[u8]) -> (decoded: Result<Vec<u8>, base64::DecodeError>)
    requires
        input@.len() <= usize::MAX / 2,
    ensures
        decoded is Ok <==> base64_decoding(input@) is Some,
        decoded matches Ok(bytes) ==> Some(bytes@) == base64_decoding(input@),
{
    base64::decode(input)
}

/// `String::from_utf8` accepts exactly the valid UTF-8 byte sequences and
/// then returns the text they encode.
pub assume_specification[ std::string::String::from_utf8 ](vec: Vec<u8>) -> (result: Result<
    std::string::String,
    std::string::FromUtf8Error,
>)
    ensures
        result is Ok <==> valid_utf8(vec@),
        result matches Ok(text) ==> text@ == decode_utf8(vec@),
;

/// Calls `String::from_utf8_lossy` and takes the text out of the `Cow`: on
/// valid UTF-8 this is the text the bytes encode (std documents that only
/// invalid sequences are replaced, by U+FFFD).
#[verifier::external_body]
pub fn utf8_lossy(bytes: &[u8]) -> (text: String)
    ensures
        text@ == utf8_lossy_decoding(bytes@),
        valid_utf8(bytes@) ==> text@ == decode_utf8(bytes@),
{
    String::from_utf8_lossy(bytes).into_owned()
}

/// A lower-case hexadecimal digit.
pub open spec fn is_lower_hex(c: char) -> bool {
    ('0' <= c <= '9') || ('a' <= c <= 'f')
}

/// The shape of a hyphenated lower-case UUID: 36 characters, hyphens at
/// the positions 8, 13, 18 and 23, lower-case hexadecimal digits elsewhere.
pub open spec fn is_hyphenated_uuid(text: Seq<char>) -> bool {
    &&& text.len() == 36
    &&& forall|i: int|
        0 <= i < 36 ==> if i == 8 || i == 13 || i == 18 || i == 23 {
            text[i] == '-'
        } else {
            is_lower_hex(#[trigger] text[i])
        }
}

/// Calls `uuid::Uuid::new_v4` and renders the UUID with `to_string`, which
/// writes it hyphenated in lower case. The UUID is random: nothing ties
/// one result to another. (`new_v4` panics when the operating system
/// yields no random bytes.)
#[verifier::external_body]
pub fn random_uuid() -> (text: String)
    ensures
        is_hyphenated_uuid(text@),
{
    uuid::Uuid::new_v4().to_string()
}

} // verus!
