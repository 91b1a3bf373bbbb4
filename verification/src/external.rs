//! Calls into outside crates and the parts of the standard library that the
//! verified code relies on. Each contract here is taken on trust.

use base64::Engine;
use vstd::prelude::*;
use vstd::utf8::{decode_utf8, valid_utf8};

verus! {

/// What `STANDARD.decode` of the `base64` crate returns for a text: the decoded
/// bytes, or the message of the error it reports.
pub uninterp spec fn base64_decoded(text: Seq<char>) -> Result<Seq<u8>, Seq<char>>;

/// The symbol of six bits in the standard base64 alphabet.
pub open spec fn base64_symbol(bits: int) -> char {
    if bits < 26 {
        (65 + bits) as char
    } else if bits < 52 {
        (71 + bits) as char
    } else if bits < 62 {
        (bits - 4) as char
    } else if bits == 62 {
        '+'
    } else {
        '/'
    }
}

/// The standard base64 text of some bytes: four symbols for each three bytes, and
/// padding where one or two bytes are left over.
pub open spec fn base64_encoded(bytes: Seq<u8>) -> Seq<char>
    decreases bytes.len(),
{
    if bytes.len() == 0 {
        Seq::empty()
    } else {
        let a = bytes[0] as int;
        let b = if bytes.len() > 1 { bytes[1] as int } else { 0 };
        let c = if bytes.len() > 2 { bytes[2] as int } else { 0 };
        let group = seq![
            base64_symbol(a / 4),
            base64_symbol(a % 4 * 16 + b / 16),
            if bytes.len() > 1 { base64_symbol(b % 16 * 4 + c / 64) } else { '=' },
            if bytes.len() > 2 { base64_symbol(c % 64) } else { '=' },
        ];
        if bytes.len() > 3 {
            group + base64_encoded(bytes.skip(3))
        } else {
            group
        }
    }
}

/// The most bytes that are encoded in one call. More would need a text longer
/// than the longest allocation.
pub open spec fn encodable(len: nat) -> bool {
    len <= usize::MAX / 4
}

/// A decoding result seen as mathematical values.
pub open spec fn decoded_view(result: Result<Vec<u8>, String>) -> Result<Seq<u8>, Seq<char>> {
    match result {
        Ok(bytes) => Ok(bytes@),
        Err(message) => Err(message@),
    }
}

/// Whether a text, if it is the base64 text of some bytes, decodes to those bytes.
pub open spec fn decodes_faithfully(text: Seq<char>) -> bool {
    forall|bytes: Seq<u8>| text == #[trigger] base64_encoded(bytes) ==> decodes_to(text, bytes)
}

/// Whether decoding the text gives these bytes.
pub open spec fn decodes_to(text: Seq<char>, bytes: Seq<u8>) -> bool {
    base64_decoded(text) matches Ok(decoded) && decoded == bytes
}

/// Whether a decoding result is these bytes.
pub open spec fn decoded_as(result: Result<Vec<u8>, String>, bytes: Seq<u8>) -> bool {
    result matches Ok(decoded) && decoded@ == bytes
}

/// Calls `base64::Engine::decode` with the `STANDARD` engine. The result depends
/// on the text alone; the standard base64 text of some bytes gives those bytes. A
/// refusal comes back as the `Display` text of the `DecodeError`.
#[verifier::external_body]
pub(crate) fn base64_decode(text: &str) -> (result: Result<Vec<u8>, String>)
    ensures
        decoded_view(result) == base64_decoded(text@),
        forall|bytes: Seq<u8>|
            text@ == #[trigger] base64_encoded(bytes) ==> decoded_as(result, bytes),
{
    base64::engine::general_purpose::STANDARD.decode(text).map_err(|err| err.to_string())
}

/// Calls `base64::Engine::encode` with the `STANDARD` engine. The result is the
/// padded base64 text of the bytes in the standard alphabet, and decoding it with
/// the same engine gives the bytes back.
#[verifier::external_body]
pub(crate) fn base64_encode(bytes: &[u8]) -> (text: String)
    requires
        encodable(bytes@.len()),
    ensures
        text@ == base64_encoded(bytes@),
        decodes_to(text@, bytes@),
{
    base64::engine::general_purpose::STANDARD.encode(bytes)
}

/// A lower-case hexadecimal digit.
pub open spec fn hex_digit(d: int) -> char {
    if d < 10 {
        (48 + d) as char
    } else {
        (87 + d) as char
    }
}

/// One character inside a JSON string: quotes, backslashes and control
/// characters are escaped, everything else stands for itself.
pub open spec fn json_escaped(c: char) -> Seq<char> {
    if c == '"' {
        seq!['\\', '"']
    } else if c == '\\' {
        seq!['\\', '\\']
    } else if c as u32 == 8 {
        seq!['\\', 'b']
    } else if c as u32 == 9 {
        seq!['\\', 't']
    } else if c as u32 == 10 {
        seq!['\\', 'n']
    } else if c as u32 == 12 {
        seq!['\\', 'f']
    } else if c as u32 == 13 {
        seq!['\\', 'r']
    } else if (c as u32) < 32 {
        seq!['\\', 'u', '0', '0', hex_digit(c as int / 16), hex_digit(c as int % 16)]
    } else {
        seq![c]
    }
}

/// The JSON string literal for some text.
pub open spec fn json_string(text: Seq<char>) -> Seq<char> {
    seq!['"'] + text.map_values(|c: char| json_escaped(c)).flatten() + seq!['"']
}

/// An error of the `serde_json` crate, carried but never looked into.
#[verifier::external_type_specification]
#[verifier::external_body]
pub struct ExJsonError(serde_json::Error);

/// Calls `serde_json::to_string` on a string. Writing a string into memory does
/// not fail; the result is the JSON string literal of the text.
#[verifier::external_body]
pub(crate) fn json_text(text: &str) -> (result: Result<String, serde_json::Error>)
    ensures
        result is Ok,
        result matches Ok(literal) ==> literal@ == json_string(text@),
{
    serde_json::to_string(text)
}

/// What formatting a string with `{:?}` gives.
pub uninterp spec fn debug_string(text: Seq<char>) -> Seq<char>;

/// Formats a string with its standard `Debug` implementation. Which characters
/// are escaped is left to the standard library.
#[verifier::external_body]
pub(crate) fn debug_text(text: &str) -> (quoted: String)
    ensures
        quoted@ == debug_string(text@),
{
    format!("{:?}", text)
}

/// Calls `std::str::from_utf8`: the text that the bytes encode, if they are valid
/// UTF-8.
#[verifier::external_body]
pub(crate) fn utf8_text(bytes: &[u8]) -> (text: Option<&str>)
    ensures
        text is Some <==> valid_utf8(bytes@),
        text matches Some(t) ==> t@ == decode_utf8(bytes@),
{
    std::str::from_utf8(bytes).ok()
}

/// A file system path of the standard library, carried but never looked into.
#[verifier::external_type_specification]
#[verifier::external_body]
pub struct ExPathBuf(std::path::PathBuf);

} // verus!
