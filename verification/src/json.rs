//! JSON text, as the `rustc_serialize` crate writes it.

use crate::native_text::has_nul;
use rustc_serialize::json::EncoderError;
use vstd::prelude::*;

verus! {

/// `rustc_serialize::json::EncoderError`, the JSON encoder's error. Opaque
/// here: it is only told apart from success.
#[verifier::external_type_specification]
#[verifier::external_body]
pub struct ExEncoderError(EncoderError);

/// The compact JSON text that `rustc_serialize::json::encode` writes for a
/// list of strings.
pub uninterp spec fn json_of_lines(lines: Seq<Seq<char>>) -> Seq<char>;

/// `rustc_serialize::json::encode`, on a list of strings.
///
/// The contract claims three things of it. It does not fail: the encoder
/// writes into a `String`, which takes every write, and a list of strings
/// holds no map whose key it could refuse. The text depends on the strings
/// alone. And the text holds no NUL: the encoder writes brackets, commas and
/// quotes of its own, and of each string every character but those of its
/// table of escapes, where NUL stands and is written as `\u0000`.
#[verifier::external_body]
pub(crate) fn encode_lines(lines: &Vec<String>) -> (r: Result<String, EncoderError>)
    ensures
        r is Ok,
        r matches Ok(text) ==> text@ == json_of_lines(lines.deep_view()),
        r matches Ok(text) ==> !has_nul(text@),
{
    rustc_serialize::json::encode(lines)
}

/// What a payload that was sent through the JSON encoder has to show: its
/// text, or nothing where the encoder failed.
pub open spec fn json_text(encoded: Result<String, EncoderError>) -> Option<Seq<char>> {
    match encoded {
        Ok(text) => Some(text@),
        Err(_) => None,
    }
}

} // verus!
