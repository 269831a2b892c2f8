use vstd::prelude::*;

verus! {

use vstd::utf8::decode_utf8;
use vstd::utf8::valid_utf8;

/// What the standard-alphabet Base64 decoder yields for a given input:
/// `Some` of the decoded bytes when the input is canonically padded
/// Base64, `None` otherwise. The exact relation is RFC 4648's table; this
/// crate takes it from the `base64` crate rather than restating it.
pub uninterp spec fn base64_standard_decoded(blob: Seq<u8>) -> Option<Seq<u8>>;

/// Relies on `base64::engine::GeneralPurpose::decode` with the standard
/// alphabet and the default configuration (canonical padding required):
/// the outcome is a function of the input bytes alone.
#[verifier::external_body]
pub(crate) fn base64_decode_standard(blob: &Vec<u8>) -> (r: Option<Vec<u8>>)
    ensures
        r is Some <==> base64_standard_decoded(blob@) is Some,
        r matches Some(d) ==> base64_standard_decoded(blob@) == Some(d@),
{
    let engine = base64::engine::GeneralPurpose::new(
        &base64::alphabet::STANDARD,
        base64::engine::GeneralPurposeConfig::default(),
    );
    base64::Engine::decode(&engine, blob).ok()
}

/// Relies on `String::from_utf8`: it succeeds exactly on valid UTF-8 and
/// returns the decoded text, as std documents; stated against `vstd`'s
/// UTF-8 model.
#[verifier::external_body]
pub(crate) fn utf8_string(bytes: Vec<u8>) -> (r: Option<String>)
    ensures
        r is Some <==> valid_utf8(bytes@),
        r matches Some(s) ==> s@ == decode_utf8(bytes@),
{
    String::from_utf8(bytes).ok()
}

} // verus!
