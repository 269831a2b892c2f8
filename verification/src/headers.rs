use vstd::prelude::*;

verus! {

/// `http::HeaderMap`, the request headers, as an opaque container.
#[verifier::external_type_specification]
#[verifier::external_body]
#[verifier::reject_recursive_types(T)]
pub struct ExHeaderMap<T>(http::HeaderMap<T>);

/// `http::HeaderValue`, one header value, as an opaque byte container.
#[verifier::external_type_specification]
#[verifier::external_body]
pub struct ExHeaderValue(http::HeaderValue);

/// The values a header map holds under the `Authorization` name, in their
/// stored order; empty exactly when that header is absent.
pub uninterp spec fn auth_header_values(headers: http::HeaderMap) -> Seq<Seq<u8>>;

/// The bytes a header value holds.
pub uninterp spec fn header_value_bytes(value: http::HeaderValue) -> Seq<u8>;

/// Relies on `http::HeaderMap::get` with `http::header::AUTHORIZATION`:
/// `None` exactly when no such header is present, otherwise a reference
/// to the first stored value under that name.
#[verifier::external_body]
pub(crate) fn auth_header(headers: &http::HeaderMap) -> (r: Option<&http::HeaderValue>)
    ensures
        r is Some <==> auth_header_values(*headers).len() > 0,
        r matches Some(v) ==> header_value_bytes(*v) == auth_header_values(*headers)[0],
{
    headers.get(http::header::AUTHORIZATION)
}

/// Relies on `http::HeaderValue::as_bytes`: the bytes of the value.
#[verifier::external_body]
pub(crate) fn value_bytes(value: &http::HeaderValue) -> (r: Vec<u8>)
    ensures
        r@ == header_value_bytes(*value),
{
    value.as_bytes().to_vec()
}

} // verus!
