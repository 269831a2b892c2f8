use vstd::prelude::*;

verus! {

use crate::codec::base64_standard_decoded;
use crate::errors::AuthError;
use crate::headers::auth_header;
use crate::headers::auth_header_values;
use crate::headers::value_bytes;
use crate::namespace::Namespace;
use crate::token::SigningKey;
use crate::token::namespaces_claim;
use crate::token::grant_matches;
use crate::token::signed_claim_strings;
use crate::token::token_authorizes;
use crate::token::verify_token;
use crate::transport::all_visible_ascii;
use crate::transport::basic_blob;
use crate::transport::extract_spec;
use crate::transport::extract_token;
use crate::transport::lemma_scan_colon;
use crate::transport::scan_colon;
use vstd::utf8::decode_utf8;
use vstd::utf8::valid_utf8;

/// The decision once a header value is present: extract the token, verify
/// it, match its grants; the first failing stage classifies the denial.
pub open spec fn header_decision(ns: Namespace, value: Seq<u8>, secret: Seq<u8>) -> Result<
    (),
    AuthError,
> {
    match extract_spec(value) {
        Err(e) => Err(e),
        Ok(token) => if token_authorizes(token, secret, ns) {
            Ok(())
        } else {
            Err(AuthError::Unauthorized)
        },
    }
}

/// The whole gate's decision: open access without a key; otherwise a
/// missing header is `Unauthenticated`, and a present one goes through
/// extraction, verification and grant matching.
pub open spec fn gate_spec(ns: Namespace, headers: http::HeaderMap, key: Option<SigningKey>) -> Result<
    (),
    AuthError,
> {
    match key {
        None => Ok(()),
        Some(k) => if auth_header_values(headers).len() == 0 {
            Err(AuthError::Unauthenticated)
        } else {
            header_decision(ns, auth_header_values(headers)[0], k@)
        },
    }
}

/// The authorization gate: may the request mutate `namespace`, given the
/// request headers and the configured key?
pub fn verify_edit_access(
    namespace: &Namespace,
    headers: &http::HeaderMap,
    private_key: &Option<SigningKey>,
) -> (r: Result<(), AuthError>)
    ensures
        r == gate_spec(*namespace, *headers, *private_key),
        (*private_key) is None ==> r == Ok::<(), AuthError>(()),
        (*private_key) is Some && auth_header_values(*headers).len() == 0 ==> r == Err::<
            (),
            AuthError,
        >(AuthError::Unauthenticated),
{
    match private_key {
        None => Ok(()),
        Some(key) => match auth_header(headers) {
            None => Err(AuthError::Unauthenticated),
            Some(value) => {
                let bytes = value_bytes(value);
                match extract_token(&bytes) {
                    Err(e) => Err(e),
                    Ok(token) => if verify_token(token.as_str(), namespace, key) {
                        Ok(())
                    } else {
                        Err(AuthError::Unauthorized)
                    },
                }
            },
        },
    }
}

/// Open-access mode: with no signing key configured, every request is
/// allowed, whatever the namespace and the headers.
pub proof fn lemma_open_access(ns: Namespace, headers: http::HeaderMap)
    ensures
        gate_spec(ns, headers, None) == Ok::<(), AuthError>(()),
{
}

/// Missing credential: with a key configured and no authorization header
/// present, the answer is exactly `Unauthenticated`.
pub proof fn lemma_missing_credential(ns: Namespace, headers: http::HeaderMap, key: SigningKey)
    requires
        auth_header_values(headers).len() == 0,
    ensures
        gate_spec(ns, headers, Some(key)) == Err::<(), AuthError>(AuthError::Unauthenticated),
{
}

/// A present header value that does not transport a token: not text, not
/// of the two-token `Basic <blob>` shape, a blob that is not canonical
/// Base64, or a decoded payload that is not text or lacks the colon
/// separator.
pub open spec fn malformed_transport(value: Seq<u8>) -> bool {
    !all_visible_ascii(value) || match basic_blob(value) {
        None => true,
        Some(blob) => match base64_standard_decoded(blob) {
            None => true,
            Some(decoded) => !valid_utf8(decoded) || !decode_utf8(decoded).contains(':'),
        },
    }
}

/// Malformed transport: with a key configured, a present header value of
/// any malformed shape makes the answer exactly `Malformed`.
pub proof fn lemma_malformed_transport(ns: Namespace, headers: http::HeaderMap, key: SigningKey)
    requires
        auth_header_values(headers).len() > 0,
        malformed_transport(auth_header_values(headers)[0]),
    ensures
        gate_spec(ns, headers, Some(key)) == Err::<(), AuthError>(AuthError::Malformed),
{
    let v = auth_header_values(headers)[0];
    if all_visible_ascii(v) {
        match basic_blob(v) {
            None => {},
            Some(blob) => match base64_standard_decoded(blob) {
                None => {},
                Some(decoded) => {
                    if valid_utf8(decoded) {
                        let chars = decode_utf8(decoded);
                        lemma_scan_colon(chars, 0);
                        assert(scan_colon(chars, 0) == chars.len()) by {
                            if scan_colon(chars, 0) < chars.len() {
                                assert(chars[scan_colon(chars, 0)] == ':');
                                assert(chars.contains(':'));
                            }
                        };
                    }
                },
            },
        }
    }
}

/// A token the verifier rejects — wrong signature, wrong key, or no
/// well-formed `namespaces` claim — never authorizes any namespace.
pub proof fn lemma_rejected_token(token: Seq<char>, secret: Seq<u8>, ns: Namespace)
    requires
        signed_claim_strings(token, secret, namespaces_claim()) is None,
    ensures
        !token_authorizes(token, secret, ns),
{
}

/// With a key configured and a well-formed credential, a token that does
/// not authorize the namespace makes the answer exactly `Unauthorized`.
pub proof fn lemma_denied(
    ns: Namespace,
    headers: http::HeaderMap,
    key: SigningKey,
    token: Seq<char>,
)
    requires
        auth_header_values(headers).len() > 0,
        extract_spec(auth_header_values(headers)[0]) == Ok::<Seq<char>, AuthError>(token),
        !token_authorizes(token, key@, ns),
    ensures
        gate_spec(ns, headers, Some(key)) == Err::<(), AuthError>(AuthError::Unauthorized),
{
}

/// With a key configured and a well-formed credential, a token that
/// authorizes the namespace makes the decision allow.
pub proof fn lemma_allowed(
    ns: Namespace,
    headers: http::HeaderMap,
    key: SigningKey,
    token: Seq<char>,
)
    requires
        auth_header_values(headers).len() > 0,
        extract_spec(auth_header_values(headers)[0]) == Ok::<Seq<char>, AuthError>(token),
        token_authorizes(token, key@, ns),
    ensures
        gate_spec(ns, headers, Some(key)) == Ok::<(), AuthError>(()),
{
}

/// Exact-match grant: a verified token whose grant list contains the
/// namespace's canonical form authorizes it.
pub proof fn lemma_exact_grant(
    token: Seq<char>,
    secret: Seq<u8>,
    ns: Namespace,
    grants: Seq<Seq<char>>,
)
    requires
        signed_claim_strings(token, secret, namespaces_claim()) == Some(grants),
        grants.contains(ns.canon()),
    ensures
        token_authorizes(token, secret, ns),
{
    let i = choose|i: int| 0 <= i < grants.len() && grants[i] == ns.canon();
    assert(grant_matches(grants[i], ns));
}

/// Wildcard grant: a verified token holding a bare organization (no
/// separator) authorizes every namespace under that organization.
pub proof fn lemma_wildcard_grant(
    token: Seq<char>,
    secret: Seq<u8>,
    ns: Namespace,
    grants: Seq<Seq<char>>,
    grant: Seq<char>,
)
    requires
        signed_claim_strings(token, secret, namespaces_claim()) == Some(grants),
        grants.contains(grant),
        !grant.contains('/'),
        grant == ns.org@,
    ensures
        token_authorizes(token, secret, ns),
{
    let i = choose|i: int| 0 <= i < grants.len() && grants[i] == grant;
    assert(grant_matches(grants[i], ns));
}

/// No match: a verified token none of whose grants covers the namespace
/// never authorizes it.
pub proof fn lemma_no_grant_matches(
    token: Seq<char>,
    secret: Seq<u8>,
    ns: Namespace,
    grants: Seq<Seq<char>>,
)
    requires
        signed_claim_strings(token, secret, namespaces_claim()) == Some(grants),
        forall|i: int| 0 <= i < grants.len() ==> !grant_matches(#[trigger] grants[i], ns),
    ensures
        !token_authorizes(token, secret, ns),
{
}

/// Idempotence: the decision is a function of the namespace, the headers
/// and the key alone, so identical inputs always give identical
/// outcomes.
pub proof fn lemma_gate_deterministic(
    ns: Namespace,
    headers: http::HeaderMap,
    key: Option<SigningKey>,
    r1: Result<(), AuthError>,
    r2: Result<(), AuthError>,
)
    requires
        r1 == gate_spec(ns, headers, key),
        r2 == gate_spec(ns, headers, key),
    ensures
        r1 == r2,
{
}

} // verus!

