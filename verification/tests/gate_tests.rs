use lfs_auth::errors::AuthError;
use lfs_auth::gate::verify_edit_access;
use lfs_auth::namespace::Namespace;
use lfs_auth::token::SigningKey;
use lfs_auth::token::TokenPayload;
use lfs_auth::token::parse_private_key;
use lfs_auth::token::verify_token;

fn ns(org: &str, name: &str) -> Namespace {
    Namespace::new(org.to_string(), name.to_string())
}

fn engine() -> base64::engine::GeneralPurpose {
    base64::engine::GeneralPurpose::new(
        &base64::alphabet::STANDARD,
        base64::engine::GeneralPurposeConfig::default(),
    )
}

fn headers_with(value: http::HeaderValue) -> http::HeaderMap {
    let mut headers = http::HeaderMap::new();
    headers.insert(http::header::AUTHORIZATION, value);
    headers
}

/// A header map carrying `Basic <base64 of payload>`.
fn basic_headers(payload: &str) -> http::HeaderMap {
    let blob = base64::Engine::encode(&engine(), payload.as_bytes());
    headers_with(http::HeaderValue::from_str(&format!("Basic {}", blob)).unwrap())
}

/// An HS256-signed token whose claims hold the given grant list.
fn signed_token(grants: &[&str], secret: &[u8]) -> String {
    let list: Vec<serde_json::Value> =
        grants.iter().map(|g| serde_json::Value::String(g.to_string())).collect();
    let mut claims = serde_json::Map::new();
    claims.insert("namespaces".to_string(), serde_json::Value::Array(list));
    sign_claims(claims, secret)
}

fn sign_claims(claims: serde_json::Map<String, serde_json::Value>, secret: &[u8]) -> String {
    let header = jsonwebtoken::Header::new(jsonwebtoken::Algorithm::HS256);
    let key = jsonwebtoken::EncodingKey::from_secret(secret);
    jsonwebtoken::encode(&header, &serde_json::Value::Object(claims), &key).unwrap()
}

fn key(secret: &[u8]) -> Option<SigningKey> {
    Some(SigningKey::new(secret.to_vec()))
}

#[test]
fn open_access_allows_without_header() {
    let headers = http::HeaderMap::new();
    assert_eq!(verify_edit_access(&ns("acme", "repo1"), &headers, &None), Ok(()));
}

#[test]
fn open_access_allows_despite_garbage_header() {
    let headers = headers_with(http::HeaderValue::from_str("Bearer nonsense").unwrap());
    assert_eq!(verify_edit_access(&ns("acme", "repo1"), &headers, &None), Ok(()));
}

#[test]
fn missing_header_is_unauthenticated() {
    let headers = http::HeaderMap::new();
    let r = verify_edit_access(&ns("acme", "repo1"), &headers, &key(b"secret"));
    assert_eq!(r, Err(AuthError::Unauthenticated));
}

#[test]
fn wrong_scheme_is_malformed() {
    let headers = headers_with(http::HeaderValue::from_str("Bearer abcd").unwrap());
    let r = verify_edit_access(&ns("acme", "repo1"), &headers, &key(b"secret"));
    assert_eq!(r, Err(AuthError::Malformed));
}

#[test]
fn single_token_is_malformed() {
    let headers = headers_with(http::HeaderValue::from_str("Basic").unwrap());
    let r = verify_edit_access(&ns("acme", "repo1"), &headers, &key(b"secret"));
    assert_eq!(r, Err(AuthError::Malformed));
}

#[test]
fn three_tokens_are_malformed() {
    let headers = headers_with(http::HeaderValue::from_str("Basic abcd abcd").unwrap());
    let r = verify_edit_access(&ns("acme", "repo1"), &headers, &key(b"secret"));
    assert_eq!(r, Err(AuthError::Malformed));
}

#[test]
fn invalid_base64_is_malformed() {
    let headers = headers_with(http::HeaderValue::from_str("Basic %%%%").unwrap());
    let r = verify_edit_access(&ns("acme", "repo1"), &headers, &key(b"secret"));
    assert_eq!(r, Err(AuthError::Malformed));
}

#[test]
fn missing_colon_is_malformed() {
    let headers = basic_headers("no separator here");
    let r = verify_edit_access(&ns("acme", "repo1"), &headers, &key(b"secret"));
    assert_eq!(r, Err(AuthError::Malformed));
}

#[test]
fn non_text_header_value_is_malformed() {
    // Legal header bytes, but not visible ASCII, so not representable as text.
    let value = http::HeaderValue::from_bytes(&[b'B', 0x80, 0xFF]).unwrap();
    let r = verify_edit_access(&ns("acme", "repo1"), &headers_with(value), &key(b"secret"));
    assert_eq!(r, Err(AuthError::Malformed));
}

#[test]
fn non_text_decoded_payload_is_malformed() {
    // The blob decodes to bytes holding a colon but no valid UTF-8.
    let blob = base64::Engine::encode(&engine(), [b'u', b':', 0xFF, 0xFE]);
    let value = http::HeaderValue::from_str(&format!("Basic {}", blob)).unwrap();
    let r = verify_edit_access(&ns("acme", "repo1"), &headers_with(value), &key(b"secret"));
    assert_eq!(r, Err(AuthError::Malformed));
}

#[test]
fn wrong_key_is_unauthorized() {
    let token = signed_token(&["acme/repo1"], b"another key");
    let headers = basic_headers(&format!("user:{}", token));
    let r = verify_edit_access(&ns("acme", "repo1"), &headers, &key(b"secret"));
    assert_eq!(r, Err(AuthError::Unauthorized));
}

#[test]
fn garbage_token_is_unauthorized() {
    let headers = basic_headers("user:badtoken");
    let r = verify_edit_access(&ns("acme", "repo1"), &headers, &key(b"secret"));
    assert_eq!(r, Err(AuthError::Unauthorized));
}

#[test]
fn exact_grant_allows() {
    let token = signed_token(&["acme/repo1"], b"secret");
    let headers = basic_headers(&format!("user:{}", token));
    let r = verify_edit_access(&ns("acme", "repo1"), &headers, &key(b"secret"));
    assert_eq!(r, Ok(()));
}

#[test]
fn wildcard_grant_allows_any_repo_of_the_organization() {
    let token = signed_token(&["acme"], b"secret");
    let headers = basic_headers(&format!("user:{}", token));
    assert_eq!(verify_edit_access(&ns("acme", "repo1"), &headers, &key(b"secret")), Ok(()));
    assert_eq!(verify_edit_access(&ns("acme", "unlisted"), &headers, &key(b"secret")), Ok(()));
}

#[test]
fn grant_with_separator_is_not_a_wildcard() {
    let token = signed_token(&["acme/repo2"], b"secret");
    let headers = basic_headers(&format!("user:{}", token));
    let r = verify_edit_access(&ns("acme", "repo1"), &headers, &key(b"secret"));
    assert_eq!(r, Err(AuthError::Unauthorized));
}

#[test]
fn unrelated_grants_are_unauthorized() {
    let token = signed_token(&["globex", "globex/repo1"], b"secret");
    let headers = basic_headers(&format!("user:{}", token));
    let r = verify_edit_access(&ns("acme", "repo1"), &headers, &key(b"secret"));
    assert_eq!(r, Err(AuthError::Unauthorized));
}

#[test]
fn empty_grant_list_is_unauthorized() {
    let token = signed_token(&[], b"secret");
    let headers = basic_headers(&format!("user:{}", token));
    let r = verify_edit_access(&ns("acme", "repo1"), &headers, &key(b"secret"));
    assert_eq!(r, Err(AuthError::Unauthorized));
}

#[test]
fn missing_namespaces_claim_is_unauthorized() {
    let token = sign_claims(serde_json::Map::new(), b"secret");
    let headers = basic_headers(&format!("user:{}", token));
    let r = verify_edit_access(&ns("acme", "repo1"), &headers, &key(b"secret"));
    assert_eq!(r, Err(AuthError::Unauthorized));
}

#[test]
fn non_string_grants_are_unauthorized() {
    let mut claims = serde_json::Map::new();
    claims.insert(
        "namespaces".to_string(),
        serde_json::Value::Array(vec![serde_json::Value::from(7u64)]),
    );
    let token = sign_claims(claims, b"secret");
    let headers = basic_headers(&format!("user:{}", token));
    let r = verify_edit_access(&ns("acme", "repo1"), &headers, &key(b"secret"));
    assert_eq!(r, Err(AuthError::Unauthorized));
}

#[test]
fn expired_claim_does_not_matter() {
    // No registered claim is enforced: an old `exp` leaves the token valid.
    let mut claims = serde_json::Map::new();
    claims.insert(
        "namespaces".to_string(),
        serde_json::Value::Array(vec![serde_json::Value::String("acme/repo1".to_string())]),
    );
    claims.insert("exp".to_string(), serde_json::Value::from(1u64));
    let token = sign_claims(claims, b"secret");
    let headers = basic_headers(&format!("user:{}", token));
    let r = verify_edit_access(&ns("acme", "repo1"), &headers, &key(b"secret"));
    assert_eq!(r, Ok(()));
}

#[test]
fn username_part_is_ignored() {
    let token = signed_token(&["acme/repo1"], b"secret");
    for payload in [format!("anything:{}", token), format!(":{}", token)] {
        let headers = basic_headers(&payload);
        assert_eq!(verify_edit_access(&ns("acme", "repo1"), &headers, &key(b"secret")), Ok(()));
    }
}

#[test]
fn token_is_everything_after_the_first_colon() {
    // A second colon belongs to the token itself, which is then not a
    // well-formed signed token.
    let token = signed_token(&["acme/repo1"], b"secret");
    let headers = basic_headers(&format!("user:{}:extra", token));
    let r = verify_edit_access(&ns("acme", "repo1"), &headers, &key(b"secret"));
    assert_eq!(r, Err(AuthError::Unauthorized));
}

#[test]
fn surrounding_whitespace_is_accepted() {
    let token = signed_token(&["acme/repo1"], b"secret");
    let blob = base64::Engine::encode(&engine(), format!("user:{}", token).as_bytes());
    let value = http::HeaderValue::from_str(&format!("  Basic \t {}  ", blob)).unwrap();
    let r = verify_edit_access(&ns("acme", "repo1"), &headers_with(value), &key(b"secret"));
    assert_eq!(r, Ok(()));
}

#[test]
fn identical_inputs_give_identical_outcomes() {
    let token = signed_token(&["acme"], b"secret");
    let headers = basic_headers(&format!("user:{}", token));
    let namespace = ns("acme", "repo1");
    let first = verify_edit_access(&namespace, &headers, &key(b"secret"));
    let second = verify_edit_access(&namespace, &headers, &key(b"secret"));
    assert_eq!(first, second);
    let denied = verify_edit_access(&namespace, &headers, &key(b"other"));
    assert_eq!(denied, verify_edit_access(&namespace, &headers, &key(b"other")));
}

#[test]
fn parse_private_key_uses_the_text_bytes() {
    let token = signed_token(&["acme/repo1"], b"secret");
    let headers = basic_headers(&format!("user:{}", token));
    let parsed = Some(parse_private_key("secret".to_string()));
    assert_eq!(verify_edit_access(&ns("acme", "repo1"), &headers, &parsed), Ok(()));
    let other = Some(parse_private_key("not the secret".to_string()));
    assert_eq!(
        verify_edit_access(&ns("acme", "repo1"), &headers, &other),
        Err(AuthError::Unauthorized)
    );
}

#[test]
fn verify_token_checks_signature_and_grants() {
    let signing = SigningKey::new(b"secret".to_vec());
    let token = signed_token(&["acme"], b"secret");
    assert!(verify_token(&token, &ns("acme", "repo1"), &signing));
    assert!(!verify_token(&token, &ns("globex", "repo1"), &signing));
    let forged = signed_token(&["acme"], b"forgery");
    assert!(!verify_token(&forged, &ns("acme", "repo1"), &signing));
}

#[test]
fn payload_authorizes_by_exact_or_wildcard_match() {
    let payload = TokenPayload::new(vec!["acme".to_string(), "globex/repo9".to_string()]);
    assert!(payload.authorizes(&ns("acme", "anything")));
    assert!(payload.authorizes(&ns("globex", "repo9")));
    assert!(!payload.authorizes(&ns("globex", "repo1")));
    assert!(!payload.authorizes(&ns("initech", "repo1")));
}

#[test]
fn namespace_renders_canonically() {
    let namespace = ns("acme", "repo1");
    assert_eq!(namespace.to_string(), "acme/repo1".to_string());
    assert_eq!(namespace.org(), &"acme".to_string());
}

#[test]
fn auth_error_renders_a_short_description() {
    assert_eq!(AuthError::Unauthenticated.as_str(), "Unauthenticated");
    assert_eq!(AuthError::Unauthorized.as_str(), "Unauthorized");
    assert_eq!(AuthError::Malformed.as_str(), "Malformed auth header");
}
