use vstd::prelude::*;

verus! {

use crate::namespace::Namespace;
use vstd::string::StrSliceExecFns;
use vstd::utf8::encode_utf8;

/// The process-wide shared secret that tokens are verified against. Its
/// absence (an `Option<SigningKey>` of `None`) means open-access mode:
/// every mutation is allowed.
pub struct SigningKey {
    secret: Vec<u8>,
}

impl View for SigningKey {
    type V = Seq<u8>;

    closed spec fn view(&self) -> Seq<u8> {
        self.secret@
    }
}

impl SigningKey {
    /// A key from raw secret bytes.
    pub fn new(secret: Vec<u8>) -> (r: SigningKey)
        ensures
            r@ == secret@,
    {
        SigningKey { secret }
    }
}

/// A key from a secret given as text: the key is the UTF-8 bytes of the
/// text.
pub fn parse_private_key(private_key: String) -> (r: SigningKey)
    ensures
        r@ == encode_utf8(private_key@),
{
    SigningKey { secret: private_key.as_str().as_bytes_vec() }
}

/// One grant covers the namespace: either it is exactly the canonical
/// form, or it is a bare organization (no separator) and equals the
/// namespace's organization, covering everything under it.
pub open spec fn grant_matches(grant: Seq<char>, ns: Namespace) -> bool {
    grant == ns.canon() || (!grant.contains('/') && grant == ns.org@)
}

/// Some grant in the list covers the namespace; order and duplicates are
/// irrelevant, any match suffices.
pub open spec fn grants_allow(grants: Seq<Seq<char>>, ns: Namespace) -> bool {
    exists|i: int| 0 <= i < grants.len() && grant_matches(grants[i], ns)
}

/// The name of the one claim this gate reads.
pub open spec fn namespaces_claim() -> Seq<char> {
    "namespaces"@
}

/// What token verification yields: when `token` is a correctly signed
/// JWT — HMAC over SHA-256 with `secret`, no registered claim required —
/// whose claim set holds `claim` as an array of strings, that array, in
/// order; otherwise `None`. The relation is the JWS/HMAC construction,
/// which this crate takes from the `jsonwebtoken` crate rather than
/// restating; it is a function of the three arguments alone.
pub uninterp spec fn signed_claim_strings(
    token: Seq<char>,
    secret: Seq<u8>,
    claim: Seq<char>,
) -> Option<Seq<Seq<char>>>;

/// Relies on `jsonwebtoken::decode` (algorithm HS256, no required
/// registered claims, no expiry validation) to check the signature and
/// decode the claim set, on `serde_json::Value::get` to pick the named
/// claim, and on `serde_json::from_value` to read it as a list of
/// strings.
#[verifier::external_body]
fn decode_claim_strings(token: &str, secret: &[u8], claim: &str) -> (r: Option<Vec<String>>)
    ensures
        r is Some <==> signed_claim_strings(token@, secret@, claim@) is Some,
        r matches Some(gs) ==> signed_claim_strings(token@, secret@, claim@) == Some(
            gs.deep_view(),
        ),
{
    let key = jsonwebtoken::DecodingKey::from_secret(secret);
    let mut validation = jsonwebtoken::Validation::new(jsonwebtoken::Algorithm::HS256);
    validation.required_spec_claims = std::collections::HashSet::new();
    validation.validate_exp = false;
    match jsonwebtoken::decode::<serde_json::Value>(token, &key, &validation) {
        Ok(data) => match data.claims.get(claim) {
            Some(value) => serde_json::from_value::<Vec<String>>(value.clone()).ok(),
            None => None,
        },
        Err(_) => None,
    }
}

/// The verifier's outcome for a token, a secret and a namespace: the
/// token carries a verified `namespaces` claim and some grant in it
/// covers the namespace.
pub open spec fn token_authorizes(token: Seq<char>, secret: Seq<u8>, ns: Namespace) -> bool {
    match signed_claim_strings(token, secret, namespaces_claim()) {
        None => false,
        Some(grants) => grants_allow(grants, ns),
    }
}

/// The claim set inside a verified token: the list of grant strings.
pub struct TokenPayload {
    namespaces: Vec<String>,
}

impl View for TokenPayload {
    type V = Seq<Seq<char>>;

    closed spec fn view(&self) -> Seq<Seq<char>> {
        self.namespaces.deep_view()
    }
}

impl TokenPayload {
    pub fn new(namespaces: Vec<String>) -> (r: TokenPayload)
        ensures
            r@ == namespaces.deep_view(),
    {
        TokenPayload { namespaces }
    }

    /// The namespace authorizer: true exactly when some grant covers the
    /// namespace.
    pub fn authorizes(&self, namespace: &Namespace) -> (r: bool)
        ensures
            r == grants_allow(self@, *namespace),
    {
        let canon = namespace.to_string();
        let n = self.namespaces.len();
        let mut i: usize = 0;
        while i < n
            invariant
                n == self.namespaces@.len(),
                i <= n,
                canon@ == namespace.canon(),
                self@ == self.namespaces.deep_view(),
                forall|j: int| 0 <= j < i ==> !grant_matches(#[trigger] self@[j], *namespace),
            decreases n - i,
        {
            let grant = &self.namespaces[i];
            proof {
                assert(self@[i as int] == self.namespaces@[i as int]@);
            }
            if grant.eq(&canon) {
                assert(grant_matches(self@[i as int], *namespace));
                return true;
            }
            if !contains_slash(grant) && grant.eq(namespace.org()) {
                assert(grant_matches(self@[i as int], *namespace));
                return true;
            }
            i = i + 1;
        }
        false
    }
}

/// Whether the text holds the namespace separator anywhere.
fn contains_slash(s: &String) -> (r: bool)
    ensures
        r == s@.contains('/'),
{
    let n = s.as_str().unicode_len();
    let mut i: usize = 0;
    while i < n
        invariant
            n == s@.len(),
            i <= n,
            forall|j: int| 0 <= j < i ==> #[trigger] s@[j] != '/',
        decreases n - i,
    {
        if s.as_str().get_char(i) == '/' {
            return true;
        }
        i = i + 1;
    }
    false
}

/// The token verifier: true exactly when the token is correctly signed
/// with the key and its grants cover the namespace.
pub fn verify_token(token: &str, namespace: &Namespace, private_key: &SigningKey) -> (r: bool)
    ensures
        r == token_authorizes(token@, private_key@, *namespace),
{
    match decode_claim_strings(token, private_key.secret.as_slice(), "namespaces") {
        None => false,
        Some(grants) => {
            let payload = TokenPayload::new(grants);
            payload.authorizes(namespace)
        },
    }
}

} // verus!
