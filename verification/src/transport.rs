use vstd::prelude::*;

verus! {

use crate::codec::base64_decode_standard;
use crate::codec::base64_standard_decoded;
use crate::codec::utf8_string;
use crate::errors::AuthError;
use vstd::string::StrSliceExecFns;
use vstd::utf8::decode_utf8;
use vstd::utf8::valid_utf8;

/// ASCII whitespace, the separators `str::split_ascii_whitespace` cuts on.
pub open spec fn is_ws(b: u8) -> bool {
    b == 32 || b == 9 || b == 10 || b == 12 || b == 13
}

/// The bytes `http::HeaderValue::to_str` accepts: visible ASCII or tab.
pub open spec fn is_visible_ascii(b: u8) -> bool {
    (32 <= b && b < 127) || b == 9
}

/// A header value that is representable as text.
pub open spec fn all_visible_ascii(v: Seq<u8>) -> bool {
    forall|i: int| 0 <= i < v.len() ==> is_visible_ascii(#[trigger] v[i])
}

/// The first index at or after `i` holding a non-whitespace byte.
pub open spec fn skip_ws(v: Seq<u8>, i: int) -> int
    recommends
        0 <= i <= v.len(),
    decreases v.len() - i when 0 <= i <= v.len()
{
    if i >= v.len() || !is_ws(v[i]) {
        i
    } else {
        skip_ws(v, i + 1)
    }
}

/// The first index at or after `i` holding a whitespace byte.
pub open spec fn scan_token(v: Seq<u8>, i: int) -> int
    recommends
        0 <= i <= v.len(),
    decreases v.len() - i when 0 <= i <= v.len()
{
    if i >= v.len() || is_ws(v[i]) {
        i
    } else {
        scan_token(v, i + 1)
    }
}

/// Splits a byte string on ASCII whitespace: `Some` of the two tokens
/// exactly when there are two, `None` for any other token count.
pub open spec fn split2(v: Seq<u8>) -> Option<(Seq<u8>, Seq<u8>)> {
    let a = skip_ws(v, 0);
    let b = scan_token(v, a);
    let c = skip_ws(v, b);
    let d = scan_token(v, c);
    if a < b && c < d && skip_ws(v, d) == v.len() {
        Some((v.subrange(a, b), v.subrange(c, d)))
    } else {
        None
    }
}

/// The scheme marker: the ASCII bytes of `Basic`.
pub open spec fn basic_marker() -> Seq<u8> {
    seq![66u8, 97u8, 115u8, 105u8, 99u8]
}

/// The Base64 blob of a well-formed two-token `Basic` credential, if the
/// value has that shape.
pub open spec fn basic_blob(v: Seq<u8>) -> Option<Seq<u8>> {
    match split2(v) {
        None => None,
        Some(t) => if t.0 == basic_marker() {
            Some(t.1)
        } else {
            None
        },
    }
}

/// The first index at or after `i` holding a colon.
pub open spec fn scan_colon(s: Seq<char>, i: int) -> int
    recommends
        0 <= i <= s.len(),
    decreases s.len() - i when 0 <= i <= s.len()
{
    if i >= s.len() || s[i] == ':' {
        i
    } else {
        scan_colon(s, i + 1)
    }
}

/// What the credential extractor yields for a present header value: the
/// opaque token, or the classification of the failure. The value must be
/// text, of the two-token shape `Basic <blob>`; the blob must decode as
/// Base64 into valid text holding a colon; the token is the text after
/// the first colon (the part before it carries no meaning and is
/// dropped). Everything else is `Malformed`.
pub open spec fn extract_spec(v: Seq<u8>) -> Result<Seq<char>, AuthError> {
    if !all_visible_ascii(v) {
        Err(AuthError::Malformed)
    } else {
        match basic_blob(v) {
            None => Err(AuthError::Malformed),
            Some(blob) => match base64_standard_decoded(blob) {
                None => Err(AuthError::Malformed),
                Some(decoded) => if !valid_utf8(decoded) {
                    Err(AuthError::Malformed)
                } else {
                    let chars = decode_utf8(decoded);
                    let j = scan_colon(chars, 0);
                    if j == chars.len() {
                        Err(AuthError::Malformed)
                    } else {
                        Ok(chars.subrange(j + 1, chars.len() as int))
                    }
                },
            },
        }
    }
}

/// Every character before the first colon differs from it, and the scan
/// stops at a colon or at the end.
pub proof fn lemma_scan_colon(s: Seq<char>, i: int)
    requires
        0 <= i <= s.len(),
    ensures
        i <= scan_colon(s, i) <= s.len(),
        forall|j: int| i <= j < scan_colon(s, i) ==> #[trigger] s[j] != ':',
        scan_colon(s, i) == s.len() || s[scan_colon(s, i)] == ':',
    decreases s.len() - i,
{
    if i < s.len() && s[i] != ':' {
        lemma_scan_colon(s, i + 1);
    }
}

fn is_ws_exec(b: u8) -> (r: bool)
    ensures
        r == is_ws(b),
{
    b == 32 || b == 9 || b == 10 || b == 12 || b == 13
}

fn skip_ws_exec(v: &Vec<u8>, from: usize) -> (r: usize)
    requires
        from <= v@.len(),
    ensures
        r == skip_ws(v@, from as int),
        from <= r <= v@.len(),
{
    let mut i = from;
    while i < v.len() && is_ws_exec(v[i])
        invariant
            from <= i <= v@.len(),
            skip_ws(v@, from as int) == skip_ws(v@, i as int),
        decreases v@.len() - i,
    {
        i = i + 1;
    }
    i
}

fn scan_token_exec(v: &Vec<u8>, from: usize) -> (r: usize)
    requires
        from <= v@.len(),
    ensures
        r == scan_token(v@, from as int),
        from <= r <= v@.len(),
{
    let mut i = from;
    while i < v.len() && !is_ws_exec(v[i])
        invariant
            from <= i <= v@.len(),
            scan_token(v@, from as int) == scan_token(v@, i as int),
        decreases v@.len() - i,
    {
        i = i + 1;
    }
    i
}

/// Whether `v[a..b]` is exactly the `Basic` marker.
fn is_basic_marker(v: &Vec<u8>, a: usize, b: usize) -> (r: bool)
    requires
        a <= b <= v@.len(),
    ensures
        r == (v@.subrange(a as int, b as int) == basic_marker()),
{
    let ghost s = v@.subrange(a as int, b as int);
    if b - a != 5 {
        assert(s.len() != basic_marker().len());
        return false;
    }
    if v[a] != 66 {
        assert(s[0] != basic_marker()[0]);
        return false;
    }
    if v[a + 1] != 97 {
        assert(s[1] != basic_marker()[1]);
        return false;
    }
    if v[a + 2] != 115 {
        assert(s[2] != basic_marker()[2]);
        return false;
    }
    if v[a + 3] != 105 {
        assert(s[3] != basic_marker()[3]);
        return false;
    }
    if v[a + 4] != 99 {
        assert(s[4] != basic_marker()[4]);
        return false;
    }
    proof {
        assert(s =~= basic_marker());
    }
    true
}

/// The credential extractor: turns a present header value into the opaque
/// token it transports, or classifies why it cannot.
pub(crate) fn extract_token(v: &Vec<u8>) -> (r: Result<String, AuthError>)
    ensures
        r matches Ok(t) ==> extract_spec(v@) == Ok::<Seq<char>, AuthError>(t@),
        r matches Err(e) ==> extract_spec(v@) == Err::<Seq<char>, AuthError>(e),
{
    let n = v.len();
    let mut i: usize = 0;
    while i < n
        invariant
            n == v@.len(),
            i <= n,
            forall|j: int| 0 <= j < i ==> is_visible_ascii(#[trigger] v@[j]),
        decreases n - i,
    {
        let byte = v[i];
        if !((32 <= byte && byte < 127) || byte == 9) {
            assert(!is_visible_ascii(v@[i as int]));
            return Err(AuthError::Malformed);
        }
        i = i + 1;
    }
    assert(all_visible_ascii(v@));

    let a = skip_ws_exec(v, 0);
    let b = scan_token_exec(v, a);
    let c = skip_ws_exec(v, b);
    let d = scan_token_exec(v, c);
    let e = skip_ws_exec(v, d);
    if !(a < b && c < d && e == n) {
        assert(split2(v@) is None);
        return Err(AuthError::Malformed);
    }
    if !is_basic_marker(v, a, b) {
        assert(basic_blob(v@) is None);
        return Err(AuthError::Malformed);
    }
    assert(basic_blob(v@) == Some(v@.subrange(c as int, d as int)));

    let mut blob: Vec<u8> = Vec::new();
    let mut k = c;
    while k < d
        invariant
            c <= k <= d,
            d <= v@.len(),
            blob@ == v@.subrange(c as int, k as int),
        decreases d - k,
    {
        blob.push(v[k]);
        proof {
            assert(v@.subrange(c as int, k + 1 as int) =~= v@.subrange(c as int, k as int).push(
                v@[k as int],
            ));
        }
        k = k + 1;
    }

    let decoded = match base64_decode_standard(&blob) {
        None => {
            return Err(AuthError::Malformed);
        },
        Some(x) => x,
    };
    let ghost dv = decoded@;
    let s = match utf8_string(decoded) {
        None => {
            return Err(AuthError::Malformed);
        },
        Some(x) => x,
    };
    assert(s@ == decode_utf8(dv));

    let len = s.as_str().unicode_len();
    let mut j: usize = 0;
    while j < len && s.as_str().get_char(j) != ':'
        invariant
            len == s@.len(),
            j <= len,
            scan_colon(s@, 0) == scan_colon(s@, j as int),
        decreases len - j,
    {
        j = j + 1;
    }
    if j == len {
        return Err(AuthError::Malformed);
    }
    assert(scan_colon(s@, 0) == j);
    let tail = s.as_str().substring_char(j + 1, len);
    let token = tail.to_owned();
    proof {
        assert(token@ == decode_utf8(dv).subrange(j + 1 as int, decode_utf8(dv).len() as int));
    }
    Ok(token)
}

} // verus!
