//! Detached ES256K JSON Web Signatures with `b64: false`: the payload is
//! not carried and the middle segment stays empty.
use vstd::prelude::*;
use vstd::utf8::{decode_utf8, valid_utf8};
use crate::canon::utf8;
use crate::json::{JsonValue, JsonView, get, get_spec, json_parse_of, parse_json, str_spec, view_of};
use crate::jwk::{Secp256k1PublicKey, decode_base64url};
use crate::keypair::{check_secp256k1_scalar, is_secp256k1_scalar, secp256k1_public_of};
use crate::multihash::{base64url_of, encode_base64url, is_base64url_char};
use crate::text::{same_text, text_from_utf8};

verus! {

/// What k256 signing makes of a secret and a message: a signature (RFC 6979,
/// 64 bytes r || s), or nothing when it fails.
pub uninterp spec fn es256k_sign_of(secret: Seq<u8>, msg: Seq<u8>) -> Option<Seq<u8>>;

/// k256 accepts a 64-byte signature over a message for a public point.
pub uninterp spec fn es256k_valid(public_sec1: Seq<u8>, msg: Seq<u8>, sig: Seq<u8>) -> bool;

/// Relies on k256::ecdsa::SigningKey::try_sign: a deterministic signature,
/// 64 bytes, that verifies for the secret's public point.
#[verifier::external_body]
fn es256k_sign(secret: &[u8], msg: &[u8]) -> (r: Option<Vec<u8>>)
    requires
        secret@.len() == 32,
        is_secp256k1_scalar(secret@),
    ensures
        r is Some <==> es256k_sign_of(secret@, msg@) is Some,
        r matches Some(s) ==> (es256k_sign_of(secret@, msg@) == Some(s@) && s@.len() == 64
            && es256k_valid(secp256k1_public_of(secret@), msg@, s@)),
{
    let key = k256::ecdsa::SigningKey::from_slice(secret).ok()?;
    let sig: k256::ecdsa::Signature = k256::ecdsa::signature::Signer::try_sign(&key, msg).ok()?;
    Some(sig.to_vec())
}

/// Relies on k256::ecdsa::VerifyingKey::verify: whether the signature is
/// valid over the message for the public point.
#[verifier::external_body]
fn es256k_verify(public_sec1: &[u8], msg: &[u8], sig: &[u8]) -> (r: bool)
    requires
        sig@.len() == 64,
    ensures
        r == es256k_valid(public_sec1@, msg@, sig@),
{
    match (k256::ecdsa::VerifyingKey::from_sec1_bytes(public_sec1), k256::ecdsa::Signature::from_slice(sig)) {
        (Ok(key), Ok(sig)) => k256::ecdsa::signature::Verifier::verify(&key, msg, &sig).is_ok(),
        _ => false,
    }
}

/// Failure of signing.
#[derive(Debug, Clone, Copy, PartialEq, Eq, Structural)]
pub enum JwsEncodeError {
    SignatureError,
}

/// Failures of verifying.
#[derive(Debug, Clone, PartialEq, Eq)]
pub enum JwsDecodeError {
    DecodeError,
    JsonParseError,
    InvalidSignatureLength(usize),
    InvalidAlgorithm(String),
    B64NotSupported,
    B64NotSupportedButContained,
    EmptyPayload,
    InvalidJws,
    CryptError,
    FromUtf8Error,
}

/// The protected header that signing emits, as canonical JSON.
pub open spec fn canonical_header() -> Seq<char> {
    "{\"alg\":\"ES256K\",\"b64\":false,\"crit\":[\"b64\"]}"@
}

/// The list has the string `b64`.
pub open spec fn crit_has_b64(items: Seq<JsonView>) -> bool {
    exists|i: int| 0 <= i < items.len() && str_spec(Some(#[trigger] items[i])) == Some("b64"@)
}

/// Every item is a string.
pub open spec fn all_strings(items: Seq<JsonView>) -> bool {
    forall|i: int| 0 <= i < items.len() ==> #[trigger] items[i] is Str
}

/// How a decoded protected header fares.
#[derive(Debug, Clone, Copy, PartialEq, Eq, Structural)]
pub enum HeaderCheck {
    Accepted,
    NotUtf8,
    NotJson,
    BadAlgorithm,
    B64Set,
    B64NotCritical,
}

/// How a parsed header fares: members of the wrong kind first, then `alg`,
/// then `b64`, then `crit`.
pub open spec fn value_check(v: JsonView) -> HeaderCheck {
    let alg = str_spec(get_spec(v, "alg"@));
    let b64 = get_spec(v, "b64"@);
    let crit = get_spec(v, "crit"@);
    let well_typed = alg is Some && (b64 matches Some(JsonView::Bool(_))) && (crit matches Some(
        JsonView::Array(items),
    ) && all_strings(items));
    if !well_typed {
        HeaderCheck::NotJson
    } else if alg != Some("ES256K"@) {
        HeaderCheck::BadAlgorithm
    } else if b64 == Some(JsonView::Bool(true)) {
        HeaderCheck::B64Set
    } else if !(crit matches Some(JsonView::Array(items)) && crit_has_b64(items)) {
        HeaderCheck::B64NotCritical
    } else {
        HeaderCheck::Accepted
    }
}

/// How the decoded header bytes fare: the canonical header is accepted as
/// it is; other bytes must be UTF-8 JSON that passes `value_check`.
pub open spec fn header_check_of(b: Seq<u8>) -> HeaderCheck {
    if b == utf8(canonical_header()) {
        HeaderCheck::Accepted
    } else if !valid_utf8(b) {
        HeaderCheck::NotUtf8
    } else if decode_utf8(b) == canonical_header() {
        HeaderCheck::Accepted
    } else {
        match json_parse_of(decode_utf8(b)) {
            None => HeaderCheck::NotJson,
            Some(v) => value_check(v),
        }
    }
}

/// The error a header check gives, if any.
pub open spec fn header_error_is(r: Result<(), JwsDecodeError>, c: HeaderCheck) -> bool {
    match c {
        HeaderCheck::Accepted => true,
        HeaderCheck::NotUtf8 => r == Err::<(), JwsDecodeError>(JwsDecodeError::FromUtf8Error),
        HeaderCheck::NotJson => r == Err::<(), JwsDecodeError>(JwsDecodeError::JsonParseError),
        HeaderCheck::BadAlgorithm => r matches Err(JwsDecodeError::InvalidAlgorithm(_)),
        HeaderCheck::B64Set => r == Err::<(), JwsDecodeError>(JwsDecodeError::B64NotSupported),
        HeaderCheck::B64NotCritical => r == Err::<(), JwsDecodeError>(
            JwsDecodeError::B64NotSupportedButContained,
        ),
    }
}

/// An `InvalidAlgorithm` error carries the `alg` text of the decoded header `b`.
pub open spec fn algorithm_text_is(r: Result<(), JwsDecodeError>, b: Seq<u8>) -> bool {
    r matches Err(JwsDecodeError::InvalidAlgorithm(a)) ==> (valid_utf8(b) && json_parse_of(
        decode_utf8(b),
    ) is Some && str_spec(get_spec(json_parse_of(decode_utf8(b))->Some_0, "alg"@)) == Some(a@))
}

/// The header segment is acceptable.
pub open spec fn header_ok(h: Seq<char>) -> bool {
    exists|b: Seq<u8>| #[trigger] base64url_of(b) == h && header_check_of(b) == HeaderCheck::Accepted
}

/// The text is the Base64URL of some bytes.
pub open spec fn decodes(s: Seq<char>) -> bool {
    exists|b: Seq<u8>| #[trigger] base64url_of(b) == s
}

/// The header segment that signing emits.
pub open spec fn header_segment() -> Seq<char> {
    base64url_of(utf8(canonical_header()))
}

/// The text has exactly two dots, at `i` and `j`.
pub open spec fn dots_at(s: Seq<char>, i: int, j: int) -> bool {
    &&& 0 <= i < j < s.len()
    &&& s[i] == '.'
    &&& s[j] == '.'
    &&& forall|k: int| 0 <= k < s.len() && k != i && k != j ==> s[k] != '.'
}

/// The signing input: header segment, a dot, and the Base64URL of the payload text.
pub open spec fn signing_input(h: Seq<char>, payload: Seq<char>) -> Seq<u8> {
    utf8(h + "."@ + base64url_of(utf8(payload)))
}

/// A JWS text verifies for `payload` under the public point `public_sec1`.
pub open spec fn jws_accepts(payload: Seq<char>, jws: Seq<char>, public_sec1: Seq<u8>) -> bool {
    exists|i: int, j: int|
        dots_at(jws, i, j) && header_ok(jws.subrange(0, i)) && j == i + 1 && exists|sig: Seq<u8>|
            sig.len() == 64 && #[trigger] base64url_of(sig) == jws.subrange(j + 1, jws.len() as int)
                && es256k_valid(public_sec1, signing_input(jws.subrange(0, i), payload), sig)
}

/// Finds the two dots of a JWS text, if it has exactly two.
fn split_dots(s: &str) -> (r: Option<(usize, usize)>)
    ensures
        r matches Some((i, j)) ==> dots_at(s@, i as int, j as int),
        r is None ==> forall|i: int, j: int| !dots_at(s@, i, j),
{
    let n = s.unicode_len();
    let mut first: Option<usize> = None;
    let mut second: Option<usize> = None;
    let mut k: usize = 0;
    while k < n
        invariant
            n == s@.len(),
            k <= n,
            first is None ==> forall|m: int| 0 <= m < k ==> s@[m] != '.',
            first matches Some(i) ==> (i < k && s@[i as int] == '.' && forall|m: int|
                0 <= m < i ==> s@[m] != '.'),
            first is None ==> second is None,
            second matches Some(j) ==> (first matches Some(i) && i < j && j < k && s@[j as int]
                == '.' && forall|m: int| 0 <= m < k && m != i && m != j ==> s@[m] != '.'),
            first is Some && second is None ==> forall|m: int|
                0 <= m < k && m != first->Some_0 ==> s@[m] != '.',
        decreases n - k,
    {
        if s.get_char(k) == '.' {
            match (first, second) {
                (None, _) => {
                    first = Some(k);
                },
                (Some(_), None) => {
                    second = Some(k);
                },
                (Some(i), Some(j)) => {
                    proof {
                        assert forall|a: int, b: int| !dots_at(s@, a, b) by {
                            if dots_at(s@, a, b) {
                                assert(s@[i as int] == '.' && s@[j as int] == '.' && s@[k as int] == '.');
                            }
                        }
                    }
                    return None;
                },
            }
        }
        k += 1;
    }
    match (first, second) {
        (Some(i), Some(j)) => Some((i, j)),
        _ => {
            proof {
                assert forall|a: int, b: int| !dots_at(s@, a, b) by {
                    if dots_at(s@, a, b) {
                        if first is Some {
                            let i = first->Some_0;
                            if a != i {
                                assert(s@[a] == '.');
                            } else {
                                assert(s@[b] == '.');
                            }
                        } else {
                            assert(s@[a] == '.');
                        }
                    }
                }
            }
            None
        },
    }
}

/// Whether a parsed header names `ES256K`, refuses `b64` and lists it as critical.
fn check_header_value(v: &JsonValue) -> (r: Result<(), JwsDecodeError>)
    ensures
        header_error_is(r, value_check(view_of(*v))),
        r is Ok <==> value_check(view_of(*v)) == HeaderCheck::Accepted,
        r matches Err(JwsDecodeError::InvalidAlgorithm(a)) ==> str_spec(
            get_spec(view_of(*v), "alg"@),
        ) == Some(a@),
{
    let alg_member = get(v, "alg");
    let alg = match alg_member {
        Some(JsonValue::Str(a)) => a,
        _ => {
            proof {
                if alg_member is Some {
                    crate::json::lemma_view_of_kind(*alg_member->Some_0);
                }
            }
            return Err(JwsDecodeError::JsonParseError);
        },
    };
    proof {
        crate::json::lemma_view_of_kind(*alg_member->Some_0);
    }
    let b64_member = get(v, "b64");
    let b64 = match b64_member {
        Some(JsonValue::Bool(b)) => *b,
        _ => {
            proof {
                if b64_member is Some {
                    crate::json::lemma_view_of_kind(*b64_member->Some_0);
                }
            }
            return Err(JwsDecodeError::JsonParseError);
        },
    };
    proof {
        crate::json::lemma_view_of_kind(*b64_member->Some_0);
    }
    let crit = get(v, "crit");
    let items = match crit {
        Some(JsonValue::Array(items)) => items,
        _ => {
            proof {
                if crit is Some {
                    crate::json::lemma_view_of_kind(*crit->Some_0);
                }
            }
            return Err(JwsDecodeError::JsonParseError);
        },
    };
    let ghost iv = match view_of(JsonValue::Array(*items)) {
        JsonView::Array(x) => x,
        _ => Seq::empty(),
    };
    assert(get_spec(view_of(*v), "crit"@) == Some(JsonView::Array(iv)));
    let mut i: usize = 0;
    let mut found = false;
    while i < items.len()
        invariant
            i <= items@.len(),
            iv.len() == items@.len(),
            get_spec(view_of(*v), "crit"@) == Some(JsonView::Array(iv)),
            forall|k: int| 0 <= k < items@.len() ==> #[trigger] iv[k] == view_of(items@[k]),
            forall|k: int| 0 <= k < i ==> #[trigger] iv[k] is Str,
            found <==> exists|k: int| 0 <= k < i && str_spec(Some(#[trigger] iv[k])) == Some("b64"@),
        decreases items@.len() - i,
    {
        match &items[i] {
            JsonValue::Str(c) => {
                assert(iv[i as int] == JsonView::Str(c@));
                if same_text(c.as_str(), "b64") {
                    found = true;
                }
            },
            _ => {
                proof {
                    crate::json::lemma_view_of_kind(items@[i as int]);
                }
                assert(!(iv[i as int] is Str));
                return Err(JwsDecodeError::JsonParseError);
            },
        }
        i += 1;
    }
    if !same_text(alg.as_str(), "ES256K") {
        let a = alg.clone();
        assert(a@ == alg@);
        return Err(JwsDecodeError::InvalidAlgorithm(a));
    }
    if b64 {
        return Err(JwsDecodeError::B64NotSupported);
    }
    if !found {
        return Err(JwsDecodeError::B64NotSupportedButContained);
    }
    Ok(())
}

/// Checks the decoded header bytes.
fn check_header(b: Vec<u8>) -> (r: Result<(), JwsDecodeError>)
    ensures
        header_error_is(r, header_check_of(b@)),
        algorithm_text_is(r, b@),
        r is Ok <==> header_check_of(b@) == HeaderCheck::Accepted,
{
    let canonical = "{\"alg\":\"ES256K\",\"b64\":false,\"crit\":[\"b64\"]}".as_bytes();
    if bytes_equal(b.as_slice(), canonical) {
        return Ok(());
    }
    let text = match text_from_utf8(b) {
        Some(t) => t,
        None => return Err(JwsDecodeError::FromUtf8Error),
    };
    if same_text(text.as_str(), "{\"alg\":\"ES256K\",\"b64\":false,\"crit\":[\"b64\"]}") {
        return Ok(());
    }
    match parse_json(text.as_str()) {
        Some(v) => check_header_value(&v),
        None => Err(JwsDecodeError::JsonParseError),
    }
}

/// Whether two byte slices are equal.
fn bytes_equal(a: &[u8], b: &[u8]) -> (r: bool)
    ensures
        r == (a@ == b@),
{
    if a.len() != b.len() {
        return false;
    }
    let mut i: usize = 0;
    while i < a.len()
        invariant
            a@.len() == b@.len(),
            i <= a@.len(),
            forall|k: int| 0 <= k < i ==> a@[k] == b@[k],
        decreases a@.len() - i,
    {
        if a[i] != b[i] {
            return false;
        }
        i += 1;
    }
    assert(a@ =~= b@);
    true
}

/// Signs the JSON text `payload` with a secp256k1 secret: header segment,
/// an empty payload segment, and the Base64URL signature over
/// `header.base64url(payload)`. The result verifies for the secret's public point.
pub fn sign(payload: &str, secret_key: &[u8]) -> (r: Result<String, JwsEncodeError>)
    ensures
        !(secret_key@.len() == 32 && is_secp256k1_scalar(secret_key@)) ==> r == Err::<
            String,
            JwsEncodeError,
        >(JwsEncodeError::SignatureError),
        secret_key@.len() == 32 && is_secp256k1_scalar(secret_key@) ==> (r is Ok <==> es256k_sign_of(
            secret_key@,
            signing_input(header_segment(), payload@),
        ) is Some),
        r is Err ==> r == Err::<String, JwsEncodeError>(JwsEncodeError::SignatureError),
        r matches Ok(t) ==> (t@ == header_segment() + ".."@ + base64url_of(
            es256k_sign_of(secret_key@, signing_input(header_segment(), payload@))->Some_0,
        ) && jws_accepts(payload@, t@, secp256k1_public_of(secret_key@))),
{
    if secret_key.len() != 32 || !check_secp256k1_scalar(secret_key) {
        return Err(JwsEncodeError::SignatureError);
    }
    let header_text = "{\"alg\":\"ES256K\",\"b64\":false,\"crit\":[\"b64\"]}";
    let header = encode_base64url(header_text.as_bytes());
    let encoded_payload = encode_base64url(payload.as_bytes());
    let mut message = header.clone();
    message.append(".");
    message.append(encoded_payload.as_str());
    proof {
        assert(header@ == header_segment());
        assert(message@ == header@ + "."@ + base64url_of(utf8(payload@)));
    }
    let signature = match es256k_sign(secret_key, message.as_str().as_bytes()) {
        Some(s) => s,
        None => return Err(JwsEncodeError::SignatureError),
    };
    let encoded_signature = encode_base64url(signature.as_slice());
    let mut out = header.clone();
    out.append("..");
    out.append(encoded_signature.as_str());
    proof {
        let h = header@;
        let t = out@;
        let i = h.len() as int;
        assert(t == h + ".."@ + encoded_signature@);
        reveal_strlit("..");
        reveal_strlit(".");
        assert(dots_at(t, i, i + 1)) by {
            assert forall|k: int| 0 <= k < t.len() && k != i && k != i + 1 implies t[k] != '.' by {
                if k < i {
                    assert(t[k] == h[k]);
                    assert(is_base64url_char(h[k]));
                } else {
                    assert(t[k] == encoded_signature@[k - i - 2]);
                    assert(is_base64url_char(encoded_signature@[k - i - 2]));
                }
            }
        }
        assert(t.subrange(0, i) == h);
        assert(t.subrange(i + 2, t.len() as int) == encoded_signature@);
        assert(header_ok(h)) by {
            assert(base64url_of(utf8(canonical_header())) == h);
        }
        assert(message@ == h + "."@ + base64url_of(utf8(payload@)));
        assert(h == header_segment());
    }
    Ok(out)
}

/// What verifying `jws` over `payload` with the public point gives: Ok
/// exactly when the JWS is accepted, and otherwise the first failing
/// stage's error (shape, header decoding, header, payload segment,
/// signature decoding, signature length, signature).
pub open spec fn verify_result_is(
    r: Result<(), JwsDecodeError>,
    payload: Seq<char>,
    jws: Seq<char>,
    public_sec1: Seq<u8>,
) -> bool {
    &&& (r is Ok <==> jws_accepts(payload, jws, public_sec1))
    &&& ((forall|i: int, j: int| !dots_at(jws, i, j)) ==> r == Err::<(), JwsDecodeError>(
        JwsDecodeError::InvalidJws))
    &&& (forall|i: int, j: int|
        #[trigger] dots_at(jws, i, j) && !decodes(jws.subrange(0, i)) ==> r == Err::<
            (),
            JwsDecodeError,
        >(JwsDecodeError::DecodeError))
    &&& (forall|i: int, j: int, b: Seq<u8>|
        #[trigger] dots_at(jws, i, j) && #[trigger] base64url_of(b) == jws.subrange(0, i)
            ==> header_error_is(r, header_check_of(b)) && algorithm_text_is(r, b))
    &&& (forall|i: int, j: int, b: Seq<u8>|
        #[trigger] dots_at(jws, i, j) && #[trigger] base64url_of(b) == jws.subrange(0, i)
            && header_check_of(b) == HeaderCheck::Accepted && j != i + 1 ==> r == Err::<
            (),
            JwsDecodeError,
        >(JwsDecodeError::EmptyPayload))
    &&& (forall|i: int, b: Seq<u8>|
        #[trigger] dots_at(jws, i, i + 1) && #[trigger] base64url_of(b) == jws.subrange(0, i)
            && header_check_of(b) == HeaderCheck::Accepted && !decodes(
            jws.subrange(i + 2, jws.len() as int),
        ) ==> r == Err::<(), JwsDecodeError>(JwsDecodeError::DecodeError))
    &&& (forall|i: int, b: Seq<u8>, sig: Seq<u8>|
        #[trigger] dots_at(jws, i, i + 1) && #[trigger] base64url_of(b) == jws.subrange(0, i)
            && header_check_of(b) == HeaderCheck::Accepted && #[trigger] base64url_of(sig)
            == jws.subrange(i + 2, jws.len() as int) ==> (if sig.len() != 64 {
            r == Err::<(), JwsDecodeError>(JwsDecodeError::InvalidSignatureLength(sig.len() as usize))
        } else if !es256k_valid(public_sec1, signing_input(jws.subrange(0, i), payload), sig) {
            r == Err::<(), JwsDecodeError>(JwsDecodeError::CryptError)
        } else {
            r is Ok
        }))
}

/// Verifies a detached JWS over the JSON text `payload` with a public key.
pub fn verify(payload: &str, jws: &str, public_key: &Secp256k1PublicKey) -> (r: Result<
    (),
    JwsDecodeError,
>)
    ensures
        verify_result_is(r, payload@, jws@, public_key.sec1@),
{
    let (i, j) = match split_dots(jws) {
        Some(p) => p,
        None => return Err(JwsDecodeError::InvalidJws),
    };
    let header = jws.substring_char(0, i);
    let header_bytes = match decode_base64url(header) {
        Some(b) => b,
        None => return Err(JwsDecodeError::DecodeError),
    };
    if let Err(e) = check_header(header_bytes) {
        return Err(e);
    }
    if j != i + 1 {
        return Err(JwsDecodeError::EmptyPayload);
    }
    let encoded_payload = encode_base64url(payload.as_bytes());
    let mut message = String::from_str(header);
    message.append(".");
    message.append(encoded_payload.as_str());
    let n = jws.unicode_len();
    let signature = match decode_base64url(jws.substring_char(j + 1, n)) {
        Some(s) => s,
        None => return Err(JwsDecodeError::DecodeError),
    };
    if signature.len() != 64 {
        return Err(JwsDecodeError::InvalidSignatureLength(signature.len()));
    }
    if es256k_verify(public_key.sec1.as_slice(), message.as_str().as_bytes(), signature.as_slice()) {
        Ok(())
    } else {
        Err(JwsDecodeError::CryptError)
    }
}

} // verus!
