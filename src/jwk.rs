//! JSON Web Keys for secp256k1 (`EC`) and X25519 (`OKP`) public keys.
use vstd::prelude::*;
use crate::multihash::{base64url_of, encode_base64url};
use crate::text::{copy_range, same_text};

verus! {

/// A public key in JWK form; `y` is present for `EC` keys only.
#[derive(Debug, Clone)]
pub struct Jwk {
    pub kty: String,
    pub crv: String,
    pub x: String,
    pub y: Option<String>,
}

/// Failures of turning a JWK into a secp256k1 public key.
#[derive(Debug, Clone, Copy, PartialEq, Eq, Structural)]
pub enum JwkToK256Error {
    MissingY,
    Decode,
    DifferentCrv,
    Crypt,
}

/// Failures of turning a JWK into an X25519 public key.
#[derive(Debug, Clone, Copy, PartialEq, Eq, Structural)]
pub enum JwkToX25519Error {
    Decode,
    DifferentCrv,
}

/// Failure of turning a secp256k1 public key into a JWK.
#[derive(Debug, Clone, Copy, PartialEq, Eq, Structural)]
pub enum K256ToJwkError {
    PointsInvalid,
}

/// k256 accepts these SEC1 bytes as a point of secp256k1.
pub uninterp spec fn is_secp256k1_point(sec1: Seq<u8>) -> bool;

/// Relies on k256::PublicKey::from_sec1_bytes: whether the bytes encode a
/// point of the curve.
#[verifier::external_body]
pub(crate) fn check_secp256k1_point(sec1: &[u8]) -> (r: bool)
    ensures
        r == is_secp256k1_point(sec1@),
{
    k256::PublicKey::from_sec1_bytes(sec1).is_ok()
}

/// Relies on data_encoding::BASE64URL_NOPAD.decode, which is correct and
/// canonical: it yields the bytes whose encoding is the text, if any.
#[verifier::external_body]
pub(crate) fn decode_base64url(s: &str) -> (r: Option<Vec<u8>>)
    ensures
        r matches Some(v) ==> base64url_of(v@) == s@,
        forall|b: Seq<u8>| #[trigger] base64url_of(b) == s@ ==> (r is Some && r->Some_0@ == b),
{
    data_encoding::BASE64URL_NOPAD.decode(s.as_bytes()).ok()
}

/// An uncompressed SEC1 point: `0x04`, then the 32-byte `x` and `y`.
pub open spec fn is_uncompressed_point(sec1: Seq<u8>) -> bool {
    sec1.len() == 65 && sec1[0] == 4 && is_secp256k1_point(sec1)
}

/// A secp256k1 public key, held as its uncompressed SEC1 encoding.
#[derive(Debug, Clone)]
pub struct Secp256k1PublicKey {
    pub sec1: Vec<u8>,
}

impl Secp256k1PublicKey {
    pub open spec fn wf(&self) -> bool {
        is_uncompressed_point(self.sec1@)
    }

    /// Reads an uncompressed SEC1 point; fails unless it is one of the curve.
    pub fn from_sec1_bytes(bytes: &[u8]) -> (r: Option<Secp256k1PublicKey>)
        ensures
            r is Some <==> is_uncompressed_point(bytes@),
            r matches Some(pk) ==> pk.sec1@ == bytes@,
    {
        if bytes.len() == 65 && bytes[0] == 4 && check_secp256k1_point(bytes) {
            Some(Secp256k1PublicKey { sec1: copy_range(bytes, 0, bytes.len()) })
        } else {
            None
        }
    }
}

/// An X25519 public key: 32 bytes.
#[derive(Debug, Clone)]
pub struct X25519PublicKey {
    pub bytes: Vec<u8>,
}

impl X25519PublicKey {
    pub open spec fn wf(&self) -> bool {
        self.bytes@.len() == 32
    }
}

/// `j` is the JWK of the secp256k1 point `sec1`.
pub open spec fn is_secp256k1_jwk_of(j: Jwk, sec1: Seq<u8>) -> bool {
    &&& j.kty@ == "EC"@
    &&& j.crv@ == "secp256k1"@
    &&& j.x@ == base64url_of(sec1.subrange(1, 33))
    &&& j.y matches Some(y) && y@ == base64url_of(sec1.subrange(33, 65))
}

/// `j` is the JWK of the X25519 key `key`.
pub open spec fn is_x25519_jwk_of(j: Jwk, key: Seq<u8>) -> bool {
    &&& j.kty@ == "OKP"@
    &&& j.crv@ == "X25519"@
    &&& j.x@ == base64url_of(key)
    &&& j.y is None
}

/// The text decodes to 32 bytes.
pub open spec fn decodes_to_32(s: Seq<char>) -> bool {
    exists|b: Seq<u8>| b.len() == 32 && #[trigger] base64url_of(b) == s
}

/// The JWK of a secp256k1 public key, from its uncompressed coordinates.
pub fn secp256k1_to_jwk(pk: &Secp256k1PublicKey) -> (r: Result<Jwk, K256ToJwkError>)
    ensures
        pk.sec1@.len() == 65 && pk.sec1@[0] == 4 ==> (r matches Ok(j) && is_secp256k1_jwk_of(
            j,
            pk.sec1@,
        )),
        !(pk.sec1@.len() == 65 && pk.sec1@[0] == 4) ==> r == Err::<Jwk, K256ToJwkError>(
            K256ToJwkError::PointsInvalid),
{
    if pk.sec1.len() != 65 || pk.sec1[0] != 4 {
        return Err(K256ToJwkError::PointsInvalid);
    }
    let xb = copy_range(pk.sec1.as_slice(), 1, 33);
    let yb = copy_range(pk.sec1.as_slice(), 33, 65);
    let x = encode_base64url(xb.as_slice());
    let y = encode_base64url(yb.as_slice());
    Ok(Jwk { kty: String::from_str("EC"), crv: String::from_str("secp256k1"), x, y: Some(y) })
}

/// The secp256k1 public key of a JWK: `crv` must be `secp256k1`, both
/// coordinates present, each the Base64URL of 32 bytes, and the point on the
/// curve.
pub fn jwk_to_secp256k1(jwk: &Jwk) -> (r: Result<Secp256k1PublicKey, JwkToK256Error>)
    ensures
        jwk.crv@ != "secp256k1"@ ==> r == Err::<Secp256k1PublicKey, JwkToK256Error>(
            JwkToK256Error::DifferentCrv),
        jwk.crv@ == "secp256k1"@ && jwk.y is None ==> r == Err::<
            Secp256k1PublicKey,
            JwkToK256Error,
        >(JwkToK256Error::MissingY),
        jwk.crv@ == "secp256k1"@ ==> (jwk.y matches Some(y) ==> (!(decodes_to_32(jwk.x@)
            && decodes_to_32(y@)) ==> r == Err::<Secp256k1PublicKey, JwkToK256Error>(
            JwkToK256Error::Decode))),
        r matches Ok(pk) ==> (pk.wf() && jwk.crv@ == "secp256k1"@ && (jwk.y matches Some(y)
            && jwk.x@ == base64url_of(pk.sec1@.subrange(1, 33)) && y@ == base64url_of(
            pk.sec1@.subrange(33, 65),
        ))),
        r matches Err(JwkToK256Error::Decode) ==> (jwk.crv@ == "secp256k1"@ && (jwk.y matches Some(
            y,
        ) && !(decodes_to_32(jwk.x@) && decodes_to_32(y@)))),
        r matches Err(JwkToK256Error::Crypt) ==> (jwk.crv@ == "secp256k1"@ && (jwk.y matches Some(
            y,
        ) && forall|bx: Seq<u8>, by: Seq<u8>|
            base64url_of(bx) == jwk.x@ && base64url_of(by) == y@ ==> !is_secp256k1_point(
                seq![4u8] + bx + by,
            ))),
        forall|p: Seq<u8>|
            is_uncompressed_point(p) && #[trigger] is_secp256k1_jwk_of(*jwk, p) ==> (r matches Ok(
                pk,
            ) && pk.sec1@ == p),
{
    if !same_text(jwk.crv.as_str(), "secp256k1") {
        return Err(JwkToK256Error::DifferentCrv);
    }
    let y = match &jwk.y {
        Some(y) => y,
        None => return Err(JwkToK256Error::MissingY),
    };
    let xb = match decode_base64url(jwk.x.as_str()) {
        Some(v) => v,
        None => return Err(JwkToK256Error::Decode),
    };
    let yb = match decode_base64url(y.as_str()) {
        Some(v) => v,
        None => return Err(JwkToK256Error::Decode),
    };
    if xb.len() != 32 || yb.len() != 32 {
        return Err(JwkToK256Error::Decode);
    }
    let mut sec1: Vec<u8> = Vec::new();
    sec1.push(4);
    crate::canon::push_bytes(&mut sec1, xb.as_slice());
    crate::canon::push_bytes(&mut sec1, yb.as_slice());
    assert(sec1@.subrange(1, 33) == xb@);
    assert(sec1@.subrange(33, 65) == yb@);
    proof {
        assert forall|p: Seq<u8>|
            is_uncompressed_point(p) && #[trigger] is_secp256k1_jwk_of(*jwk, p) implies p
                == sec1@ by {
            assert(base64url_of(p.subrange(1, 33)) == jwk.x@);
            assert(p =~= seq![4u8] + p.subrange(1, 33) + p.subrange(33, 65));
        }
    }
    if !check_secp256k1_point(sec1.as_slice()) {
        return Err(JwkToK256Error::Crypt);
    }
    Ok(Secp256k1PublicKey { sec1 })
}

/// The JWK of an X25519 public key.
pub fn x25519_to_jwk(pk: &X25519PublicKey) -> (r: Jwk)
    ensures
        is_x25519_jwk_of(r, pk.bytes@),
{
    let x = encode_base64url(pk.bytes.as_slice());
    Jwk { kty: String::from_str("OKP"), crv: String::from_str("X25519"), x, y: None }
}

/// The X25519 public key of a JWK: `crv` must be `X25519` and `x` the
/// Base64URL of 32 bytes.
pub fn jwk_to_x25519(jwk: &Jwk) -> (r: Result<X25519PublicKey, JwkToX25519Error>)
    ensures
        jwk.crv@ != "X25519"@ ==> r == Err::<X25519PublicKey, JwkToX25519Error>(
            JwkToX25519Error::DifferentCrv),
        jwk.crv@ == "X25519"@ && decodes_to_32(jwk.x@) ==> r is Ok,
        jwk.crv@ == "X25519"@ && !decodes_to_32(jwk.x@) ==> r == Err::<
            X25519PublicKey,
            JwkToX25519Error,
        >(JwkToX25519Error::Decode),
        r matches Ok(pk) ==> pk.wf() && jwk.x@ == base64url_of(pk.bytes@),
        forall|k: Seq<u8>|
            k.len() == 32 && #[trigger] is_x25519_jwk_of(*jwk, k) ==> (r matches Ok(pk) && pk.bytes@
                == k),
{
    if !same_text(jwk.crv.as_str(), "X25519") {
        return Err(JwkToX25519Error::DifferentCrv);
    }
    match decode_base64url(jwk.x.as_str()) {
        Some(v) => {
            if v.len() == 32 {
                Ok(X25519PublicKey { bytes: v })
            } else {
                Err(JwkToX25519Error::Decode)
            }
        },
        None => Err(JwkToX25519Error::Decode),
    }
}

} // verus!
