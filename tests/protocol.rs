use miax::jwk::{K256ToJwkError, Secp256k1PublicKey};
use miax::payload::ToPublicKey;
use miax::jwk::{jwk_to_secp256k1, jwk_to_x25519, secp256k1_to_jwk, x25519_to_jwk, Jwk, JwkToK256Error, JwkToX25519Error};
use miax::jws::{sign, verify, JwsDecodeError};
use miax::keypair::{K256KeyPair, KeyPairHex, KeyPairing, X25519KeyPair};
use miax::multihash::{double_hash_encode, hash, hash_encode};
use miax::payload::{commitment_scheme, did_create_payload, DidPatchDocument};

const SHA256_EMPTY: [u8; 32] = [
    0xe3, 0xb0, 0xc4, 0x42, 0x98, 0xfc, 0x1c, 0x14, 0x9a, 0xfb, 0xf4, 0xc8, 0x99, 0x6f, 0xb9, 0x24,
    0x27, 0xae, 0x41, 0xe4, 0x64, 0x9b, 0x93, 0x4c, 0xa4, 0x95, 0x99, 0x1b, 0x78, 0x52, 0xb8, 0x55,
];

fn fixed_secret(seed: u8) -> Vec<u8> {
    let mut s = vec![0u8; 32];
    s[31] = seed;
    s[0] = 0x11;
    s
}

fn b64url(bytes: &[u8]) -> String {
    data_encoding::BASE64URL_NOPAD.encode(bytes)
}

#[test]
fn multihash_of_empty_message() {
    let h = hash(b"");
    assert_eq!(h.len(), 34);
    assert_eq!(h[0], 0x12);
    assert_eq!(h[1], 0x20);
    assert_eq!(&h[2..], &SHA256_EMPTY[..]);
    let mut expected = vec![0x12u8, 0x20];
    expected.extend_from_slice(&SHA256_EMPTY);
    assert_eq!(hash_encode(b""), b64url(&expected));
}

#[test]
fn multihash_prefix_holds_for_other_messages() {
    for m in [&b"a"[..], &b"hello world"[..], &[0u8; 100][..]] {
        let h = hash(m);
        assert_eq!(h.len(), 34);
        assert_eq!(h[0], 0x12);
        assert_eq!(h[1], 32);
    }
}

#[test]
fn double_hash_encodes_hash_of_digest() {
    let mut expected = vec![0x12u8, 0x20];
    let inner = hash(&SHA256_EMPTY);
    expected.clear();
    expected.extend_from_slice(&inner);
    assert_eq!(double_hash_encode(b""), b64url(&expected));
}

#[test]
fn jws_signs_and_verifies_and_detects_tampering() {
    let pair = K256KeyPair::new(fixed_secret(7));
    let jws = sign("{\"a\":1}", &pair.secret_key).unwrap();
    let parts: Vec<&str> = jws.split('.').collect();
    assert_eq!(parts.len(), 3);
    assert_eq!(parts[1], "");
    assert_eq!(parts[0], b64url(b"{\"alg\":\"ES256K\",\"b64\":false,\"crit\":[\"b64\"]}"));
    assert_eq!(verify("{\"a\":1}", &jws, &pair.public_key), Ok(()));
    assert_eq!(verify("{\"a\":2}", &jws, &pair.public_key), Err(JwsDecodeError::CryptError));
}

#[test]
fn jws_rejects_malformed_texts() {
    let pair = K256KeyPair::new(fixed_secret(7));
    assert_eq!(verify("{}", "a.b", &pair.public_key), Err(JwsDecodeError::InvalidJws));
    let jws = sign("{}", &pair.secret_key).unwrap();
    let parts: Vec<&str> = jws.split('.').collect();
    let with_payload = format!("{}.eA.{}", parts[0], parts[2]);
    assert_eq!(verify("{}", &with_payload, &pair.public_key), Err(JwsDecodeError::EmptyPayload));
    let short = format!("{}..{}", parts[0], b64url(&[1u8; 10]));
    assert_eq!(verify("{}", &short, &pair.public_key), Err(JwsDecodeError::InvalidSignatureLength(10)));
    let other_alg = format!("{}..{}", b64url(b"{\"alg\":\"HS256\",\"b64\":false,\"crit\":[\"b64\"]}"), parts[2]);
    assert_eq!(verify("{}", &other_alg, &pair.public_key), Err(JwsDecodeError::InvalidAlgorithm("HS256".to_string())));
    let b64_true = format!("{}..{}", b64url(b"{\"alg\":\"ES256K\",\"b64\":true,\"crit\":[\"b64\"]}"), parts[2]);
    assert_eq!(verify("{}", &b64_true, &pair.public_key), Err(JwsDecodeError::B64NotSupported));
    let no_crit = format!("{}..{}", b64url(b"{\"alg\":\"ES256K\",\"b64\":false,\"crit\":[]}"), parts[2]);
    assert_eq!(verify("{}", &no_crit, &pair.public_key), Err(JwsDecodeError::B64NotSupportedButContained));
}

#[test]
fn jws_accepts_reordered_header() {
    let pair = K256KeyPair::new(fixed_secret(9));
    let jws = sign("[1,2]", &pair.secret_key).unwrap();
    assert_eq!(verify("[1,2]", &jws, &pair.public_key), Ok(()));
    let other = K256KeyPair::new(fixed_secret(10));
    assert_eq!(verify("[1,2]", &jws, &other.public_key), Err(JwsDecodeError::CryptError));
}

#[test]
fn secp256k1_jwk_round_trip() {
    let pair = K256KeyPair::new(fixed_secret(3));
    let jwk = secp256k1_to_jwk(&pair.public_key).unwrap();
    assert_eq!(jwk.kty, "EC");
    assert_eq!(jwk.crv, "secp256k1");
    assert_eq!(jwk.x, b64url(&pair.public_key.sec1[1..33]));
    assert_eq!(jwk.y, Some(b64url(&pair.public_key.sec1[33..65])));
    let back = jwk_to_secp256k1(&jwk).unwrap();
    assert_eq!(back.sec1, pair.public_key.sec1);
}

#[test]
fn secp256k1_jwk_errors() {
    let pair = K256KeyPair::new(fixed_secret(3));
    let jwk = secp256k1_to_jwk(&pair.public_key).unwrap();
    let mut other_crv = jwk.clone();
    other_crv.crv = "P-256".to_string();
    assert_eq!(jwk_to_secp256k1(&other_crv).unwrap_err(), JwkToK256Error::DifferentCrv);
    let mut no_y = jwk.clone();
    no_y.y = None;
    assert_eq!(jwk_to_secp256k1(&no_y).unwrap_err(), JwkToK256Error::MissingY);
    let mut bad = jwk.clone();
    bad.x = "***".to_string();
    assert_eq!(jwk_to_secp256k1(&bad).unwrap_err(), JwkToK256Error::Decode);
    let mut off_curve = jwk.clone();
    off_curve.y = Some(b64url(&[0u8; 32]));
    assert_eq!(jwk_to_secp256k1(&off_curve).unwrap_err(), JwkToK256Error::Crypt);
}

#[test]
fn x25519_jwk_round_trip_and_errors() {
    let pair = X25519KeyPair::new(vec![5u8; 32]);
    let jwk = x25519_to_jwk(&pair.public_key);
    assert_eq!(jwk.kty, "OKP");
    assert_eq!(jwk.crv, "X25519");
    assert_eq!(jwk.y, None);
    assert_eq!(jwk_to_x25519(&jwk).unwrap().bytes, pair.public_key.bytes);
    let wrong = Jwk { kty: "OKP".to_string(), crv: "Ed25519".to_string(), x: jwk.x.clone(), y: None };
    assert_eq!(jwk_to_x25519(&wrong).unwrap_err(), JwkToX25519Error::DifferentCrv);
    let short = Jwk { kty: "OKP".to_string(), crv: "X25519".to_string(), x: b64url(&[1u8; 31]), y: None };
    assert_eq!(jwk_to_x25519(&short).unwrap_err(), JwkToX25519Error::Decode);
}

#[test]
fn key_pairs_round_trip_through_hex() {
    let pair = K256KeyPair::new(fixed_secret(4));
    let hex = pair.to_hex_key_pair();
    assert_eq!(hex.secret_key, hex::encode(&pair.secret_key));
    assert_eq!(hex.public_key.len(), 130);
    let back = K256KeyPair::from_hex_key_pair(&hex).unwrap();
    assert_eq!(back.secret_key, pair.secret_key);
    assert_eq!(back.public_key.sec1, pair.public_key.sec1);
    let bad = KeyPairHex { public_key: "zz".to_string(), secret_key: hex.secret_key.clone() };
    assert!(K256KeyPair::from_hex_key_pair(&bad).is_err());
    let x = X25519KeyPair::new(vec![9u8; 32]);
    let xb = X25519KeyPair::from_hex_key_pair(&x.to_hex_key_pair()).unwrap();
    assert_eq!(xb.public_key.bytes, x.public_key.bytes);
    let ring = KeyPairing::create_keyring();
    assert_ne!(ring.sign.secret_key, ring.update.secret_key);
}

#[test]
fn create_payload_has_three_fields_in_canonical_order() {
    let update = K256KeyPair::new(fixed_secret(1));
    let recovery = K256KeyPair::new(fixed_secret(2));
    let patch = DidPatchDocument { public_keys: vec![], service_endpoints: vec![] };
    let payload = did_create_payload(patch, &update.public_key, &recovery.public_key).unwrap();
    assert!(payload.starts_with("{\"delta\":\""));
    assert!(payload.ends_with("\",\"type\":\"create\"}"));
    let v: serde_json::Value = serde_json::from_str(&payload).unwrap();
    let obj = v.as_object().unwrap();
    assert_eq!(obj.len(), 3);
    let delta = data_encoding::BASE64_NOPAD.decode(obj["delta"].as_str().unwrap().as_bytes()).unwrap();
    let suffix = data_encoding::BASE64_NOPAD.decode(obj["suffix_data"].as_str().unwrap().as_bytes()).unwrap();
    let update_jwk = secp256k1_to_jwk(&update.public_key).unwrap();
    let recovery_jwk = secp256k1_to_jwk(&recovery.public_key).unwrap();
    let expected_delta = format!(
        "{{\"patches\":[{{\"action\":\"replace\",\"document\":{{\"public_keys\":[],\"service_endpoints\":[]}}}}],\"update_commitment\":\"{}\"}}",
        commitment_scheme(&update_jwk)
    );
    assert_eq!(String::from_utf8(delta.clone()).unwrap(), expected_delta);
    let expected_suffix = format!(
        "{{\"delta_hash\":\"{}\",\"recovery_commitment\":\"{}\"}}",
        hash_encode(&delta),
        commitment_scheme(&recovery_jwk)
    );
    assert_eq!(String::from_utf8(suffix).unwrap(), expected_suffix);
}

#[test]
fn commitment_hashes_canonical_jwk_twice() {
    let pair = K256KeyPair::new(fixed_secret(1));
    let jwk = secp256k1_to_jwk(&pair.public_key).unwrap();
    let canonical = format!(
        "{{\"crv\":\"secp256k1\",\"kty\":\"EC\",\"x\":\"{}\",\"y\":\"{}\"}}",
        jwk.x,
        jwk.y.clone().unwrap()
    );
    assert_eq!(commitment_scheme(&jwk), double_hash_encode(canonical.as_bytes()));
    let same = jwk.clone();
    assert_eq!(commitment_scheme(&jwk), commitment_scheme(&same));
    let other = secp256k1_to_jwk(&K256KeyPair::new(fixed_secret(2)).public_key).unwrap();
    assert_ne!(commitment_scheme(&jwk), commitment_scheme(&other));
}

#[test]
fn signing_needs_a_secret_scalar() {
    assert_eq!(sign("{}", &[0u8; 32]), Err(miax::jws::JwsEncodeError::SignatureError));
    assert_eq!(sign("{}", &[1u8; 31]), Err(miax::jws::JwsEncodeError::SignatureError));
    assert!(K256KeyPair::from_secret(vec![0u8; 32]).is_none());
    let pair = K256KeyPair::from_secret(fixed_secret(8)).unwrap();
    assert_eq!(pair.secret_key, fixed_secret(8));
}

#[test]
fn public_keys_become_patch_entries() {
    let pair = K256KeyPair::new(fixed_secret(3));
    let entry = pair.public_key.clone().to_public_key("EcdsaSecp256k1VerificationKey2019".to_string(), "signingKey".to_string(), vec!["auth".to_string()]).unwrap();
    assert_eq!(entry.id, "signingKey");
    assert_eq!(entry.jwk.crv, "secp256k1");
    let x = X25519KeyPair::new(vec![4u8; 32]);
    let enc = x.public_key.clone().to_public_key("X25519KeyAgreementKey2019".to_string(), "encryptionKey".to_string(), vec![]).unwrap();
    assert_eq!(enc.jwk.kty, "OKP");
    let compressed = Secp256k1PublicKey { sec1: vec![2u8; 33] };
    assert_eq!(secp256k1_to_jwk(&compressed).unwrap_err(), K256ToJwkError::PointsInvalid);
}

#[test]
fn jws_header_segment_is_the_canonical_one() {
    let pair = K256KeyPair::new(fixed_secret(7));
    let jws = sign("{\"a\":1}", &pair.secret_key).unwrap();
    assert!(jws.starts_with("eyJhbGciOiJFUzI1NksiLCJiNjQiOmZhbHNlLCJjcml0IjpbImI2NCJdfQ.."));
    assert_eq!(double_hash_encode(b"abc").len(), 46);
    assert_eq!(pair.to_hex_key_pair().secret_key.len(), 64);
}

#[test]
fn hex_encoding_is_lowercase_pairs() {
    assert_eq!(miax::keypair::encode_hex(&[0x00, 0xab, 0x7f, 0xff]), "00ab7fff");
    assert_eq!(miax::keypair::encode_hex(&[]), "");
}

#[test]
fn secret_scalars_are_below_the_order() {
    let order = hex::decode("fffffffffffffffffffffffffffffffebaaedce6af48a03bbfd25e8cd0364141").unwrap();
    assert!(K256KeyPair::from_secret(order.clone()).is_none());
    let mut below = order.clone();
    below[31] = 0x40;
    assert!(K256KeyPair::from_secret(below).is_some());
    let mut one = vec![0u8; 32];
    one[31] = 1;
    assert!(K256KeyPair::from_secret(one).is_some());
}
