use miax::agent::MiaXErrorCode;
use miax::config::{server_config, ConfigRoot, KeyPairsConfig, KeyStoreError, ServerConfig};
use miax::credentials::{CredentialSigner, CredentialSignerVerifyError, CredentialSubject, Issuer, VerifiableCredentials};
use miax::didcomm::{DidCommMessage, FindSenderError};
use miax::json::{parse_json, JsonValue};
use miax::jwk::secp256k1_to_jwk;
use miax::keypair::{K256KeyPair, KeyPairing};
use miax::repository::{create_identifier_outcome, create_identifier_payload, find_identifier_outcome, get_encrypt_key, get_sign_key, CreateIdentifierError, FindIdentifierError, GetPublicKeyError};

fn fixed_secret(seed: u8) -> Vec<u8> {
    let mut s = vec![0u8; 32];
    s[31] = seed;
    s[0] = 0x22;
    s
}

fn b64url(bytes: &[u8]) -> String {
    data_encoding::BASE64URL_NOPAD.encode(bytes)
}

fn credential(issuer: &str) -> VerifiableCredentials {
    VerifiableCredentials {
        id: None,
        issuer: Issuer { id: issuer.to_string() },
        issuance_date: "2024-01-01T00:00:00Z".to_string(),
        expiration_date: None,
        context: vec!["https://www.w3.org/2018/credentials/v1".to_string()],
        credential_type: vec!["VerifiableCredential".to_string()],
        credential_subject: CredentialSubject { id: None, container: parse_json("{\"k\":\"v\"}").unwrap() },
        proof: None,
    }
}

#[test]
fn server_config_defaults_endpoint() {
    assert_eq!(server_config(None).did_http_endpoint(), "https://did.miacross.io");
    assert_eq!(ServerConfig::new(Some("http://node".to_string())).did_http_endpoint(), "http://node");
}

#[test]
fn config_root_defaults_and_identity() {
    let mut c = ConfigRoot::new(None, None);
    assert_eq!(c.did.as_deref(), Some("did:example:dummy"));
    assert_eq!(c.didcomm.http_body_size_limit, 3 * 1024 * 1024);
    assert_eq!(c.schema_version, 1);
    assert!(!c.is_initialized);
    assert_eq!(c.key_pairs.load_keyring().unwrap_err(), KeyStoreError::KeyNotFound);
    let ring = KeyPairing::create_keyring();
    c.save_identity(&ring, "did:miax:abc");
    assert!(c.is_initialized);
    assert_eq!(c.get_identifier().unwrap(), "did:miax:abc");
    let loaded = c.key_pairs.load_keyring().unwrap();
    assert_eq!(loaded.sign.secret_key, ring.sign.secret_key);
    assert_eq!(loaded.update.secret_key, ring.update.secret_key);
    assert_eq!(loaded.recovery.secret_key, ring.recovery.secret_key);
    assert_eq!(loaded.encrypt.secret_key, ring.encrypt.secret_key);
    let mut partial = KeyPairsConfig::from_keyring(&ring);
    partial.recovery = None;
    assert_eq!(partial.load_keyring().unwrap_err(), KeyStoreError::KeyNotFound);
    c.did = None;
    assert_eq!(c.get_identifier(), Err(KeyStoreError::DidNotFound));
}

#[test]
fn error_code_maps_to_internal_error() {
    assert_eq!(MiaXErrorCode::CreateIdentifierInternal.code(), 5004);
    assert_eq!(MiaXErrorCode::CreateIdentifierInternal.status_code(), 500);
}

fn document_body(ring: &KeyPairing) -> String {
    let sign = secp256k1_to_jwk(&ring.sign.public_key).unwrap();
    format!(
        "{{\"did_document\":{{\"id\":\"did:miax:a\",\"publicKey\":[{{\"id\":\"#signingKey\",\"controller\":\"\",\"type\":\"EcdsaSecp256k1VerificationKey2019\",\"publicKeyJwk\":{{\"kty\":\"EC\",\"crv\":\"secp256k1\",\"x\":\"{}\",\"y\":\"{}\"}}}},{{\"id\":\"#encryptionKey\",\"controller\":\"\",\"type\":\"X25519KeyAgreementKey2019\",\"publicKeyJwk\":{{\"kty\":\"OKP\",\"crv\":\"X25519\",\"x\":\"{}\"}}}}],\"authentication\":[]}}}}",
        sign.x,
        sign.y.unwrap(),
        b64url(&ring.encrypt.public_key.bytes)
    )
}

#[test]
fn resolve_outcomes_follow_status() {
    assert!(matches!(find_identifier_outcome(404, "{}"), Ok(None)));
    let ring = KeyPairing::create_keyring();
    let found = find_identifier_outcome(200, &document_body(&ring)).unwrap().unwrap();
    assert_eq!(found.did_document.id, "did:miax:a");
    assert_eq!(get_sign_key(&found.did_document).unwrap().sec1, ring.sign.public_key.sec1);
    assert_eq!(get_encrypt_key(&found.did_document).unwrap().bytes, ring.encrypt.public_key.bytes);
    assert_eq!(find_identifier_outcome(200, "not json").unwrap_err(), FindIdentifierError::BodyParse);
    assert_eq!(
        find_identifier_outcome(500, "oops").unwrap_err(),
        FindIdentifierError::SidetreeRequestFailed { status: 500, body: "oops".to_string() }
    );
}

#[test]
fn create_outcomes_follow_status() {
    let ring = KeyPairing::create_keyring();
    assert!(create_identifier_outcome(201, &document_body(&ring)).is_ok());
    assert_eq!(
        create_identifier_outcome(400, "bad").unwrap_err(),
        CreateIdentifierError::SidetreeRequestFailed { status: 400, body: "bad".to_string() }
    );
}

#[test]
fn missing_key_is_reported_with_did() {
    let ring = KeyPairing::create_keyring();
    let body = document_body(&ring).replace("#signingKey", "#other");
    let doc = find_identifier_outcome(200, &body).unwrap().unwrap().did_document;
    assert_eq!(get_sign_key(&doc).unwrap_err(), GetPublicKeyError::PublicKeyNotFound("did:miax:a".to_string()));
}

#[test]
fn create_request_carries_both_public_keys() {
    let ring = KeyPairing::create_keyring();
    let payload = create_identifier_payload(&ring).unwrap();
    let v: serde_json::Value = serde_json::from_str(&payload).unwrap();
    let delta = data_encoding::BASE64_NOPAD.decode(v["delta"].as_str().unwrap().as_bytes()).unwrap();
    let delta: serde_json::Value = serde_json::from_slice(&delta).unwrap();
    let keys = &delta["patches"][0]["document"]["public_keys"];
    assert_eq!(keys[0]["id"], "signingKey");
    assert_eq!(keys[0]["type"], "EcdsaSecp256k1VerificationKey2019");
    assert_eq!(keys[1]["id"], "encryptionKey");
    assert_eq!(keys[1]["jwk"]["crv"], "X25519");
    assert_eq!(keys[1]["purpose"][0], "auth");
    assert_eq!(keys[1]["purpose"][1], "general");
}

#[test]
fn sender_comes_from_protected_header() {
    let msg = |protected: String| DidCommMessage {
        ciphertext: String::new(),
        iv: String::new(),
        protected,
        recipients: vec![],
        tag: String::new(),
    };
    assert_eq!(msg(b64url(b"{\"skid\":\"did:miax:a\",\"typ\":\"x\"}")).find_sender().unwrap(), "did:miax:a");
    assert_eq!(msg(b64url(b"{\"typ\":\"x\"}")).find_sender(), Err(FindSenderError::Skid));
    assert_eq!(msg(b64url(b"{\"skid\":1}")).find_sender(), Err(FindSenderError::Skid));
    assert_eq!(msg("***".to_string()).find_sender(), Err(FindSenderError::Decode));
    assert_eq!(msg(b64url(&[0xff, 0xfe])).find_sender(), Err(FindSenderError::FromUtf8));
    assert_eq!(msg(b64url(b"{oops")).find_sender(), Err(FindSenderError::Json));
}

#[test]
fn credential_sign_then_verify() {
    let pair = K256KeyPair::new(fixed_secret(5));
    let signed = CredentialSigner::sign(credential("did:miax:a"), "did:miax:a", "signingKey", &pair).unwrap();
    let proof = signed.proof.clone().unwrap();
    assert_eq!(proof.created, "2024-01-01T00:00:00Z");
    assert_eq!(proof.verification_method, "did:miax:a#signingKey");
    assert_eq!(proof.proof_type, "EcdsaSecp256k1Signature2019");
    assert_eq!(proof.proof_purpose, "authentication");
    let verified = CredentialSigner::verify(signed, &pair.public_key).unwrap();
    assert!(verified.proof.is_none());
    assert_eq!(verified.issuer.id, "did:miax:a");
    assert!(matches!(&verified.credential_subject.container, JsonValue::Object(f) if f.len() == 1));
}

#[test]
fn credential_verify_needs_proof_and_right_key() {
    let pair = K256KeyPair::new(fixed_secret(5));
    assert_eq!(
        CredentialSigner::verify(credential("did:miax:a"), &pair.public_key).unwrap_err(),
        CredentialSignerVerifyError::ProofNotFound
    );
    let signed = CredentialSigner::sign(credential("did:miax:a"), "did:miax:a", "signingKey", &pair).unwrap();
    let other = K256KeyPair::new(fixed_secret(6));
    assert!(CredentialSigner::verify(signed, &other.public_key).is_err());
}
