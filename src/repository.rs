//! The DID repository's own logic: requests it sends to a Sidetree node,
//! how it reads the node's answers, and key lookup in DID documents.
use vstd::prelude::*;
use crate::json::{JsonValue, JsonView, get, get_spec, json_parse_of, parse_json, str_spec, view_of};
use crate::jwk::{
    Jwk, JwkToK256Error, JwkToX25519Error, Secp256k1PublicKey, X25519PublicKey, jwk_to_secp256k1,
    jwk_to_x25519, secp256k1_to_jwk, x25519_to_jwk, is_secp256k1_jwk_of, is_x25519_jwk_of,
    is_uncompressed_point,
};
use crate::keypair::KeyPairing;
use crate::payload::{
    DidCreatePayloadError, DidDocument, DidPatchDocument, DidPublicKey, MiaxDidResponse,
    PublicKeyPayload, create_payload_text, did_create_payload,
};
use crate::jws::all_strings;
use crate::text::same_text;

verus! {

/// Failures of finding a key in a DID document.
#[derive(Debug, Clone, PartialEq, Eq)]
pub enum GetPublicKeyError {
    PublicKeyNotFound(String),
    JwkToK256(JwkToK256Error),
    JwkToX25519(JwkToX25519Error),
}

/// Failures of creating an identifier.
#[derive(Debug, Clone, PartialEq, Eq)]
pub enum CreateIdentifierError {
    Jwk,
    PayloadBuildFailed,
    BodyParse,
    SidetreeRequestFailed { status: u16, body: String },
}

/// Failures of resolving an identifier.
#[derive(Debug, Clone, PartialEq, Eq)]
pub enum FindIdentifierError {
    SidetreeRequestFailed { status: u16, body: String },
    BodyParse,
}

/// Index of the first key of the document with id `key_id`, if any.
pub open spec fn key_index(keys: Seq<DidPublicKey>, key_id: Seq<char>) -> Option<int> {
    if exists|i: int| 0 <= i < keys.len() && keys[i].id@ == key_id {
        Some(
            choose|i: int|
                0 <= i < keys.len() && keys[i].id@ == key_id && forall|k: int|
                    0 <= k < i ==> keys[k].id@ != key_id,
        )
    } else {
        None
    }
}

/// The JWK of the first key of `did_document` with id `key_type`.
pub fn get_key<'a>(key_type: &str, did_document: &'a DidDocument) -> (r: Result<
    &'a Jwk,
    GetPublicKeyError,
>)
    ensures
        r matches Ok(j) ==> (did_document.public_key matches Some(keys) && key_index(
            keys@,
            key_type@,
        ) matches Some(i) && *j == keys@[i].public_key_jwk),
        r matches Err(e) ==> (e matches GetPublicKeyError::PublicKeyNotFound(d) && d@
            == did_document.id@ && (did_document.public_key matches Some(keys) ==> key_index(
            keys@,
            key_type@,
        ) is None)),
{
    match &did_document.public_key {
        Some(keys) => {
            let mut i: usize = 0;
            while i < keys.len()
                invariant
                    i <= keys@.len(),
                    did_document.public_key == Some(*keys),
                    forall|k: int| 0 <= k < i ==> keys@[k].id@ != key_type@,
                decreases keys@.len() - i,
            {
                if same_text(keys[i].id.as_str(), key_type) {
                    proof {
                        assert(0 <= i < keys@.len() && keys@[i as int].id@ == key_type@
                            && forall|k: int| 0 <= k < i ==> keys@[k].id@ != key_type@);
                        assert(key_index(keys@, key_type@) is Some);
                        let j = key_index(keys@, key_type@)->Some_0;
                        assert(j == i as int) by {
                            if j < i {
                            } else if j > i {
                            }
                        }
                    }
                    return Ok(&keys[i].public_key_jwk);
                }
                i += 1;
            }
            Err(GetPublicKeyError::PublicKeyNotFound(did_document.id.clone()))
        },
        None => Err(GetPublicKeyError::PublicKeyNotFound(did_document.id.clone())),
    }
}

/// The X25519 key of a document: its `#encryptionKey` entry.
pub fn get_encrypt_key(did_document: &DidDocument) -> (r: Result<X25519PublicKey, GetPublicKeyError>)
    ensures
        r matches Ok(pk) ==> (did_document.public_key matches Some(keys) && key_index(
            keys@,
            "#encryptionKey"@,
        ) matches Some(i) && pk.wf() && keys@[i].public_key_jwk.x@ == crate::multihash::base64url_of(
            pk.bytes@,
        )),
        (did_document.public_key matches Some(keys) ==> key_index(keys@, "#encryptionKey"@) is None)
            ==> (r matches Err(GetPublicKeyError::PublicKeyNotFound(d)) && d@ == did_document.id@),
        did_document.public_key matches Some(keys) ==> (key_index(keys@, "#encryptionKey"@) matches Some(
            i,
        ) ==> forall|k: Seq<u8>|
            k.len() == 32 && #[trigger] is_x25519_jwk_of(keys@[i].public_key_jwk, k) ==> (r matches Ok(
                pk,
            ) && pk.bytes@ == k)),
{
    let jwk = match get_key("#encryptionKey", did_document) {
        Ok(j) => j,
        Err(e) => return Err(e),
    };
    match jwk_to_x25519(jwk) {
        Ok(pk) => Ok(pk),
        Err(e) => Err(GetPublicKeyError::JwkToX25519(e)),
    }
}

/// The secp256k1 key of a document: its `#signingKey` entry.
pub fn get_sign_key(did_document: &DidDocument) -> (r: Result<Secp256k1PublicKey, GetPublicKeyError>)
    ensures
        r matches Ok(pk) ==> (did_document.public_key matches Some(keys) && key_index(
            keys@,
            "#signingKey"@,
        ) matches Some(i) && pk.wf() && keys@[i].public_key_jwk.x@ == crate::multihash::base64url_of(
            pk.sec1@.subrange(1, 33),
        )),
        (did_document.public_key matches Some(keys) ==> key_index(keys@, "#signingKey"@) is None)
            ==> (r matches Err(GetPublicKeyError::PublicKeyNotFound(d)) && d@ == did_document.id@),
        did_document.public_key matches Some(keys) ==> (key_index(keys@, "#signingKey"@) matches Some(
            i,
        ) ==> forall|p: Seq<u8>|
            is_uncompressed_point(p) && #[trigger] is_secp256k1_jwk_of(keys@[i].public_key_jwk, p) ==> (
            r matches Ok(pk) && pk.sec1@ == p)),
{
    let jwk = match get_key("#signingKey", did_document) {
        Ok(j) => j,
        Err(e) => return Err(e),
    };
    match jwk_to_secp256k1(jwk) {
        Ok(pk) => Ok(pk),
        Err(e) => Err(GetPublicKeyError::JwkToK256(e)),
    }
}

/// A text member of a JSON object, copied.
fn text_member(v: &JsonValue, name: &str) -> (r: Option<String>)
    ensures
        r matches Some(s) ==> str_spec(get_spec(view_of(*v), name@)) == Some(s@),
        r is None ==> str_spec(get_spec(view_of(*v), name@)) is None,
{
    match get(v, name) {
        Some(JsonValue::Str(s)) => Some(s.clone()),
        _ => None,
    }
}

/// `j` holds the JWK members of the JSON object `v`.
pub open spec fn is_jwk_json(j: Jwk, v: JsonView) -> bool {
    &&& str_spec(get_spec(v, "kty"@)) == Some(j.kty@)
    &&& str_spec(get_spec(v, "crv"@)) == Some(j.crv@)
    &&& str_spec(get_spec(v, "x"@)) == Some(j.x@)
    &&& match j.y {
        Some(y) => str_spec(get_spec(v, "y"@)) == Some(y@),
        None => get_spec(v, "y"@) is None || get_spec(v, "y"@) == Some(JsonView::Null),
    }
}

/// A member that is absent, null or a text.
pub open spec fn optional_text_member(v: JsonView, name: Seq<char>) -> bool {
    get_spec(v, name) is None || get_spec(v, name) == Some(JsonView::Null) || str_spec(
        get_spec(v, name),
    ) is Some
}

/// The JSON that a JWK is read from: texts `kty`, `crv`, `x`, and `y`
/// absent, null or a text.
pub open spec fn jwk_shape(v: JsonView) -> bool {
    &&& str_spec(get_spec(v, "kty"@)) is Some
    &&& str_spec(get_spec(v, "crv"@)) is Some
    &&& str_spec(get_spec(v, "x"@)) is Some
    &&& optional_text_member(v, "y"@)
}

/// Reads a JWK object; `y` may be absent or null.
pub fn jwk_from_json(v: &JsonValue) -> (r: Option<Jwk>)
    ensures
        r is Some <==> jwk_shape(view_of(*v)),
        r matches Some(j) ==> is_jwk_json(j, view_of(*v)),
{
    let kty = text_member(v, "kty")?;
    let crv = text_member(v, "crv")?;
    let x = text_member(v, "x")?;
    let member = get(v, "y");
    let y = match member {
        None => None,
        Some(JsonValue::Null) => None,
        Some(JsonValue::Str(s)) => Some(s.clone()),
        Some(_) => {
            proof {
                crate::json::lemma_view_of_kind(*member->Some_0);
            }
            return None;
        },
    };
    proof {
        if member is Some {
            crate::json::lemma_view_of_kind(*member->Some_0);
        }
    }
    Some(Jwk { kty, crv, x, y })
}

/// `k` holds the members of the JSON key entry `v`.
pub open spec fn is_public_key_json(k: DidPublicKey, v: JsonView) -> bool {
    &&& str_spec(get_spec(v, "id"@)) == Some(k.id@)
    &&& str_spec(get_spec(v, "controller"@)) == Some(k.controller@)
    &&& str_spec(get_spec(v, "type"@)) == Some(k.key_type@)
    &&& get_spec(v, "publicKeyJwk"@) matches Some(j) && is_jwk_json(k.public_key_jwk, j)
}

/// The JSON that a key entry is read from.
pub open spec fn public_key_shape(v: JsonView) -> bool {
    &&& str_spec(get_spec(v, "id"@)) is Some
    &&& str_spec(get_spec(v, "controller"@)) is Some
    &&& str_spec(get_spec(v, "type"@)) is Some
    &&& get_spec(v, "publicKeyJwk"@) matches Some(j) && jwk_shape(j)
}

/// Reads a key entry of a DID document.
pub fn public_key_from_json(v: &JsonValue) -> (r: Option<DidPublicKey>)
    ensures
        r is Some <==> public_key_shape(view_of(*v)),
        r matches Some(k) ==> is_public_key_json(k, view_of(*v)),
{
    let id = text_member(v, "id")?;
    let controller = text_member(v, "controller")?;
    let key_type = text_member(v, "type")?;
    let public_key_jwk = match get(v, "publicKeyJwk") {
        Some(j) => jwk_from_json(j)?,
        None => return None,
    };
    Some(DidPublicKey { id, controller, key_type, public_key_jwk })
}

/// `d` holds the members of the JSON document `v`: its `id` and, when the
/// member is there, each entry of `publicKey` in order.
pub open spec fn is_document_json(d: DidDocument, v: JsonView) -> bool {
    &&& str_spec(get_spec(v, "id"@)) == Some(d.id@)
    &&& match d.public_key {
        Some(keys) => get_spec(v, "publicKey"@) matches Some(JsonView::Array(items)) && items.len()
            == keys@.len() && forall|i: int|
            0 <= i < keys@.len() ==> is_public_key_json(#[trigger] keys@[i], items[i]),
        None => get_spec(v, "publicKey"@) is None || get_spec(v, "publicKey"@) == Some(
            JsonView::Null,
        ),
    }
    &&& authentication_is(d.authentication, get_spec(v, "authentication"@))
}

/// The read `authentication`: the texts of an array member, none otherwise.
pub open spec fn authentication_is(a: Option<Vec<String>>, m: Option<JsonView>) -> bool {
    match m {
        Some(JsonView::Array(items)) => a matches Some(xs) && items.len() == xs@.len() && forall|k: int|
            0 <= k < items.len() ==> #[trigger] items[k] == JsonView::Str(xs@[k]@),
        _ => a is None,
    }
}

/// The JSON that a DID document is read from: a text `id`; `publicKey`
/// absent, null or an array of key entries; `authentication`, when an
/// array, of texts only.
pub open spec fn document_shape(v: JsonView) -> bool {
    &&& str_spec(get_spec(v, "id"@)) is Some
    &&& keys_shape(get_spec(v, "publicKey"@))
    &&& authentication_shape(get_spec(v, "authentication"@))
}

/// The `publicKey` member: absent, null, or an array of key entries.
pub open spec fn keys_shape(m: Option<JsonView>) -> bool {
    match m {
        None => true,
        Some(JsonView::Null) => true,
        Some(JsonView::Array(items)) => forall|k: int|
            0 <= k < items.len() ==> public_key_shape(#[trigger] items[k]),
        _ => false,
    }
}

proof fn lemma_keys_shape_item(iv: Seq<JsonView>, i: int)
    requires
        0 <= i < iv.len(),
        keys_shape(Some(JsonView::Array(iv))),
    ensures
        public_key_shape(iv[i]),
{
    let m = Some(JsonView::Array(iv));
    assert(m->Some_0 is Array);
    assert(m->Some_0->Array_0 == iv);
    assert(keys_shape(m) == (forall|k: int| 0 <= k < iv.len() ==> public_key_shape(#[trigger] iv[k])));
}

/// The `authentication` member: when an array, of texts only.
pub open spec fn authentication_shape(m: Option<JsonView>) -> bool {
    match m {
        Some(JsonView::Array(items)) => all_strings(items),
        _ => true,
    }
}

/// Reads a DID document object.
pub fn document_from_json(v: &JsonValue) -> (r: Option<DidDocument>)
    ensures
        r is Some <==> document_shape(view_of(*v)),
        r matches Some(d) ==> is_document_json(d, view_of(*v)),
{
    let id = text_member(v, "id")?;
    let listed = get(v, "publicKey");
    let public_key = match listed {
        None => None,
        Some(JsonValue::Null) => None,
        Some(JsonValue::Array(items)) => {
            proof {
                crate::json::lemma_view_of_array(*items);
            }
            let ghost iv = crate::json::items_view(items@);
            assert(get_spec(view_of(*v), "publicKey"@) == Some(JsonView::Array(iv)));
            let mut keys: Vec<DidPublicKey> = Vec::new();
            let mut i: usize = 0;
            while i < items.len()
                invariant
                    i <= items@.len(),
                    keys@.len() == i,
                    iv.len() == items@.len(),
                    get_spec(view_of(*v), "publicKey"@) == Some(JsonView::Array(iv)),
                    forall|k: int| 0 <= k < items@.len() ==> #[trigger] iv[k] == view_of(items@[k]),
                    forall|k: int| 0 <= k < i ==> is_public_key_json(#[trigger] keys@[k], iv[k]),
                    forall|k: int| 0 <= k < i ==> public_key_shape(#[trigger] iv[k]),
                decreases items@.len() - i,
            {
                let key = match public_key_from_json(&items[i]) {
                    Some(k) => k,
                    None => {
                        assert(!public_key_shape(iv[i as int]));
                        assert(i < iv.len());
                        proof {
                            if keys_shape(Some(JsonView::Array(iv))) {
                                lemma_keys_shape_item(iv, i as int);
                            }
                        }
                        assert(!keys_shape(get_spec(view_of(*v), "publicKey"@)));
                        return None;
                    },
                };
                keys.push(key);
                i += 1;
            }
            Some(keys)
        },
        Some(_) => {
            proof {
                crate::json::lemma_view_of_kind(*listed->Some_0);
            }
            return None;
        },
    };
    proof {
        if listed is Some {
            crate::json::lemma_view_of_kind(*listed->Some_0);
        }
    }
    let auth = get(v, "authentication");
    let authentication = match auth {
        Some(JsonValue::Array(items)) => {
            proof {
                crate::json::lemma_view_of_array(*items);
            }
            let ghost iv = crate::json::items_view(items@);
            let mut out: Vec<String> = Vec::new();
            let mut i: usize = 0;
            while i < items.len()
                invariant
                    i <= items@.len(),
                    iv == crate::json::items_view(items@),
                    get_spec(view_of(*v), "authentication"@) == Some(JsonView::Array(iv)),
                    forall|k: int| 0 <= k < i ==> #[trigger] iv[k] is Str,
                    out@.len() == i,
                    forall|k: int| 0 <= k < i ==> iv[k] == JsonView::Str(#[trigger] out@[k]@),
                decreases items@.len() - i,
            {
                proof {
                    crate::json::lemma_view_of_kind(items@[i as int]);
                }
                match &items[i] {
                    JsonValue::Str(s) => {
                        let c = s.clone();
                        out.push(c);
                    },
                    _ => {
                        assert(!(iv[i as int] is Str));
                        return None;
                    },
                }
                i += 1;
            }
            Some(out)
        },
        _ => {
            proof {
                if auth is Some {
                    crate::json::lemma_view_of_kind(*auth->Some_0);
                }
            }
            None
        },
    };
    Some(DidDocument { id, public_key, authentication })
}

/// A node answer the repository accepts: JSON with a `did_document` member
/// that is a DID document.
pub open spec fn did_response_shape(body: Seq<char>) -> bool {
    json_parse_of(body) matches Some(v) && (get_spec(v, "did_document"@) matches Some(d)
        && document_shape(d))
}

/// Reads a node answer `{"did_document": {...}}`.
pub fn parse_did_response(body: &str) -> (r: Option<MiaxDidResponse>)
    ensures
        r is Some <==> did_response_shape(body@),
        r matches Some(resp) ==> (json_parse_of(body@) matches Some(v) && get_spec(
            v,
            "did_document"@,
        ) matches Some(d) && is_document_json(resp.did_document, d)),
{
    let v = parse_json(body)?;
    assert(json_parse_of(body@) == Some(view_of(v)));
    let d = match get(&v, "did_document") {
        Some(d) => d,
        None => return None,
    };
    let did_document = document_from_json(d)?;
    Some(MiaxDidResponse { did_document })
}

/// What a resolve answer means: `200` the document, `404` no such
/// identifier, any other status a failed request.
pub fn find_identifier_outcome(status: u16, body: &str) -> (r: Result<
    Option<MiaxDidResponse>,
    FindIdentifierError,
>)
    ensures
        status == 404 ==> r matches Ok(None),
        status == 200 ==> (r matches Ok(Some(resp)) ==> (json_parse_of(body@) matches Some(v)
            && get_spec(v, "did_document"@) matches Some(d) && is_document_json(
            resp.did_document,
            d,
        ))),
        status == 200 ==> (r is Ok || r == Err::<Option<MiaxDidResponse>, FindIdentifierError>(
            FindIdentifierError::BodyParse)),
        status == 200 ==> !(r matches Ok(None)),
        status == 200 ==> (r is Ok <==> did_response_shape(body@)),
        status != 200 && status != 404 ==> (r matches Err(
            FindIdentifierError::SidetreeRequestFailed { status: s, body: b },
        ) && s == status && b@ == body@),
{
    if status == 200 {
        match parse_did_response(body) {
            Some(resp) => Ok(Some(resp)),
            None => Err(FindIdentifierError::BodyParse),
        }
    } else if status == 404 {
        Ok(None)
    } else {
        Err(
            FindIdentifierError::SidetreeRequestFailed {
                status,
                body: String::from_str(body),
            },
        )
    }
}

/// What a create answer means: any `2xx` status carries the new document,
/// any other status is a failed request.
pub fn create_identifier_outcome(status: u16, body: &str) -> (r: Result<
    MiaxDidResponse,
    CreateIdentifierError,
>)
    ensures
        200 <= status < 300 ==> (r matches Ok(resp) ==> (json_parse_of(body@) matches Some(v)
            && get_spec(v, "did_document"@) matches Some(d) && is_document_json(
            resp.did_document,
            d,
        ))),
        200 <= status < 300 ==> (r is Ok || r == Err::<MiaxDidResponse, CreateIdentifierError>(
            CreateIdentifierError::BodyParse)),
        200 <= status < 300 ==> (r is Ok <==> did_response_shape(body@)),
        !(200 <= status < 300) ==> (r matches Err(
            CreateIdentifierError::SidetreeRequestFailed { status: s, body: b },
        ) && s == status && b@ == body@),
{
    if 200 <= status && status < 300 {
        match parse_did_response(body) {
            Some(resp) => Ok(resp),
            None => Err(CreateIdentifierError::BodyParse),
        }
    } else {
        Err(
            CreateIdentifierError::SidetreeRequestFailed {
                status,
                body: String::from_str(body),
            },
        )
    }
}

/// Whether every entry of `purpose` is `auth` then `general`.
pub open spec fn is_auth_general(p: Seq<String>) -> bool {
    p.len() == 2 && p[0]@ == "auth"@ && p[1]@ == "general"@
}

/// The patch of a fresh identifier: its signing key then its encryption key,
/// both for `auth` and `general`, and no service endpoints.
pub open spec fn is_fresh_patch(d: DidPatchDocument, keyring: KeyPairing) -> bool {
    &&& d.public_keys@.len() == 2
    &&& d.service_endpoints@.len() == 0
    &&& d.public_keys@[0].id@ == "signingKey"@
    &&& d.public_keys@[0].key_type@ == "EcdsaSecp256k1VerificationKey2019"@
    &&& is_secp256k1_jwk_of(d.public_keys@[0].jwk, keyring.sign.public_key.sec1@)
    &&& is_auth_general(d.public_keys@[0].purpose@)
    &&& d.public_keys@[1].id@ == "encryptionKey"@
    &&& d.public_keys@[1].key_type@ == "X25519KeyAgreementKey2019"@
    &&& is_x25519_jwk_of(d.public_keys@[1].jwk, keyring.encrypt.public_key.bytes@)
    &&& is_auth_general(d.public_keys@[1].purpose@)
}

fn auth_general() -> (r: Vec<String>)
    ensures
        is_auth_general(r@),
{
    let mut v: Vec<String> = Vec::new();
    v.push(String::from_str("auth"));
    v.push(String::from_str("general"));
    v
}

/// The body of the create request for a fresh identifier of `keyring`.
pub fn create_identifier_payload(keyring: &KeyPairing) -> (r: Result<String, CreateIdentifierError>)
    requires
        keyring.wf(),
    ensures
        r matches Ok(s) && exists|d: DidPatchDocument|
            is_fresh_patch(d, *keyring) && s@ == create_payload_text(
                d,
                keyring.update.public_key.sec1@,
                keyring.recovery.public_key.sec1@,
            ),
{
    let sign_jwk = match secp256k1_to_jwk(&keyring.sign.public_key) {
        Ok(j) => j,
        Err(_) => return Err(CreateIdentifierError::Jwk),
    };
    let sign = PublicKeyPayload {
        id: String::from_str("signingKey"),
        key_type: String::from_str("EcdsaSecp256k1VerificationKey2019"),
        jwk: sign_jwk,
        purpose: auth_general(),
    };
    let enc = PublicKeyPayload {
        id: String::from_str("encryptionKey"),
        key_type: String::from_str("X25519KeyAgreementKey2019"),
        jwk: x25519_to_jwk(&keyring.encrypt.public_key),
        purpose: auth_general(),
    };
    let mut public_keys: Vec<PublicKeyPayload> = Vec::new();
    public_keys.push(sign);
    public_keys.push(enc);
    let document = DidPatchDocument { public_keys, service_endpoints: Vec::new() };
    let ghost d = document;
    assert(is_fresh_patch(d, *keyring));
    match did_create_payload(document, &keyring.update.public_key, &keyring.recovery.public_key) {
        Ok(s) => Ok(s),
        Err(_) => Err(CreateIdentifierError::PayloadBuildFailed),
    }
}

} // verus!
