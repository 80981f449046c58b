//! Sidetree create-operation payloads: DID documents, patches, commitments,
//! and the canonical JSON that carries them.
use vstd::prelude::*;
use crate::canon::{
    json_string, json_string_array, push_json_string, push_json_string_array, push_text, utf8,
};
use crate::jwk::{Jwk, Secp256k1PublicKey, is_secp256k1_jwk_of, secp256k1_to_jwk};
use crate::multihash::{
    base64_of, base64url_of, double_hash_encode, encode_base64, hash_encode, is_base64_char, multihash_of,
    sha256_of,
};

verus! {

/// A service endpoint of a DID document.
#[derive(Debug, Clone)]
pub struct ServiceEndpoint {
    pub id: String,
    pub service_type: String,
    pub service_endpoint: String,
    pub description: Option<String>,
}

/// A public key in JWK form as DID documents carry it.
#[derive(Debug, Clone)]
pub struct PublicKeyJwk {
    pub kty: String,
    pub crv: String,
    pub x: String,
    pub y: String,
}

/// A public key entry of a DID document.
#[derive(Debug, Clone)]
pub struct DidPublicKey {
    pub id: String,
    pub controller: String,
    pub key_type: String,
    pub public_key_jwk: Jwk,
}

/// A resolved DID document.
#[derive(Debug, Clone)]
pub struct DidDocument {
    pub id: String,
    pub public_key: Option<Vec<DidPublicKey>>,
    pub authentication: Option<Vec<String>>,
}

/// A public key as a Sidetree patch carries it.
#[derive(Debug, Clone)]
pub struct PublicKeyPayload {
    pub id: String,
    pub key_type: String,
    pub jwk: Jwk,
    pub purpose: Vec<String>,
}

/// The document part of a Sidetree `replace` patch.
#[derive(Debug, Clone)]
pub struct DidPatchDocument {
    pub public_keys: Vec<PublicKeyPayload>,
    pub service_endpoints: Vec<ServiceEndpoint>,
}

/// A Sidetree patch action.
#[derive(Debug, Clone)]
pub enum DidAction {
    Replace { document: DidPatchDocument },
    AddPublicKeys { public_keys: Vec<PublicKeyPayload> },
}

/// The node's answer to a create or resolve request.
#[derive(Debug, Clone)]
pub struct MiaxDidResponse {
    pub did_document: DidDocument,
}

/// Failures of building a create payload.
#[derive(Debug, Clone, Copy, PartialEq, Eq, Structural)]
pub enum DidCreatePayloadError {
    Jwk,
}

/// Turns a public key into a patch entry.
pub trait ToPublicKey: Sized {
    fn to_public_key(self, key_type: String, key_id: String, purpose: Vec<String>) -> Result<
        PublicKeyPayload,
        crate::jwk::K256ToJwkError,
    >;
}

impl ToPublicKey for Secp256k1PublicKey {
    fn to_public_key(self, key_type: String, key_id: String, purpose: Vec<String>) -> Result<
        PublicKeyPayload,
        crate::jwk::K256ToJwkError,
    > {
        match secp256k1_to_jwk(&self) {
            Ok(jwk) => Ok(PublicKeyPayload { id: key_id, key_type, jwk, purpose }),
            Err(e) => Err(e),
        }
    }
}

impl ToPublicKey for crate::jwk::X25519PublicKey {
    fn to_public_key(self, key_type: String, key_id: String, purpose: Vec<String>) -> Result<
        PublicKeyPayload,
        crate::jwk::K256ToJwkError,
    > {
        Ok(PublicKeyPayload { id: key_id, key_type, jwk: crate::jwk::x25519_to_jwk(&self), purpose })
    }
}

/// `"name":` as JSON member prefix, with a leading comma when `first` is false.
pub open spec fn key(name: Seq<char>, first: bool) -> Seq<u8> {
    (if first {
        seq![0x7bu8]
    } else {
        seq![0x2cu8]
    }) + json_string(utf8(name)) + seq![0x3au8]
}

/// Canonical JSON of a JWK: members `crv`, `kty`, `x` and, when present, `y`.
pub open spec fn jwk_json(j: Jwk) -> Seq<u8> {
    key("crv"@, true) + json_string(utf8(j.crv@)) + key("kty"@, false) + json_string(utf8(j.kty@))
        + key("x"@, false) + json_string(utf8(j.x@)) + match j.y {
        Some(y) => key("y"@, false) + json_string(utf8(y@)),
        None => seq![],
    } + seq![0x7du8]
}

/// Canonical JSON of a patch public key: `id`, `jwk`, `purpose`, `type`.
pub open spec fn public_key_payload_json(p: PublicKeyPayload) -> Seq<u8> {
    key("id"@, true) + json_string(utf8(p.id@)) + key("jwk"@, false) + jwk_json(p.jwk) + key(
        "purpose"@,
        false,
    ) + json_string_array(p.purpose@) + key("type"@, false) + json_string(utf8(p.key_type@)) + seq![0x7du8]
}

/// Canonical JSON of a service endpoint: `description` (or `null`), `id`,
/// `serviceEndpoint`, `type`.
pub open spec fn service_endpoint_json(e: ServiceEndpoint) -> Seq<u8> {
    key("description"@, true) + match e.description {
        Some(d) => json_string(utf8(d@)),
        None => utf8("null"@),
    } + key("id"@, false) + json_string(utf8(e.id@)) + key("serviceEndpoint"@, false) + json_string(
        utf8(e.service_endpoint@),
    ) + key("type"@, false) + json_string(utf8(e.service_type@)) + seq![0x7du8]
}

/// Comma-separated patch public keys.
pub open spec fn public_key_items(ps: Seq<PublicKeyPayload>) -> Seq<u8>
    decreases ps.len(),
{
    if ps.len() == 0 {
        seq![]
    } else if ps.len() == 1 {
        public_key_payload_json(ps[0])
    } else {
        public_key_items(ps.drop_last()) + seq![0x2cu8] + public_key_payload_json(ps.last())
    }
}

/// Comma-separated service endpoints.
pub open spec fn service_endpoint_items(es: Seq<ServiceEndpoint>) -> Seq<u8>
    decreases es.len(),
{
    if es.len() == 0 {
        seq![]
    } else if es.len() == 1 {
        service_endpoint_json(es[0])
    } else {
        service_endpoint_items(es.drop_last()) + seq![0x2cu8] + service_endpoint_json(es.last())
    }
}

/// Canonical JSON of a patch document: `public_keys`, `service_endpoints`.
pub open spec fn patch_json(d: DidPatchDocument) -> Seq<u8> {
    key("public_keys"@, true) + public_keys_array(d.public_keys@) + key("service_endpoints"@, false)
        + service_endpoints_array(d.service_endpoints@) + seq![0x7du8]
}

/// Canonical JSON of a patch action, tagged by `action`.
pub open spec fn action_json(a: DidAction) -> Seq<u8> {
    match a {
        DidAction::Replace { document } => key("action"@, true) + json_string(utf8("replace"@))
            + key("document"@, false) + patch_json(document) + seq![0x7du8],
        DidAction::AddPublicKeys { public_keys } => key("action"@, true) + json_string(
            utf8("add-public-keys"@),
        ) + key("public_keys"@, false) + public_keys_array(public_keys@) + seq![0x7du8],
    }
}

/// Canonical JSON of a delta object with one `replace` patch.
pub open spec fn delta_json(document: DidPatchDocument, update_commitment: Seq<char>) -> Seq<u8> {
    key("patches"@, true) + seq![0x5bu8] + action_json(DidAction::Replace { document }) + seq![
        0x5du8,
    ] + key("update_commitment"@, false) + json_string(utf8(update_commitment)) + seq![0x7du8]
}

/// Canonical JSON of a suffix object.
pub open spec fn suffix_json(delta_hash: Seq<char>, recovery_commitment: Seq<char>) -> Seq<u8> {
    key("delta_hash"@, true) + json_string(utf8(delta_hash)) + key("recovery_commitment"@, false)
        + json_string(utf8(recovery_commitment)) + seq![0x7du8]
}

/// Canonical JSON text of a create request: `delta`, `suffix_data`, `type`.
pub open spec fn create_request_text(delta: Seq<char>, suffix_data: Seq<char>) -> Seq<char> {
    "{\"delta\":\""@ + delta + "\",\"suffix_data\":\""@ + suffix_data + "\",\"type\":\"create\"}"@
}

/// The commitment to a key: double-hash multihash, Base64URL, of its JWK's
/// canonical JSON.
pub open spec fn commitment_of(jwk_bytes: Seq<u8>) -> Seq<char> {
    base64url_of(multihash_of(sha256_of(jwk_bytes)))
}

/// The commitment to the secp256k1 key whose JWK is `j`.
pub open spec fn key_commitment(j: Jwk) -> Seq<char> {
    commitment_of(jwk_json(j))
}

/// Appends `"name":` with `{` or `,` before it.
fn push_key(out: &mut Vec<u8>, name: &str, first: bool)
    ensures
        final(out)@ == old(out)@ + key(name@, first),
{
    if first {
        out.push(0x7b);
    } else {
        out.push(0x2c);
    }
    push_json_string(out, name);
    out.push(0x3a);
}

/// Appends the canonical JSON of a JWK.
pub fn push_jwk(out: &mut Vec<u8>, j: &Jwk)
    ensures
        final(out)@ == old(out)@ + jwk_json(*j),
{
    let ghost start = out@;
    push_key(out, "crv", true);
    push_json_string(out, j.crv.as_str());
    push_key(out, "kty", false);
    push_json_string(out, j.kty.as_str());
    push_key(out, "x", false);
    push_json_string(out, j.x.as_str());
    let ghost mid = out@;
    match &j.y {
        Some(y) => {
            push_key(out, "y", false);
            push_json_string(out, y.as_str());
        },
        None => {},
    }
    out.push(0x7d);
    assert(out@ == start + jwk_json(*j));
}

fn push_public_key_payload(out: &mut Vec<u8>, p: &PublicKeyPayload)
    ensures
        final(out)@ == old(out)@ + public_key_payload_json(*p),
{
    let ghost start = out@;
    push_key(out, "id", true);
    push_json_string(out, p.id.as_str());
    push_key(out, "jwk", false);
    push_jwk(out, &p.jwk);
    push_key(out, "purpose", false);
    push_json_string_array(out, &p.purpose);
    push_key(out, "type", false);
    push_json_string(out, p.key_type.as_str());
    out.push(0x7d);
    assert(out@ == start + public_key_payload_json(*p));
}

fn push_service_endpoint(out: &mut Vec<u8>, e: &ServiceEndpoint)
    ensures
        final(out)@ == old(out)@ + service_endpoint_json(*e),
{
    let ghost start = out@;
    push_key(out, "description", true);
    match &e.description {
        Some(d) => push_json_string(out, d.as_str()),
        None => push_text(out, "null"),
    }
    push_key(out, "id", false);
    push_json_string(out, e.id.as_str());
    push_key(out, "serviceEndpoint", false);
    push_json_string(out, e.service_endpoint.as_str());
    push_key(out, "type", false);
    push_json_string(out, e.service_type.as_str());
    out.push(0x7d);
    assert(out@ == start + service_endpoint_json(*e));
}

fn push_public_key_items(out: &mut Vec<u8>, ps: &Vec<PublicKeyPayload>)
    ensures
        final(out)@ == old(out)@ + public_key_items(ps@),
{
    let mut i: usize = 0;
    while i < ps.len()
        invariant
            i <= ps@.len(),
            out@ == old(out)@ + public_key_items(ps@.subrange(0, i as int)),
        decreases ps@.len() - i,
    {
        assert(ps@.subrange(0, i + 1).drop_last() == ps@.subrange(0, i as int));
        if i > 0 {
            out.push(0x2c);
        }
        push_public_key_payload(out, &ps[i]);
        i += 1;
    }
    assert(ps@.subrange(0, ps@.len() as int) == ps@);
}

fn push_service_endpoint_items(out: &mut Vec<u8>, es: &Vec<ServiceEndpoint>)
    ensures
        final(out)@ == old(out)@ + service_endpoint_items(es@),
{
    let mut i: usize = 0;
    while i < es.len()
        invariant
            i <= es@.len(),
            out@ == old(out)@ + service_endpoint_items(es@.subrange(0, i as int)),
        decreases es@.len() - i,
    {
        assert(es@.subrange(0, i + 1).drop_last() == es@.subrange(0, i as int));
        if i > 0 {
            out.push(0x2c);
        }
        push_service_endpoint(out, &es[i]);
        i += 1;
    }
    assert(es@.subrange(0, es@.len() as int) == es@);
}

/// `[` items `]` of patch public keys.
pub open spec fn public_keys_array(ps: Seq<PublicKeyPayload>) -> Seq<u8> {
    seq![0x5bu8] + public_key_items(ps) + seq![0x5du8]
}

/// `[` items `]` of service endpoints.
pub open spec fn service_endpoints_array(es: Seq<ServiceEndpoint>) -> Seq<u8> {
    seq![0x5bu8] + service_endpoint_items(es) + seq![0x5du8]
}

fn push_public_keys_array(out: &mut Vec<u8>, ps: &Vec<PublicKeyPayload>)
    ensures
        final(out)@ == old(out)@ + public_keys_array(ps@),
{
    let ghost start = out@;
    out.push(0x5b);
    push_public_key_items(out, ps);
    out.push(0x5d);
    assert(out@ =~= start + public_keys_array(ps@));
}

fn push_service_endpoints_array(out: &mut Vec<u8>, es: &Vec<ServiceEndpoint>)
    ensures
        final(out)@ == old(out)@ + service_endpoints_array(es@),
{
    let ghost start = out@;
    out.push(0x5b);
    push_service_endpoint_items(out, es);
    out.push(0x5d);
    assert(out@ =~= start + service_endpoints_array(es@));
}

/// Appends the canonical JSON of a patch document.
pub fn push_patch(out: &mut Vec<u8>, d: &DidPatchDocument)
    ensures
        final(out)@ == old(out)@ + patch_json(*d),
{
    let ghost start = out@;
    push_key(out, "public_keys", true);
    push_public_keys_array(out, &d.public_keys);
    push_key(out, "service_endpoints", false);
    push_service_endpoints_array(out, &d.service_endpoints);
    out.push(0x7d);
    assert(out@ =~= start + patch_json(*d));
}

/// The canonical JSON bytes of a JWK.
pub fn canon_jwk(j: &Jwk) -> (r: Vec<u8>)
    ensures
        r@ == jwk_json(*j),
{
    let mut out: Vec<u8> = Vec::new();
    push_jwk(&mut out, j);
    assert(out@ == Seq::<u8>::empty() + jwk_json(*j));
    out
}

/// The commitment to a key given by its JWK.
pub fn commitment_scheme(value: &Jwk) -> (r: String)
    ensures
        r@ == key_commitment(*value),
{
    let bytes = canon_jwk(value);
    double_hash_encode(bytes.as_slice())
}

/// Keys whose JWKs have the same canonical JSON have the same commitment.
pub proof fn lemma_commitment_follows_canonical_jwk(a: Jwk, b: Jwk)
    requires
        jwk_json(a) == jwk_json(b),
    ensures
        key_commitment(a) == key_commitment(b),
{
}

fn push_replace_action(out: &mut Vec<u8>, document: &DidPatchDocument)
    ensures
        final(out)@ == old(out)@ + action_json(DidAction::Replace { document: *document }),
{
    let ghost start = out@;
    push_key(out, "action", true);
    push_json_string(out, "replace");
    push_key(out, "document", false);
    push_patch(out, document);
    out.push(0x7d);
    assert(out@ =~= start + action_json(DidAction::Replace { document: *document }));
}

/// The canonical JSON bytes of the delta of a create operation.
pub fn canon_delta(document: &DidPatchDocument, update_commitment: &str) -> (r: Vec<u8>)
    ensures
        r@ == delta_json(*document, update_commitment@),
{
    let mut out: Vec<u8> = Vec::new();
    push_key(&mut out, "patches", true);
    out.push(0x5b);
    push_replace_action(&mut out, document);
    out.push(0x5d);
    push_key(&mut out, "update_commitment", false);
    push_json_string(&mut out, update_commitment);
    out.push(0x7d);
    assert(out@ =~= delta_json(*document, update_commitment@));
    out
}

/// The canonical JSON bytes of the suffix of a create operation.
pub fn canon_suffix(delta_hash: &str, recovery_commitment: &str) -> (r: Vec<u8>)
    ensures
        r@ == suffix_json(delta_hash@, recovery_commitment@),
{
    let mut out: Vec<u8> = Vec::new();
    push_key(&mut out, "delta_hash", true);
    push_json_string(&mut out, delta_hash);
    push_key(&mut out, "recovery_commitment", false);
    push_json_string(&mut out, recovery_commitment);
    out.push(0x7d);
    assert(out@ =~= suffix_json(delta_hash@, recovery_commitment@));
    out
}

/// Canonical JSON of the JWK of the secp256k1 point `sec1`.
pub open spec fn secp256k1_jwk_json(sec1: Seq<u8>) -> Seq<u8> {
    key("crv"@, true) + json_string(utf8("secp256k1"@)) + key("kty"@, false) + json_string(
        utf8("EC"@),
    ) + key("x"@, false) + json_string(utf8(base64url_of(sec1.subrange(1, 33)))) + key("y"@, false)
        + json_string(utf8(base64url_of(sec1.subrange(33, 65)))) + seq![0x7du8]
}

/// The delta bytes of a create operation.
pub open spec fn create_delta(d: DidPatchDocument, update_key: Seq<u8>) -> Seq<u8> {
    delta_json(d, commitment_of(secp256k1_jwk_json(update_key)))
}

/// The suffix bytes of a create operation.
pub open spec fn create_suffix(d: DidPatchDocument, update_key: Seq<u8>, recovery_key: Seq<u8>) -> Seq<u8> {
    suffix_json(
        base64url_of(multihash_of(create_delta(d, update_key))),
        commitment_of(secp256k1_jwk_json(recovery_key)),
    )
}

/// The create request for a patch document and the update and recovery keys.
pub open spec fn create_payload_text(d: DidPatchDocument, update_key: Seq<u8>, recovery_key: Seq<u8>) -> Seq<char> {
    create_request_text(
        base64_of(create_delta(d, update_key)),
        base64_of(create_suffix(d, update_key, recovery_key)),
    )
}

/// Commitment to a secp256k1 key, from the key itself.
fn key_commitment_of(key: &Secp256k1PublicKey) -> (r: String)
    requires
        key.wf(),
    ensures
        r@ == commitment_of(secp256k1_jwk_json(key.sec1@)),
{
    let jwk = match secp256k1_to_jwk(key) {
        Ok(j) => j,
        Err(_) => {
            proof {
                assert(false);
            }
            return String::new();
        },
    };
    assert(jwk_json(jwk) =~= secp256k1_jwk_json(key.sec1@));
    commitment_scheme(&jwk)
}

/// Builds the Sidetree create request: the patch `replace_payload` in the
/// delta with the update commitment, the suffix with the delta's hash and
/// the recovery commitment, each Base64-encoded into `{delta, suffix_data,
/// type: "create"}`.
pub fn did_create_payload(
    replace_payload: DidPatchDocument,
    update_key: &Secp256k1PublicKey,
    recovery_key: &Secp256k1PublicKey,
) -> (r: Result<String, DidCreatePayloadError>)
    requires
        update_key.wf(),
        recovery_key.wf(),
    ensures
        r matches Ok(s) && s@ == create_payload_text(
            replace_payload,
            update_key.sec1@,
            recovery_key.sec1@,
        ),
        forall|i: int|
            0 <= i < base64_of(create_delta(replace_payload, update_key.sec1@)).len() ==> is_base64_char(
                #[trigger] base64_of(create_delta(replace_payload, update_key.sec1@))[i],
            ),
        forall|i: int|
            0 <= i < base64_of(
                create_suffix(replace_payload, update_key.sec1@, recovery_key.sec1@),
            ).len() ==> is_base64_char(
                #[trigger] base64_of(
                    create_suffix(replace_payload, update_key.sec1@, recovery_key.sec1@),
                )[i],
            ),
{
    let update_commitment = key_commitment_of(update_key);
    let recovery_commitment = key_commitment_of(recovery_key);
    let delta = canon_delta(&replace_payload, update_commitment.as_str());
    let delta_hash = hash_encode(delta.as_slice());
    let suffix = canon_suffix(delta_hash.as_str(), recovery_commitment.as_str());
    let encoded_delta = encode_base64(delta.as_slice());
    let encoded_suffix = encode_base64(suffix.as_slice());
    let mut out = String::from_str("{\"delta\":\"");
    out.append(encoded_delta.as_str());
    out.append("\",\"suffix_data\":\"");
    out.append(encoded_suffix.as_str());
    out.append("\",\"type\":\"create\"}");
    Ok(out)
}

} // verus!
