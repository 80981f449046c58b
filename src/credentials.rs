//! Verifiable credentials and their detached-JWS proofs.
use vstd::prelude::*;
use crate::json::{
    JsonValue, JsonView, get_spec, items_view, member_of, json_text_of, lemma_view_of_array, lemma_view_of_kind,
    lemma_view_of_object, members_view, print_json, take_first, view_of,
};
use crate::jwk::Secp256k1PublicKey;
use crate::jws::{JwsDecodeError, es256k_sign_of, verify_result_is, header_segment, jws_accepts, sign, signing_input, verify};
use crate::multihash::base64url_of;
use crate::keypair::{K256KeyPair, secp256k1_public_of};

verus! {

/// The issuer of a credential.
#[derive(Debug, Clone, PartialEq, Eq)]
pub struct Issuer {
    pub id: String,
}

/// What a credential states.
#[derive(Debug)]
pub struct CredentialSubject {
    pub id: Option<String>,
    pub container: JsonValue,
}

/// A signature attached to a credential.
#[derive(Debug, Clone, PartialEq, Eq)]
pub struct Proof {
    pub proof_type: String,
    pub proof_purpose: String,
    /// RFC 3339 time.
    pub created: String,
    pub verification_method: String,
    pub jws: String,
    pub controller: Option<String>,
    pub challenge: Option<String>,
    pub domain: Option<String>,
}

/// A verifiable credential.
#[derive(Debug)]
pub struct VerifiableCredentials {
    pub id: Option<String>,
    pub issuer: Issuer,
    /// RFC 3339 time.
    pub issuance_date: String,
    pub expiration_date: Option<String>,
    pub context: Vec<String>,
    pub credential_type: Vec<String>,
    pub credential_subject: CredentialSubject,
    pub proof: Option<Proof>,
}

/// A verified credential and the metadata that came with it.
#[derive(Debug)]
pub struct VerifiedContainer {
    pub message: VerifiableCredentials,
    pub metadata: Option<JsonValue>,
}

/// Failures of signing a credential.
#[derive(Debug, Clone, Copy, PartialEq, Eq, Structural)]
pub enum CredentialSignerSignError {
    Jws,
}

/// Failures of verifying a credential.
#[derive(Debug, Clone, PartialEq, Eq)]
pub enum CredentialSignerVerifyError {
    Jws(JwsDecodeError),
    ProofNotFound,
}

/// A JSON array of texts.
pub open spec fn texts_view(items: Seq<String>) -> JsonView {
    JsonView::Array(Seq::new(items.len(), |i: int| JsonView::Str(items[i]@)))
}

/// One member `name` holding the text, or none.
pub open spec fn optional_member(name: Seq<char>, v: Option<String>) -> Seq<(Seq<char>, JsonView)> {
    match v {
        Some(x) => seq![(name, JsonView::Str(x@))],
        None => seq![],
    }
}

/// The JSON object of a credential without its proof, members in key order.
pub open spec fn credential_json_view(vc: VerifiableCredentials) -> JsonView {
    JsonView::Object(
        seq![
            ("@context"@, texts_view(vc.context@)),
            ("credentialSubject"@, JsonView::Object(seq![("container"@, view_of(vc.credential_subject.container))] + optional_member("id"@, vc.credential_subject.id))),
        ] + optional_member("expirationDate"@, vc.expiration_date) + optional_member(
            "id"@,
            vc.id,
        ) + seq![
            ("issuanceDate"@, JsonView::Str(vc.issuance_date@)),
            ("issuer"@, JsonView::Object(seq![("id"@, JsonView::Str(vc.issuer.id@))])),
            ("type"@, texts_view(vc.credential_type@)),
        ],
    )
}

/// A member `name` holding the text, or `null`.
pub open spec fn nullable_member(name: Seq<char>, v: Option<String>) -> (Seq<char>, JsonView) {
    match v {
        Some(x) => (name, JsonView::Str(x@)),
        None => (name, JsonView::Null),
    }
}

/// The JSON object of a proof, members in key order.
pub open spec fn proof_view(p: Proof) -> JsonView {
    JsonView::Object(
        seq![
            nullable_member("challenge"@, p.challenge),
            nullable_member("controller"@, p.controller),
            ("created"@, JsonView::Str(p.created@)),
            nullable_member("domain"@, p.domain),
            ("jws"@, JsonView::Str(p.jws@)),
            ("proofPurpose"@, JsonView::Str(p.proof_purpose@)),
            ("type"@, JsonView::Str(p.proof_type@)),
            ("verificationMethod"@, JsonView::Str(p.verification_method@)),
        ],
    )
}

/// The `proof` member of a credential, if it has a proof.
pub open spec fn proof_member(p: Option<Proof>) -> Seq<(Seq<char>, JsonView)> {
    match p {
        Some(x) => seq![("proof"@, proof_view(x))],
        None => seq![],
    }
}

/// The JSON object of a credential with its proof, members in key order.
pub open spec fn signed_credential_view(vc: VerifiableCredentials) -> JsonView {
    JsonView::Object(
        seq![
            ("@context"@, texts_view(vc.context@)),
            ("credentialSubject"@, JsonView::Object(seq![("container"@, view_of(vc.credential_subject.container))] + optional_member("id"@, vc.credential_subject.id))),
        ] + optional_member("expirationDate"@, vc.expiration_date) + optional_member(
            "id"@,
            vc.id,
        ) + seq![
            ("issuanceDate"@, JsonView::Str(vc.issuance_date@)),
            ("issuer"@, JsonView::Object(seq![("id"@, JsonView::Str(vc.issuer.id@))])),
        ] + proof_member(vc.proof) + seq![("type"@, texts_view(vc.credential_type@))],
    )
}

/// The text that a credential's proof signs.
pub open spec fn credential_text(vc: VerifiableCredentials) -> Seq<char> {
    json_text_of(credential_json_view(vc))
}

/// The container member of the subject member of a credential object.
pub open spec fn container_of(v: JsonView) -> JsonView {
    match get_spec(v, "credentialSubject"@) {
        Some(s) => match get_spec(s, "container"@) {
            Some(c) => c,
            None => JsonView::Null,
        },
        None => JsonView::Null,
    }
}

fn text_value(s: &String) -> (r: JsonValue)
    ensures
        view_of(r) == JsonView::Str(s@),
{
    JsonValue::Str(s.clone())
}

fn texts_value(items: &Vec<String>) -> (r: JsonValue)
    ensures
        view_of(r) == texts_view(items@),
{
    let mut out: Vec<JsonValue> = Vec::new();
    let mut i: usize = 0;
    while i < items.len()
        invariant
            i <= items@.len(),
            out@.len() == i,
            forall|k: int| 0 <= k < i ==> view_of(#[trigger] out@[k]) == JsonView::Str(items@[k]@),
        decreases items@.len() - i,
    {
        out.push(text_value(&items[i]));
        i += 1;
    }
    proof {
        lemma_view_of_array(out);
        assert(items_view(out@) =~= Seq::new(items@.len(), |i: int| JsonView::Str(items@[i]@)));
    }
    JsonValue::Array(out)
}

fn push_member(fields: &mut Vec<(String, JsonValue)>, name: &str, value: JsonValue)
    ensures
        members_view(final(fields)@) == members_view(old(fields)@) + seq![(name@, view_of(value))],
{
    let ghost before = members_view(fields@);
    let ghost vv = view_of(value);
    fields.push((String::from_str(name), value));
    assert(members_view(fields@) =~= before + seq![(name@, vv)]);
}

fn optional_text(fields: &mut Vec<(String, JsonValue)>, name: &str, value: &Option<String>)
    ensures
        members_view(final(fields)@) == members_view(old(fields)@) + optional_member(name@, *value),
{
    match value {
        Some(x) => push_member(fields, name, text_value(x)),
        None => {
            assert(members_view(fields@) =~= members_view(fields@) + optional_member(name@, *value));
        },
    }
}

fn nullable_text(fields: &mut Vec<(String, JsonValue)>, name: &str, value: Option<String>)
    ensures
        members_view(final(fields)@) == members_view(old(fields)@) + seq![nullable_member(name@, value)],
{
    match value {
        Some(x) => push_member(fields, name, JsonValue::Str(x)),
        None => push_member(fields, name, JsonValue::Null),
    }
}

fn proof_json(p: Proof) -> (r: JsonValue)
    ensures
        view_of(r) == proof_view(p),
{
    let ghost pv = proof_view(p);
    let mut fields: Vec<(String, JsonValue)> = Vec::new();
    nullable_text(&mut fields, "challenge", p.challenge);
    nullable_text(&mut fields, "controller", p.controller);
    push_member(&mut fields, "created", JsonValue::Str(p.created));
    nullable_text(&mut fields, "domain", p.domain);
    push_member(&mut fields, "jws", JsonValue::Str(p.jws));
    push_member(&mut fields, "proofPurpose", JsonValue::Str(p.proof_purpose));
    push_member(&mut fields, "type", JsonValue::Str(p.proof_type));
    push_member(&mut fields, "verificationMethod", JsonValue::Str(p.verification_method));
    proof {
        lemma_view_of_object(fields);
        assert(members_view(fields@) =~= match pv {
            JsonView::Object(m) => m,
            _ => Seq::empty(),
        });
    }
    JsonValue::Object(fields)
}

impl VerifiableCredentials {
    /// The credential's JSON object with its proof, members in key order.
    pub fn into_json(self) -> (r: JsonValue)
        ensures
            view_of(r) == signed_credential_view(self),
    {
        let ghost whole = self;
        let VerifiableCredentials {
            id,
            issuer,
            issuance_date,
            expiration_date,
            context,
            credential_type,
            credential_subject,
            proof: attached,
        } = self;
        let mut issuer_fields: Vec<(String, JsonValue)> = Vec::new();
        push_member(&mut issuer_fields, "id", text_value(&issuer.id));
        let CredentialSubject { id: subject_id, container } = credential_subject;
        let mut subject_fields: Vec<(String, JsonValue)> = Vec::new();
        push_member(&mut subject_fields, "container", container);
        optional_text(&mut subject_fields, "id", &subject_id);
        let mut fields: Vec<(String, JsonValue)> = Vec::new();
        push_member(&mut fields, "@context", texts_value(&context));
        proof {
            lemma_view_of_object(subject_fields);
        }
        push_member(&mut fields, "credentialSubject", JsonValue::Object(subject_fields));
        optional_text(&mut fields, "expirationDate", &expiration_date);
        optional_text(&mut fields, "id", &id);
        push_member(&mut fields, "issuanceDate", text_value(&issuance_date));
        proof {
            lemma_view_of_object(issuer_fields);
        }
        push_member(&mut fields, "issuer", JsonValue::Object(issuer_fields));
        let ghost before_proof = members_view(fields@);
        match attached {
            Some(p) => push_member(&mut fields, "proof", proof_json(p)),
            None => {},
        }
        assert(members_view(fields@) =~= before_proof + proof_member(whole.proof));
        push_member(&mut fields, "type", texts_value(&credential_type));
        proof {
            lemma_view_of_object(fields);
            assert(members_view(fields@) =~= match signed_credential_view(whole) {
                JsonView::Object(m) => m,
                _ => Seq::empty(),
            });
        }
        JsonValue::Object(fields)
    }
}

/// Context every credential of this agent declares.
pub const CREDENTIALS_CONTEXT: &'static str = "https://www.w3.org/2018/credentials/v1";

/// Type every credential of this agent declares.
pub const CREDENTIAL_TYPE: &'static str = "VerifiableCredential";

impl VerifiableCredentials {
    /// An unsigned credential issued by `issuer` at `issuance_date`, stating
    /// `container`.
    pub fn new(issuer: String, container: JsonValue, issuance_date: String) -> (r: VerifiableCredentials)
        ensures
            r.issuer.id@ == issuer@,
            r.issuance_date@ == issuance_date@,
            r.credential_subject.container == container,
            r.credential_subject.id is None,
            r.id is None,
            r.expiration_date is None,
            r.proof is None,
            r.context@.len() == 1 && r.context@[0]@ == CREDENTIALS_CONTEXT@,
            r.credential_type@.len() == 1 && r.credential_type@[0]@ == CREDENTIAL_TYPE@,
    {
        let mut context: Vec<String> = Vec::new();
        context.push(String::from_str(CREDENTIALS_CONTEXT));
        let mut credential_type: Vec<String> = Vec::new();
        credential_type.push(String::from_str(CREDENTIAL_TYPE));
        VerifiableCredentials {
            id: None,
            issuer: Issuer { id: issuer },
            issuance_date,
            expiration_date: None,
            context,
            credential_type,
            credential_subject: CredentialSubject { id: None, container },
            proof: None,
        }
    }

    /// The credential's JSON object without its proof, members in key order;
    /// the subject's container is moved into it.
    pub fn into_json_without_proof(self) -> (r: (JsonValue, CredentialParts))
        ensures
            view_of(r.0) == credential_json_view(self),
            r.1.id == self.id,
            r.1.issuer == self.issuer,
            r.1.issuance_date == self.issuance_date,
            r.1.expiration_date == self.expiration_date,
            r.1.context == self.context,
            r.1.credential_type == self.credential_type,
            r.1.subject_id == self.credential_subject.id,
    {
        let ghost whole = self;
        let VerifiableCredentials {
            id,
            issuer,
            issuance_date,
            expiration_date,
            context,
            credential_type,
            credential_subject,
            proof: _,
        } = self;
        let mut issuer_fields: Vec<(String, JsonValue)> = Vec::new();
        push_member(&mut issuer_fields, "id", text_value(&issuer.id));
        let CredentialSubject { id: subject_id, container } = credential_subject;
        let mut subject_fields: Vec<(String, JsonValue)> = Vec::new();
        push_member(&mut subject_fields, "container", container);
        optional_text(&mut subject_fields, "id", &subject_id);
        let mut fields: Vec<(String, JsonValue)> = Vec::new();
        push_member(&mut fields, "@context", texts_value(&context));
        proof {
            lemma_view_of_object(subject_fields);
        }
        push_member(&mut fields, "credentialSubject", JsonValue::Object(subject_fields));
        optional_text(&mut fields, "expirationDate", &expiration_date);
        optional_text(&mut fields, "id", &id);
        push_member(&mut fields, "issuanceDate", text_value(&issuance_date));
        proof {
            lemma_view_of_object(issuer_fields);
        }
        push_member(&mut fields, "issuer", JsonValue::Object(issuer_fields));
        push_member(&mut fields, "type", texts_value(&credential_type));
        proof {
            lemma_view_of_object(fields);
            assert(members_view(fields@) =~= match credential_json_view(whole) {
                JsonView::Object(m) => m,
                _ => Seq::empty(),
            });
        }
        (
            JsonValue::Object(fields),
            CredentialParts {
                id,
                issuer,
                issuance_date,
                expiration_date,
                context,
                credential_type,
                subject_id,
            },
        )
    }
}

/// The parts of a credential besides its subject's container and proof.
#[derive(Debug, Clone)]
pub struct CredentialParts {
    pub id: Option<String>,
    pub issuer: Issuer,
    pub issuance_date: String,
    pub expiration_date: Option<String>,
    pub context: Vec<String>,
    pub credential_type: Vec<String>,
    pub subject_id: Option<String>,
}

fn clone_text(s: &String) -> (r: String)
    ensures
        r@ == s@,
{
    s.clone()
}

/// Signs and checks credentials.
pub struct CredentialSigner {}

/// The verification method of a key: `did#key_id`.
pub open spec fn verification_method_of(did: Seq<char>, key_id: Seq<char>) -> Seq<char> {
    did + "#"@ + key_id
}

/// Takes the container back out of a credential's JSON object.
fn take_container(v: JsonValue) -> (r: JsonValue)
    ensures
        view_of(r) == container_of(view_of(v)),
{
    proof {
        lemma_view_of_kind(v);
    }
    match v {
        JsonValue::Object(fields) => {
            proof {
                lemma_view_of_object(fields);
            }
            match take_first(fields, "credentialSubject") {
                Some(subject) => {
                    proof {
                        lemma_view_of_kind(subject);
                    }
                    match subject {
                        JsonValue::Object(sub) => {
                            proof {
                                lemma_view_of_object(sub);
                            }
                            match take_first(sub, "container") {
                                Some(c) => c,
                                None => JsonValue::Null,
                            }
                        },
                        _ => JsonValue::Null,
                    }
                },
                None => JsonValue::Null,
            }
        },
        _ => JsonValue::Null,
    }
}

/// The container of a credential's JSON object is the credential's container.
proof fn lemma_container_of_credential(vc: VerifiableCredentials)
    ensures
        container_of(credential_json_view(vc)) == view_of(vc.credential_subject.container),
{
    reveal_strlit("@context");
    reveal_strlit("credentialSubject");
    reveal_strlit("container");
    let m = match credential_json_view(vc) {
        JsonView::Object(m) => m,
        _ => Seq::empty(),
    };
    assert(m[0].0 == "@context"@);
    assert("@context"@.len() == 8);
    assert("credentialSubject"@.len() == 17);
    assert(m[0].0 != "credentialSubject"@);
    let sub = seq![("container"@, view_of(vc.credential_subject.container))] + optional_member(
        "id"@,
        vc.credential_subject.id,
    );
    assert(m[1] == ("credentialSubject"@, JsonView::Object(sub)));
    assert(m.drop_first()[0] == m[1]);
    assert(member_of(m, "credentialSubject"@) == member_of(m.drop_first(), "credentialSubject"@));
    assert(member_of(m, "credentialSubject"@) == Some(JsonView::Object(sub)));
    assert(sub[0].0 == "container"@);
    assert(member_of(sub, "container"@) == Some(view_of(vc.credential_subject.container)));
}

/// Two credentials have the same content: the same JSON object once their
/// proofs are left out.
pub open spec fn same_content(a: VerifiableCredentials, b: VerifiableCredentials) -> bool {
    credential_json_view(a) == credential_json_view(b)
}

impl CredentialSigner {
    /// Signs `object` (without any proof it has) with the key pair and
    /// attaches the proof: `EcdsaSecp256k1Signature2019` for
    /// `authentication`, created at the issuance date, verification method
    /// `did#key_id`, and the detached JWS over the credential's JSON text.
    pub fn sign(object: VerifiableCredentials, did: &str, key_id: &str, context: &K256KeyPair) -> (r:
        Result<VerifiableCredentials, CredentialSignerSignError>)
        requires
            context.wf(),
        ensures
            r matches Ok(vc) ==> (same_content(vc, object) && vc.issuer.id@ == object.issuer.id@
                && vc.issuance_date@ == object.issuance_date@ && (vc.proof matches Some(p)
                && p.created@ == object.issuance_date@ && p.verification_method@
                == verification_method_of(did@, key_id@) && p.proof_type@
                == "EcdsaSecp256k1Signature2019"@ && p.proof_purpose@ == "authentication"@
                && p.controller is None && p.challenge is None && p.domain is None && jws_accepts(
                credential_text(object),
                p.jws@,
                secp256k1_public_of(context.secret_key@),
            ) && p.jws@ == header_segment() + ".."@ + base64url_of(
                es256k_sign_of(
                    context.secret_key@,
                    signing_input(header_segment(), credential_text(object)),
                )->Some_0,
            ))),
            r is Ok <==> es256k_sign_of(
                context.secret_key@,
                signing_input(header_segment(), credential_text(object)),
            ) is Some,
    {
        let ghost input = object;
        let (json, parts) = object.into_json_without_proof();
        let payload = print_json(&json);
        let jws = match sign(payload.as_str(), context.secret_key.as_slice()) {
            Ok(j) => j,
            Err(_) => return Err(CredentialSignerSignError::Jws),
        };
        let mut method = String::from_str(did);
        method.append("#");
        method.append(key_id);
        let ghost signed = payload@;
        let container = take_container(json);
        proof {
            lemma_container_of_credential(input);
        }
        let proof = Proof {
            proof_type: String::from_str("EcdsaSecp256k1Signature2019"),
            proof_purpose: String::from_str("authentication"),
            created: clone_text(&parts.issuance_date),
            verification_method: method,
            jws,
            controller: None,
            challenge: None,
            domain: None,
        };
        let vc = VerifiableCredentials {
            id: parts.id,
            issuer: parts.issuer,
            issuance_date: parts.issuance_date,
            expiration_date: parts.expiration_date,
            context: parts.context,
            credential_type: parts.credential_type,
            credential_subject: CredentialSubject { id: parts.subject_id, container },
            proof: Some(proof),
        };
        assert(signed == credential_text(input));
        assert(credential_json_view(vc) == credential_json_view(input));
        Ok(vc)
    }

    /// Takes the proof off `object` and checks its JWS over the credential's
    /// JSON text with `public_key`; returns the credential without proof.
    pub fn verify(object: VerifiableCredentials, public_key: &Secp256k1PublicKey) -> (r: Result<
        VerifiableCredentials,
        CredentialSignerVerifyError,
    >)
        ensures
            object.proof is None ==> r == Err::<VerifiableCredentials, CredentialSignerVerifyError>(
                CredentialSignerVerifyError::ProofNotFound),
            object.proof matches Some(p) ==> (r is Ok <==> jws_accepts(
                credential_text(object),
                p.jws@,
                public_key.sec1@,
            )),
            r matches Ok(vc) ==> (vc.proof is None && same_content(vc, object)),
            object.proof is Some && r is Err ==> r matches Err(CredentialSignerVerifyError::Jws(_)),
            object.proof matches Some(p) ==> (r matches Err(CredentialSignerVerifyError::Jws(e))
                ==> verify_result_is(Err(e), credential_text(object), p.jws@, public_key.sec1@)),
    {
        let attached = &object.proof;
        let jws = match attached {
            Some(p) => clone_text(&p.jws),
            None => return Err(CredentialSignerVerifyError::ProofNotFound),
        };
        let ghost input = object;
        let (json, parts) = object.into_json_without_proof();
        let payload = print_json(&json);
        if let Err(e) = verify(payload.as_str(), jws.as_str(), public_key) {
            return Err(CredentialSignerVerifyError::Jws(e));
        }
        let container = take_container(json);
        proof {
            lemma_container_of_credential(input);
        }
        let vc = VerifiableCredentials {
            id: parts.id,
            issuer: parts.issuer,
            issuance_date: parts.issuance_date,
            expiration_date: parts.expiration_date,
            context: parts.context,
            credential_type: parts.credential_type,
            credential_subject: CredentialSubject { id: parts.subject_id, container },
            proof: None,
        };
        assert(credential_json_view(vc) == credential_json_view(input));
        Ok(vc)
    }
}

/// A credential that signing returned verifies with the signer's public key,
/// and verifying it gives back its content without a proof: the proof's JWS
/// is accepted over the text that verification checks.
pub proof fn lemma_signed_credential_verifies(
    object: VerifiableCredentials,
    signed: VerifiableCredentials,
    secret: Seq<u8>,
)
    requires
        same_content(signed, object),
        signed.proof matches Some(p) && jws_accepts(
            credential_text(object),
            p.jws@,
            secp256k1_public_of(secret),
        ),
    ensures
        signed.proof matches Some(p) && jws_accepts(
            credential_text(signed),
            p.jws@,
            secp256k1_public_of(secret),
        ),
{
}

} // verus!
