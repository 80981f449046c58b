//! Reading opened messages into credentials, and what the polling worker
//! does with each verified message.
use vstd::prelude::*;
use crate::credentials::{CredentialSubject, Issuer, Proof, VerifiableCredentials};
use crate::agent::MessageResponse;
use crate::jws::all_strings;
use crate::repository::optional_text_member;
use crate::json::{
    JsonValue, JsonView, get, get_spec, items_view, json_parse_of, lemma_view_of_array,
    lemma_view_of_object, members_view, parse_json, str_spec, take_first, view_of,
};
use crate::resource::{ALLOWED_DOWNLOAD_PREFIX, UnixResourceManager};
use crate::text::same_text;

verus! {

fn text_of(v: &JsonValue, name: &str) -> (r: Option<String>)
    ensures
        r matches Some(s) ==> str_spec(get_spec(view_of(*v), name@)) == Some(s@),
        r is None ==> str_spec(get_spec(view_of(*v), name@)) is None,
{
    match get(v, name) {
        Some(JsonValue::Str(s)) => Some(s.clone()),
        _ => None,
    }
}

/// The optional text `o` is what member `name` of `v` holds.
pub open spec fn opt_text_is(o: Option<String>, v: JsonView, name: Seq<char>) -> bool {
    match o {
        Some(x) => str_spec(get_spec(v, name)) == Some(x@),
        None => get_spec(v, name) is None || get_spec(v, name) == Some(JsonView::Null),
    }
}

/// Member `name` of `v` is an array of texts.
pub open spec fn texts_member(v: JsonView, name: Seq<char>) -> bool {
    get_spec(v, name) matches Some(JsonView::Array(items)) && all_strings(items)
}

/// The texts `xs` are the items of member `name` of `v`.
pub open spec fn texts_are(xs: Seq<String>, v: JsonView, name: Seq<char>) -> bool {
    get_spec(v, name) matches Some(JsonView::Array(items)) && items.len() == xs.len() && forall|k: int|
        0 <= k < xs.len() ==> #[trigger] items[k] == JsonView::Str(xs[k]@)
}

fn optional_text_of(v: &JsonValue, name: &str) -> (r: Option<Option<String>>)
    ensures
        r is Some <==> optional_text_member(view_of(*v), name@),
        r matches Some(o) ==> opt_text_is(o, view_of(*v), name@),
{
    let m = get(v, name);
    proof {
        if m is Some {
            crate::json::lemma_view_of_kind(*m->Some_0);
        }
    }
    match m {
        None => Some(None),
        Some(JsonValue::Null) => Some(None),
        Some(JsonValue::Str(s)) => Some(Some(s.clone())),
        Some(_) => None,
    }
}

fn texts_of(v: &JsonValue, name: &str) -> (r: Option<Vec<String>>)
    ensures
        r is Some <==> texts_member(view_of(*v), name@),
        r matches Some(xs) ==> texts_are(xs@, view_of(*v), name@),
{
    let m = get(v, name);
    proof {
        if m is Some {
            crate::json::lemma_view_of_kind(*m->Some_0);
        }
    }
    match m {
        Some(JsonValue::Array(items)) => {
            proof {
                lemma_view_of_array(*items);
            }
            let ghost iv = items_view(items@);
            let mut out: Vec<String> = Vec::new();
            let mut i: usize = 0;
            while i < items.len()
                invariant
                    i <= items@.len(),
                    out@.len() == i,
                    iv == items_view(items@),
                    get_spec(view_of(*v), name@) == Some(JsonView::Array(iv)),
                    forall|k: int| 0 <= k < i ==> #[trigger] iv[k] == JsonView::Str(out@[k]@),
                decreases items@.len() - i,
            {
                proof {
                    crate::json::lemma_view_of_kind(items@[i as int]);
                }
                match &items[i] {
                    JsonValue::Str(s) => {
                        let c = s.clone();
                        out.push(c);
                    },
                    _ => {
                        assert(!(iv[i as int] is Str));
                        return None;
                    },
                }
                i += 1;
            }
            assert(all_strings(iv));
            Some(out)
        },
        _ => None,
    }
}

/// The JSON that a proof is read from.
pub open spec fn proof_shape(v: JsonView) -> bool {
    &&& str_spec(get_spec(v, "type"@)) is Some
    &&& str_spec(get_spec(v, "proofPurpose"@)) is Some
    &&& str_spec(get_spec(v, "created"@)) is Some
    &&& str_spec(get_spec(v, "verificationMethod"@)) is Some
    &&& str_spec(get_spec(v, "jws"@)) is Some
    &&& optional_text_member(v, "controller"@)
    &&& optional_text_member(v, "challenge"@)
    &&& optional_text_member(v, "domain"@)
}

/// `p` holds the members of the JSON proof `v`.
pub open spec fn is_proof_json(p: Proof, v: JsonView) -> bool {
    &&& str_spec(get_spec(v, "type"@)) == Some(p.proof_type@)
    &&& str_spec(get_spec(v, "proofPurpose"@)) == Some(p.proof_purpose@)
    &&& str_spec(get_spec(v, "created"@)) == Some(p.created@)
    &&& str_spec(get_spec(v, "verificationMethod"@)) == Some(p.verification_method@)
    &&& str_spec(get_spec(v, "jws"@)) == Some(p.jws@)
    &&& opt_text_is(p.controller, v, "controller"@)
    &&& opt_text_is(p.challenge, v, "challenge"@)
    &&& opt_text_is(p.domain, v, "domain"@)
}

fn proof_from_json(v: &JsonValue) -> (r: Option<Proof>)
    ensures
        r is Some <==> proof_shape(view_of(*v)),
        r matches Some(p) ==> is_proof_json(p, view_of(*v)),
{
    Some(
        Proof {
            proof_type: text_of(v, "type")?,
            proof_purpose: text_of(v, "proofPurpose")?,
            created: text_of(v, "created")?,
            verification_method: text_of(v, "verificationMethod")?,
            jws: text_of(v, "jws")?,
            controller: optional_text_of(v, "controller")?,
            challenge: optional_text_of(v, "challenge")?,
            domain: optional_text_of(v, "domain")?,
        },
    )
}

/// The `proof` member: absent, null, or a proof.
pub open spec fn proof_member_shape(m: Option<JsonView>) -> bool {
    match m {
        None => true,
        Some(JsonView::Null) => true,
        Some(p) => proof_shape(p),
    }
}

/// The subject member: an object with a `container` member and an optional
/// text `id`.
pub open spec fn subject_shape(m: Option<JsonView>) -> bool {
    match m {
        Some(JsonView::Object(f)) => get_spec(JsonView::Object(f), "container"@) is Some
            && optional_text_member(JsonView::Object(f), "id"@),
        _ => false,
    }
}

/// The issuer member: an object with a text `id`.
pub open spec fn issuer_shape(m: Option<JsonView>) -> bool {
    match m {
        Some(i) => str_spec(get_spec(i, "id"@)) is Some,
        None => false,
    }
}

/// The JSON a credential is read from.
pub open spec fn credential_shape(v: JsonView) -> bool {
    &&& v is Object
    &&& issuer_shape(get_spec(v, "issuer"@))
    &&& str_spec(get_spec(v, "issuanceDate"@)) is Some
    &&& optional_text_member(v, "id"@)
    &&& optional_text_member(v, "expirationDate"@)
    &&& texts_member(v, "@context"@)
    &&& texts_member(v, "type"@)
    &&& proof_member_shape(get_spec(v, "proof"@))
    &&& subject_shape(get_spec(v, "credentialSubject"@))
}

/// `vc` holds every member of the JSON credential `v`.
pub open spec fn is_credential_json(vc: VerifiableCredentials, v: JsonView) -> bool {
    &&& str_spec(get_spec(get_spec(v, "issuer"@)->Some_0, "id"@)) == Some(vc.issuer.id@)
    &&& str_spec(get_spec(v, "issuanceDate"@)) == Some(vc.issuance_date@)
    &&& opt_text_is(vc.id, v, "id"@)
    &&& opt_text_is(vc.expiration_date, v, "expirationDate"@)
    &&& texts_are(vc.context@, v, "@context"@)
    &&& texts_are(vc.credential_type@, v, "type"@)
    &&& opt_text_is(vc.credential_subject.id, get_spec(v, "credentialSubject"@)->Some_0, "id"@)
    &&& get_spec(get_spec(v, "credentialSubject"@)->Some_0, "container"@) == Some(
        view_of(vc.credential_subject.container),
    )
    &&& match vc.proof {
        Some(p) => get_spec(v, "proof"@) matches Some(pv) && is_proof_json(p, pv),
        None => get_spec(v, "proof"@) is None || get_spec(v, "proof"@) == Some(JsonView::Null),
    }
}

/// Reads a credential from its JSON object; the subject's container is
/// moved out of it.
pub fn credential_from_json(v: JsonValue) -> (r: Option<VerifiableCredentials>)
    ensures
        r is Some <==> credential_shape(view_of(v)),
        r matches Some(vc) ==> is_credential_json(vc, view_of(v)),
{
    let ghost whole = view_of(v);
    proof {
        crate::json::lemma_view_of_kind(v);
    }
    let issuer_id = match get(&v, "issuer") {
        Some(i) => text_of(i, "id")?,
        None => return None,
    };
    let issuance_date = text_of(&v, "issuanceDate")?;
    let id = optional_text_of(&v, "id")?;
    let expiration_date = optional_text_of(&v, "expirationDate")?;
    let context = texts_of(&v, "@context")?;
    let credential_type = texts_of(&v, "type")?;
    let pm = get(&v, "proof");
    proof {
        if pm is Some {
            crate::json::lemma_view_of_kind(*pm->Some_0);
        }
    }
    let proof = match pm {
        None => None,
        Some(JsonValue::Null) => None,
        Some(p) => Some(proof_from_json(p)?),
    };
    let fields = match v {
        JsonValue::Object(fields) => fields,
        _ => return None,
    };
    proof {
        lemma_view_of_object(fields);
    }
    let subject = match take_first(fields, "credentialSubject") {
        Some(x) => x,
        None => return None,
    };
    proof {
        crate::json::lemma_view_of_kind(subject);
    }
    let subject_fields = match subject {
        JsonValue::Object(f) => f,
        _ => return None,
    };
    proof {
        lemma_view_of_object(subject_fields);
    }
    let subject_id_ref = JsonValue::Object(subject_fields);
    let subject_id = optional_text_of(&subject_id_ref, "id")?;
    let subject_fields = match subject_id_ref {
        JsonValue::Object(f) => f,
        _ => return None,
    };
    let container = match take_first(subject_fields, "container") {
        Some(c) => c,
        None => return None,
    };
    Some(
        VerifiableCredentials {
            id,
            issuer: Issuer { id: issuer_id },
            issuance_date,
            expiration_date,
            context,
            credential_type,
            credential_subject: CredentialSubject { id: subject_id, container },
            proof,
        },
    )
}

/// An operation that the project asks of the agent.
#[derive(Debug, Clone, PartialEq, Eq)]
pub enum Operation {
    UpdateAgent { binary_url: String },
    UpdateNetworkJson,
}

/// Why an operation cannot run.
#[derive(Debug, Clone, Copy, PartialEq, Eq, Structural)]
pub enum OperationError {
    UnknownOperation,
    MissingBinaryUrl,
    InvalidUrl,
}

/// The download may come from `url`.
pub open spec fn is_allowed_url(url: Seq<char>) -> bool {
    ALLOWED_DOWNLOAD_PREFIX@.len() <= url.len() && url.subrange(
        0,
        ALLOWED_DOWNLOAD_PREFIX@.len() as int,
    ) == ALLOWED_DOWNLOAD_PREFIX@
}

/// An operation, with its texts as character sequences.
pub enum OperationView {
    UpdateAgent(Seq<char>),
    UpdateNetworkJson,
}

/// The view of an operation outcome.
pub open spec fn operation_view(r: Result<Operation, OperationError>) -> Result<OperationView, OperationError> {
    match r {
        Ok(Operation::UpdateAgent { binary_url }) => Ok(OperationView::UpdateAgent(binary_url@)),
        Ok(Operation::UpdateNetworkJson) => Ok(OperationView::UpdateNetworkJson),
        Err(e) => Err(e),
    }
}

/// The operation a container asks for.
pub open spec fn operation_spec(c: JsonView) -> Result<OperationView, OperationError> {
    let op = str_spec(get_spec(c, "operation"@));
    if op == Some("UpdateNetworkJson"@) {
        Ok(OperationView::UpdateNetworkJson)
    } else if op == Some("UpdateAgent"@) {
        match str_spec(get_spec(c, "binary_url"@)) {
            None => Err(OperationError::MissingBinaryUrl),
            Some(u) => if is_allowed_url(u) {
                Ok(OperationView::UpdateAgent(u))
            } else {
                Err(OperationError::InvalidUrl)
            },
        }
    } else {
        Err(OperationError::UnknownOperation)
    }
}

/// The operation a credential's container asks for.
pub fn operation_of(container: &JsonValue) -> (r: Result<Operation, OperationError>)
    ensures
        operation_view(r) == operation_spec(view_of(*container)),
        str_spec(get_spec(view_of(*container), "operation"@)) == Some("UpdateNetworkJson"@) ==> r
            == Ok::<Operation, OperationError>(Operation::UpdateNetworkJson),
        str_spec(get_spec(view_of(*container), "operation"@)) == Some("UpdateAgent"@) ==> (match str_spec(
            get_spec(view_of(*container), "binary_url"@),
        ) {
            None => r == Err::<Operation, OperationError>(OperationError::MissingBinaryUrl),
            Some(u) => if is_allowed_url(u) {
                r matches Ok(Operation::UpdateAgent { binary_url }) && binary_url@ == u
            } else {
                r == Err::<Operation, OperationError>(OperationError::InvalidUrl)
            },
        }),
        str_spec(get_spec(view_of(*container), "operation"@)) != Some("UpdateNetworkJson"@) && str_spec(
            get_spec(view_of(*container), "operation"@),
        ) != Some("UpdateAgent"@) ==> r == Err::<Operation, OperationError>(
            OperationError::UnknownOperation),
{
    proof {
        reveal_strlit("UpdateNetworkJson");
        reveal_strlit("UpdateAgent");
        assert("UpdateNetworkJson"@.len() != "UpdateAgent"@.len());
    }
    let op = match get(container, "operation") {
        Some(JsonValue::Str(s)) => s,
        _ => return Err(OperationError::UnknownOperation),
    };
    if same_text(op.as_str(), "UpdateNetworkJson") {
        return Ok(Operation::UpdateNetworkJson);
    }
    if !same_text(op.as_str(), "UpdateAgent") {
        return Err(OperationError::UnknownOperation);
    }
    let url = match get(container, "binary_url") {
        Some(JsonValue::Str(u)) => u,
        _ => return Err(OperationError::MissingBinaryUrl),
    };
    if UnixResourceManager::is_allowed_download_url(url.as_str()) {
        Ok(Operation::UpdateAgent { binary_url: url.clone() })
    } else {
        Err(OperationError::InvalidUrl)
    }
}

/// What the worker does with one received message.
#[derive(Debug, PartialEq, Eq)]
pub enum MessageDecision {
    /// Verification failed: acknowledge as not processed.
    Reject,
    /// Verified but not from the project: acknowledge and do nothing.
    Ignore,
    /// Verified and from the project: acknowledge and run the operation.
    Run(Operation),
    /// Verified and from the project, but the operation cannot run.
    Refuse(OperationError),
}

/// Decides on a received message, given the verified credential (none when
/// verification failed) and the project's DID.
pub fn decide_message(verified: Option<&VerifiableCredentials>, project_did: &str) -> (r: MessageDecision)
    ensures
        verified is None ==> r == MessageDecision::Reject,
        verified matches Some(vc) ==> (vc.issuer.id@ != project_did@ ==> r
            == MessageDecision::Ignore),
        verified matches Some(vc) ==> (vc.issuer.id@ == project_did@ ==> match operation_spec(
            view_of(vc.credential_subject.container),
        ) {
            Ok(o) => r matches MessageDecision::Run(op) && operation_view(Ok(op)) == Ok::<
                OperationView,
                OperationError,
            >(o),
            Err(e) => r == MessageDecision::Refuse(e),
        }),
{
    match verified {
        None => MessageDecision::Reject,
        Some(vc) => if same_text(vc.issuer.id.as_str(), project_did) {
            match operation_of(&vc.credential_subject.container) {
                Ok(op) => MessageDecision::Run(op),
                Err(e) => MessageDecision::Refuse(e),
            }
        } else {
            MessageDecision::Ignore
        },
    }
}

/// The body of an acknowledgement: `{"is_verified": .., "message_id": ..}`.
pub fn ack_payload(message_id: &str, is_verified: bool) -> (r: JsonValue)
    ensures
        view_of(r) == JsonView::Object(
            seq![("is_verified"@, JsonView::Bool(is_verified)), ("message_id"@, JsonView::Str(message_id@))],
        ),
{
    let mut fields: Vec<(String, JsonValue)> = Vec::new();
    fields.push((String::from_str("is_verified"), JsonValue::Bool(is_verified)));
    fields.push((String::from_str("message_id"), JsonValue::Str(String::from_str(message_id))));
    proof {
        lemma_view_of_object(fields);
        assert(members_view(fields@) =~= seq![
            ("is_verified"@, JsonView::Bool(is_verified)),
            ("message_id"@, JsonView::Str(message_id@)),
        ]);
    }
    JsonValue::Object(fields)
}

/// A message list the worker accepts: a JSON array whose items all have
/// text members `id` and `raw_message`.
pub open spec fn message_list_shape(body: Seq<char>) -> bool {
    match json_parse_of(body) {
        Some(JsonView::Array(items)) => forall|k: int|
            0 <= k < items.len() ==> str_spec(get_spec(#[trigger] items[k], "id"@)) is Some
                && str_spec(get_spec(items[k], "raw_message"@)) is Some,
        _ => false,
    }
}

/// Reads the studio's message list: an array of `{id, raw_message}` objects.
pub fn parse_message_list(body: &str) -> (r: Option<Vec<MessageResponse>>)
    ensures
        r is Some <==> message_list_shape(body@),
        r matches Some(list) ==> (json_parse_of(body@) matches Some(JsonView::Array(items))
            && items.len() == list@.len() && forall|k: int|
            0 <= k < list@.len() ==> str_spec(get_spec(items[k], "id"@)) == Some(
                #[trigger] list@[k].id@,
            ) && str_spec(get_spec(items[k], "raw_message"@)) == Some(list@[k].raw_message@)),
{
    let v = parse_json(body)?;
    proof {
        crate::json::lemma_view_of_kind(v);
    }
    let items = match &v {
        JsonValue::Array(items) => items,
        _ => return None,
    };
    proof {
        lemma_view_of_array(*items);
    }
    let mut out: Vec<MessageResponse> = Vec::new();
    let mut i: usize = 0;
    while i < items.len()
        invariant
            i <= items@.len(),
            out@.len() == i,
            json_parse_of(body@) == Some(view_of(JsonValue::Array(*items))),
            view_of(JsonValue::Array(*items)) == JsonView::Array(items_view(items@)),
            forall|k: int|
                0 <= k < i ==> str_spec(get_spec(items_view(items@)[k], "id"@)) == Some(
                    #[trigger] out@[k].id@,
                ) && str_spec(get_spec(items_view(items@)[k], "raw_message"@)) == Some(
                    out@[k].raw_message@,
                ),
        decreases items@.len() - i,
    {
        assert(items_view(items@)[i as int] == view_of(items@[i as int]));
        let id = match text_of(&items[i], "id") {
            Some(x) => x,
            None => {
                assert(!message_list_shape(body@));
                return None;
            },
        };
        let raw_message = match text_of(&items[i], "raw_message") {
            Some(x) => x,
            None => {
                assert(!message_list_shape(body@));
                return None;
            },
        };
        out.push(MessageResponse { id, raw_message });
        i += 1;
    }
    assert(items_view(items@).len() == out@.len());
    assert forall|k: int| 0 <= k < items_view(items@).len() implies str_spec(
        get_spec(#[trigger] items_view(items@)[k], "id"@),
    ) is Some && str_spec(get_spec(items_view(items@)[k], "raw_message"@)) is Some by {
        assert(str_spec(get_spec(items_view(items@)[k], "id"@)) == Some(out@[k].id@));
    }
    Some(out)
}

} // verus!
