use miax::update_json::{update_json_field, UpdateJsonError};
use miax::receive::{ack_payload, parse_message_list};
use miax::credentials::{CredentialSigner, CredentialSubject, Issuer, VerifiableCredentials};
use miax::didcomm::{find_metadata, open_metadata, plan_message, Attachment, OpenMessageError};
use miax::json::{parse_json, print_json, JsonValue};
use miax::keypair::K256KeyPair;
use miax::receive::{credential_from_json, decide_message, operation_of, MessageDecision, Operation, OperationError};

fn credential(issuer: &str, container: &str) -> VerifiableCredentials {
    VerifiableCredentials {
        id: Some("urn:1".to_string()),
        issuer: Issuer { id: issuer.to_string() },
        issuance_date: "2024-05-01T10:00:00Z".to_string(),
        expiration_date: None,
        context: vec!["https://www.w3.org/2018/credentials/v1".to_string()],
        credential_type: vec!["VerifiableCredential".to_string()],
        credential_subject: CredentialSubject { id: None, container: parse_json(container).unwrap() },
        proof: None,
    }
}

fn attachment(format: Option<&str>, json: Option<&str>) -> Attachment {
    Attachment {
        id: "a".to_string(),
        format: format.map(String::from),
        json: json.map(String::from),
        link: None,
    }
}

#[test]
fn plan_carries_metadata_attachment() {
    let plan = plan_message("did:a", "did:b", "{}".to_string(), Some("{\"k\":\"v\"}".to_string()), "c1".to_string(), Some("https://link"));
    assert_eq!(plan.from, "did:a");
    assert_eq!(plan.to, vec!["did:b".to_string()]);
    assert_eq!(plan.attachments.len(), 1);
    assert_eq!(plan.attachments[0].format.as_deref(), Some("metadata"));
    assert_eq!(plan.attachments[0].json.as_deref(), Some("{\"k\":\"v\"}"));
    assert_eq!(plan.attachments[0].link.as_deref(), Some("https://link"));
    let bare = plan_message("did:a", "did:b", "{}".to_string(), None, "c2".to_string(), None);
    assert!(bare.attachments.is_empty());
}

#[test]
fn metadata_is_first_metadata_attachment() {
    let list = vec![attachment(None, Some("1")), attachment(Some("other"), Some("2")), attachment(Some("metadata"), Some("{\"k\":\"v\"}"))];
    assert_eq!(find_metadata(&list), Some(2));
    match open_metadata(&list).unwrap() {
        Some(v) => assert_eq!(print_json(&v), "{\"k\":\"v\"}"),
        None => panic!("metadata expected"),
    }
    assert!(matches!(open_metadata(&vec![attachment(None, None)]), Ok(None)));
    assert_eq!(open_metadata(&vec![attachment(Some("metadata"), None)]).unwrap_err(), OpenMessageError::MetadataBodyNotFound);
    assert_eq!(open_metadata(&vec![attachment(Some("metadata"), Some("{"))]).unwrap_err(), OpenMessageError::Json);
}

#[test]
fn signed_credential_survives_json_round_trip() {
    let pair = K256KeyPair::new(vec![7u8; 32]);
    let signed = CredentialSigner::sign(credential("did:a", "{\"k\":\"v\"}"), "did:a", "signingKey", &pair).unwrap();
    let proof = signed.proof.clone().unwrap();
    let text = format!(
        "{{\"@context\":[\"https://www.w3.org/2018/credentials/v1\"],\"credentialSubject\":{{\"container\":{{\"k\":\"v\"}}}},\"id\":\"urn:1\",\"issuanceDate\":\"2024-05-01T10:00:00Z\",\"issuer\":{{\"id\":\"did:a\"}},\"proof\":{{\"type\":\"{}\",\"proofPurpose\":\"{}\",\"created\":\"{}\",\"verificationMethod\":\"{}\",\"jws\":\"{}\"}},\"type\":[\"VerifiableCredential\"]}}",
        proof.proof_type, proof.proof_purpose, proof.created, proof.verification_method, proof.jws
    );
    let back = credential_from_json(parse_json(&text).unwrap()).unwrap();
    assert_eq!(back.issuer.id, "did:a");
    assert_eq!(back.proof, Some(proof));
    let verified = CredentialSigner::verify(back, &pair.public_key).unwrap();
    assert!(verified.proof.is_none());
}

#[test]
fn operations_from_container() {
    let c = parse_json("{\"operation\":\"UpdateAgent\",\"binary_url\":\"https://github.com/nodecross/nodex/releases/download/v2/a.zip\"}").unwrap();
    assert_eq!(
        operation_of(&c),
        Ok(Operation::UpdateAgent { binary_url: "https://github.com/nodecross/nodex/releases/download/v2/a.zip".to_string() })
    );
    let bad = parse_json("{\"operation\":\"UpdateAgent\",\"binary_url\":\"https://evil.example/a.zip\"}").unwrap();
    assert_eq!(operation_of(&bad), Err(OperationError::InvalidUrl));
    let missing = parse_json("{\"operation\":\"UpdateAgent\"}").unwrap();
    assert_eq!(operation_of(&missing), Err(OperationError::MissingBinaryUrl));
    assert_eq!(operation_of(&parse_json("{\"operation\":\"UpdateNetworkJson\"}").unwrap()), Ok(Operation::UpdateNetworkJson));
    assert_eq!(operation_of(&parse_json("{\"operation\":\"Reboot\"}").unwrap()), Err(OperationError::UnknownOperation));
    assert!(matches!(JsonValue::Null, JsonValue::Null));
}

#[test]
fn messages_are_decided_by_sender() {
    assert_eq!(decide_message(None, "did:p"), MessageDecision::Reject);
    let other = credential("did:x", "{\"operation\":\"UpdateNetworkJson\"}");
    assert_eq!(decide_message(Some(&other), "did:p"), MessageDecision::Ignore);
    let project = credential("did:p", "{\"operation\":\"UpdateNetworkJson\"}");
    assert_eq!(decide_message(Some(&project), "did:p"), MessageDecision::Run(Operation::UpdateNetworkJson));
    let unknown = credential("did:p", "{\"operation\":\"X\"}");
    assert_eq!(decide_message(Some(&unknown), "did:p"), MessageDecision::Refuse(OperationError::UnknownOperation));
}

#[test]
fn ack_body_and_message_list() {
    assert_eq!(print_json(&ack_payload("m1", true)), "{\"is_verified\":true,\"message_id\":\"m1\"}");
    let list = parse_message_list("[{\"id\":\"a\",\"raw_message\":\"{}\"},{\"id\":\"b\",\"raw_message\":\"x\"}]").unwrap();
    assert_eq!(list.len(), 2);
    assert_eq!(list[1].id, "b");
    assert_eq!(list[1].raw_message, "x");
    assert!(parse_message_list("[{\"id\":1}]").is_none());
    assert!(parse_message_list("{}").is_none());
}

#[test]
fn new_credential_has_standard_context() {
    let vc = VerifiableCredentials::new("did:a".to_string(), JsonValue::Null, "2024-01-01T00:00:00Z".to_string());
    assert_eq!(vc.context, vec!["https://www.w3.org/2018/credentials/v1".to_string()]);
    assert_eq!(vc.credential_type, vec!["VerifiableCredential".to_string()]);
    assert!(vc.proof.is_none());
    assert_eq!(vc.issuer.id, "did:a");
}

#[test]
fn json_field_updates_follow_the_path() {
    let doc = parse_json("{\"a\":{\"b\":{\"c\":\"old\"},\"n\":1}}").unwrap();
    let updated = update_json_field(doc, "a.b.c", "new").unwrap();
    assert_eq!(print_json(&updated), "{\"a\":{\"b\":{\"c\":\"new\"},\"n\":1}}");
    let added = update_json_field(parse_json("{\"a\":{}}").unwrap(), "a.d", "x").unwrap();
    assert_eq!(print_json(&added), "{\"a\":{\"d\":\"x\"}}");
    let from_null = update_json_field(parse_json("{\"a\":null}").unwrap(), "a.k", "v").unwrap();
    assert_eq!(print_json(&from_null), "{\"a\":{\"k\":\"v\"}}");
    assert_eq!(
        update_json_field(parse_json("{\"a\":{}}").unwrap(), "x.y", "v").unwrap_err(),
        UpdateJsonError::InvalidFieldPath("x.y".to_string())
    );
    assert_eq!(
        update_json_field(parse_json("{\"a\":[1]}").unwrap(), "a.b", "v").unwrap_err(),
        UpdateJsonError::InvalidFieldPath("a.b".to_string())
    );
    let top = update_json_field(parse_json("{\"k\":1}").unwrap(), "k", "v").unwrap();
    assert_eq!(print_json(&top), "{\"k\":\"v\"}");
}

#[test]
fn signed_credential_json_carries_proof_before_type() {
    let pair = K256KeyPair::new(vec![7u8; 32]);
    let signed = CredentialSigner::sign(credential("did:a", "{\"k\":\"v\"}"), "did:a", "signingKey", &pair).unwrap();
    let jws = signed.proof.clone().unwrap().jws;
    let text = print_json(&signed.into_json());
    let expected = format!(
        "{{\"@context\":[\"https://www.w3.org/2018/credentials/v1\"],\"credentialSubject\":{{\"container\":{{\"k\":\"v\"}}}},\"id\":\"urn:1\",\"issuanceDate\":\"2024-05-01T10:00:00Z\",\"issuer\":{{\"id\":\"did:a\"}},\"proof\":{{\"challenge\":null,\"controller\":null,\"created\":\"2024-05-01T10:00:00Z\",\"domain\":null,\"jws\":\"{}\",\"proofPurpose\":\"authentication\",\"type\":\"EcdsaSecp256k1Signature2019\",\"verificationMethod\":\"did:a#signingKey\"}},\"type\":[\"VerifiableCredential\"]}}",
        jws
    );
    assert_eq!(text, expected);
    let back = credential_from_json(parse_json(&text).unwrap()).unwrap();
    assert!(CredentialSigner::verify(back, &pair.public_key).is_ok());
}

#[test]
fn credential_json_needs_its_shape() {
    assert!(credential_from_json(parse_json("{\"issuer\":{\"id\":\"a\"}}").unwrap()).is_none());
    assert!(credential_from_json(parse_json("[]").unwrap()).is_none());
    let no_container = "{\"@context\":[],\"credentialSubject\":{},\"issuanceDate\":\"t\",\"issuer\":{\"id\":\"a\"},\"type\":[]}";
    assert!(credential_from_json(parse_json(no_container).unwrap()).is_none());
    let ok = "{\"@context\":[],\"credentialSubject\":{\"container\":1},\"issuanceDate\":\"t\",\"issuer\":{\"id\":\"a\"},\"type\":[]}";
    assert!(credential_from_json(parse_json(ok).unwrap()).is_some());
}
