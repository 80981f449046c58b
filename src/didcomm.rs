//! DIDComm encrypted messages (JWE in JSON form) and discovery of the
//! sender from the protected header.
use vstd::prelude::*;
use vstd::utf8::{decode_utf8, valid_utf8};
use crate::json::{JsonValue, JsonView, get, get_spec, json_parse_of, parse_json, str_spec, view_of};
use crate::jwk::decode_base64url;
use crate::multihash::base64url_of;
use crate::text::text_from_utf8;

verus! {

/// An encrypted message.
#[derive(Debug, Clone)]
pub struct DidCommMessage {
    pub ciphertext: String,
    pub iv: String,
    pub protected: String,
    pub recipients: Vec<Recipient>,
    pub tag: String,
}

/// One recipient's wrapped key.
#[derive(Debug, Clone)]
pub struct Recipient {
    pub encrypted_key: String,
    pub header: Header,
}

/// Per-recipient header.
#[derive(Debug, Clone)]
pub struct Header {
    pub alg: String,
    pub epk: Epk,
    pub iv: String,
    pub key_ops: Vec<String>,
    pub kid: String,
    pub tag: String,
}

/// Ephemeral public key of the key agreement.
#[derive(Debug, Clone)]
pub struct Epk {
    pub crv: String,
    pub kty: String,
    pub x: String,
}

/// Failures of finding the sender.
#[derive(Debug, Clone, Copy, PartialEq, Eq, Structural)]
pub enum FindSenderError {
    Json,
    FromUtf8,
    Decode,
    Skid,
}

/// The protected header decodes from `protected` to the JSON value `v`.
pub open spec fn protected_header_is(protected: Seq<char>, v: JsonView) -> bool {
    exists|b: Seq<u8>|
        #[trigger] base64url_of(b) == protected && valid_utf8(b) && json_parse_of(decode_utf8(b))
            == Some(v)
}

impl DidCommMessage {
    /// The sender's DID: the `skid` text of the protected header.
    pub fn find_sender(&self) -> (r: Result<String, FindSenderError>)
        ensures
            r matches Ok(s) ==> exists|v: JsonView|
                protected_header_is(self.protected@, v) && str_spec(get_spec(v, "skid"@)) == Some(
                    s@,
                ),
            r matches Err(FindSenderError::Skid) ==> exists|v: JsonView|
                protected_header_is(self.protected@, v) && str_spec(get_spec(v, "skid"@)) is None,
            forall|v: JsonView|
                #[trigger] protected_header_is(self.protected@, v) && str_spec(get_spec(v, "skid"@))
                    is Some ==> r is Ok,
            !crate::jws::decodes(self.protected@) ==> r == Err::<String, FindSenderError>(
                FindSenderError::Decode),
            forall|b: Seq<u8>|
                #[trigger] base64url_of(b) == self.protected@ ==> (!valid_utf8(b) ==> r == Err::<
                    String,
                    FindSenderError,
                >(FindSenderError::FromUtf8)) && (valid_utf8(b) && json_parse_of(decode_utf8(b))
                    is None ==> r == Err::<String, FindSenderError>(FindSenderError::Json)) && (
                valid_utf8(b) && json_parse_of(decode_utf8(b)) is Some && str_spec(
                    get_spec(json_parse_of(decode_utf8(b))->Some_0, "skid"@),
                ) is None ==> r == Err::<String, FindSenderError>(FindSenderError::Skid)),
    {
        let bytes = match decode_base64url(self.protected.as_str()) {
            Some(b) => b,
            None => return Err(FindSenderError::Decode),
        };
        let ghost raw = bytes@;
        let text = match text_from_utf8(bytes) {
            Some(t) => t,
            None => return Err(FindSenderError::FromUtf8),
        };
        let v = match parse_json(text.as_str()) {
            Some(v) => v,
            None => return Err(FindSenderError::Json),
        };
        assert(protected_header_is(self.protected@, view_of(v)));
        match get(&v, "skid") {
            Some(JsonValue::Str(s)) => Ok(s.clone()),
            _ => Err(FindSenderError::Skid),
        }
    }
}

/// An attachment of a plain DIDComm message.
#[derive(Debug, Clone)]
pub struct Attachment {
    pub id: String,
    pub format: Option<String>,
    /// JSON text carried inline.
    pub json: Option<String>,
    pub link: Option<String>,
}

/// A plain message before sealing: sender, recipients, body, attachments.
#[derive(Debug, Clone)]
pub struct MessagePlan {
    pub from: String,
    pub to: Vec<String>,
    pub body: String,
    pub attachments: Vec<Attachment>,
}

/// Failures of reading an opened message.
#[derive(Debug, Clone, Copy, PartialEq, Eq, Structural)]
pub enum OpenMessageError {
    /// The metadata attachment carries no JSON.
    MetadataBodyNotFound,
    /// The body or the metadata is not the expected JSON.
    Json,
}

/// The attachment is the metadata one.
pub open spec fn is_metadata(a: Attachment) -> bool {
    a.format matches Some(f) && f@ == "metadata"@
}

/// The message to seal for `to_did`: from the signed credential's issuer,
/// with the signed credential's JSON text as body and, when metadata is
/// given, one `metadata` attachment holding its JSON text and the optional link.
pub fn plan_message(
    from_did: &str,
    to_did: &str,
    signed_body: String,
    metadata: Option<String>,
    attachment_id: String,
    attachment_link: Option<&str>,
) -> (r: MessagePlan)
    ensures
        r.from@ == from_did@,
        r.to@.len() == 1 && r.to@[0]@ == to_did@,
        r.body@ == signed_body@,
        metadata is None ==> r.attachments@.len() == 0,
        metadata matches Some(m) ==> (r.attachments@.len() == 1 && is_metadata(r.attachments@[0])
            && r.attachments@[0].id@ == attachment_id@ && (r.attachments@[0].json matches Some(j)
            && j@ == m@)),
        metadata is Some && attachment_link is None ==> r.attachments@[0].link is None,
        metadata is Some ==> (attachment_link matches Some(l) ==> (r.attachments@[0].link matches Some(
            x,
        ) && x@ == l@)),
{
    let mut to: Vec<String> = Vec::new();
    to.push(String::from_str(to_did));
    let mut attachments: Vec<Attachment> = Vec::new();
    if let Some(m) = metadata {
        let link = match attachment_link {
            Some(l) => Some(String::from_str(l)),
            None => None,
        };
        attachments.push(
            Attachment {
                id: attachment_id,
                format: Some(String::from_str("metadata")),
                json: Some(m),
                link,
            },
        );
    }
    MessagePlan { from: String::from_str(from_did), to, body: signed_body, attachments }
}

/// The first metadata attachment, if any.
pub fn find_metadata(attachments: &Vec<Attachment>) -> (r: Option<usize>)
    ensures
        r is None <==> forall|k: int| 0 <= k < attachments@.len() ==> !is_metadata(attachments@[k]),
        r matches Some(i) ==> (i < attachments@.len() && is_metadata(attachments@[i as int])
            && forall|k: int| 0 <= k < i ==> !is_metadata(attachments@[k])),
{
    let mut i: usize = 0;
    while i < attachments.len()
        invariant
            i <= attachments@.len(),
            forall|k: int| 0 <= k < i ==> !is_metadata(attachments@[k]),
        decreases attachments@.len() - i,
    {
        if let Some(f) = &attachments[i].format {
            if crate::text::same_text(f.as_str(), "metadata") {
                return Some(i);
            }
        }
        i += 1;
    }
    None
}

/// The metadata of an opened message: the JSON of its first metadata
/// attachment; `None` without such an attachment.
pub fn open_metadata(attachments: &Vec<Attachment>) -> (r: Result<Option<JsonValue>, OpenMessageError>)
    ensures
        (forall|k: int| 0 <= k < attachments@.len() ==> !is_metadata(attachments@[k])) ==> r matches Ok(None),
        r matches Ok(Some(v)) ==> exists|i: int|
            0 <= i < attachments@.len() && is_metadata(attachments@[i]) && (attachments@[i].json matches Some(
                j,
            ) && json_parse_of(j@) == Some(view_of(v))),
        r == Err::<Option<JsonValue>, OpenMessageError>(OpenMessageError::MetadataBodyNotFound)
            ==> exists|i: int|
            0 <= i < attachments@.len() && is_metadata(attachments@[i]) && attachments@[i].json is None,
        forall|i: int|
            0 <= i < attachments@.len() && #[trigger] is_metadata(attachments@[i]) && (forall|k: int|
                0 <= k < i ==> !is_metadata(attachments@[k])) ==> match attachments@[i].json {
                None => r == Err::<Option<JsonValue>, OpenMessageError>(
                    OpenMessageError::MetadataBodyNotFound,
                ),
                Some(j) => match json_parse_of(j@) {
                    Some(v) => r matches Ok(Some(x)) && view_of(x) == v,
                    None => r == Err::<Option<JsonValue>, OpenMessageError>(OpenMessageError::Json),
                },
            },
{
    match find_metadata(attachments) {
        None => Ok(None),
        Some(i) => match &attachments[i].json {
            Some(j) => match parse_json(j.as_str()) {
                Some(v) => Ok(Some(v)),
                None => Err(OpenMessageError::Json),
            },
            None => Err(OpenMessageError::MetadataBodyNotFound),
        },
    }
}

} // verus!
