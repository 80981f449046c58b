//! Agent configuration: the server endpoints and the stored identity
//! (DID, key pairs, DIDComm limits).
use vstd::prelude::*;
use crate::keypair::{K256KeyPair, KeyPairHex, KeyPairing, X25519KeyPair, hex_of};

verus! {

/// Sidetree node used when none is configured.
pub const DEFAULT_DID_HTTP_ENDPOINT: &'static str = "https://did.miacross.io";

/// DIDComm body size limit used when none is configured: 3 MiB.
pub const DEFAULT_HTTP_BODY_SIZE_LIMIT: usize = 3145728;

/// Version of the stored configuration layout.
pub const SCHEMA_VERSION: u8 = 1;

/// Endpoints of the services the agent talks to.
#[derive(Debug, Clone)]
pub struct ServerConfig {
    pub did_http_endpoint: String,
}

impl ServerConfig {
    /// The configuration for a configured endpoint, or the default one.
    pub fn new(did_http_endpoint: Option<String>) -> (r: ServerConfig)
        ensures
            did_http_endpoint matches Some(e) ==> r.did_http_endpoint@ == e@,
            did_http_endpoint is None ==> r.did_http_endpoint@ == DEFAULT_DID_HTTP_ENDPOINT@,
    {
        match did_http_endpoint {
            Some(e) => ServerConfig { did_http_endpoint: e },
            None => ServerConfig { did_http_endpoint: String::from_str(DEFAULT_DID_HTTP_ENDPOINT) },
        }
    }

    /// The Sidetree node's address.
    pub fn did_http_endpoint(&self) -> (r: String)
        ensures
            r@ == self.did_http_endpoint@,
    {
        self.did_http_endpoint.clone()
    }
}

/// The server configuration, from the configured endpoint if any.
pub fn server_config(did_http_endpoint: Option<String>) -> (r: ServerConfig)
    ensures
        did_http_endpoint matches Some(e) ==> r.did_http_endpoint@ == e@,
        did_http_endpoint is None ==> r.did_http_endpoint@ == DEFAULT_DID_HTTP_ENDPOINT@,
{
    ServerConfig::new(did_http_endpoint)
}

/// DIDComm settings.
#[derive(Debug, Clone, Copy, PartialEq, Eq, Structural)]
pub struct DidCommConfig {
    pub http_body_size_limit: usize,
}

/// The stored key pairs, each optional.
#[derive(Debug, Clone)]
pub struct KeyPairsConfig {
    pub sign: Option<KeyPairHex>,
    pub update: Option<KeyPairHex>,
    pub recovery: Option<KeyPairHex>,
    pub encrypt: Option<KeyPairHex>,
}

/// The whole stored configuration.
#[derive(Debug, Clone)]
pub struct ConfigRoot {
    pub did: Option<String>,
    pub key_pairs: KeyPairsConfig,
    pub didcomm: DidCommConfig,
    pub is_initialized: bool,
    pub schema_version: u8,
}

/// Failures of loading the stored identity.
#[derive(Debug, Clone, Copy, PartialEq, Eq, Structural)]
pub enum KeyStoreError {
    KeyNotFound,
    DidNotFound,
}

/// `h` is the stored form of the secp256k1 pair `p`.
pub open spec fn stores_k256(h: Option<KeyPairHex>, p: K256KeyPair) -> bool {
    h matches Some(x) && x.public_key@ == hex_of(p.public_key.sec1@) && x.secret_key@ == hex_of(
        p.secret_key@,
    )
}

/// `h` is the stored form of the X25519 pair `p`.
pub open spec fn stores_x25519(h: Option<KeyPairHex>, p: X25519KeyPair) -> bool {
    h matches Some(x) && x.public_key@ == hex_of(p.public_key.bytes@) && x.secret_key@ == hex_of(
        p.secret_key@,
    )
}

/// Reads one secp256k1 slot; missing or unreadable pairs count as absent.
pub fn load_k256_key_pair(kind: &Option<KeyPairHex>) -> (r: Option<K256KeyPair>)
    ensures
        kind is None ==> r is None,
        forall|p: K256KeyPair|
            p.wf() && #[trigger] stores_k256(*kind, p) ==> (r matches Some(q) && q.secret_key@
                == p.secret_key@ && q.public_key.sec1@ == p.public_key.sec1@),
{
    match kind {
        Some(h) => match K256KeyPair::from_hex_key_pair(h) {
            Ok(p) => Some(p),
            Err(_) => None,
        },
        None => None,
    }
}

/// Reads the X25519 slot; missing or unreadable pairs count as absent.
pub fn load_x25519_key_pair(kind: &Option<KeyPairHex>) -> (r: Option<X25519KeyPair>)
    ensures
        kind is None ==> r is None,
        forall|p: X25519KeyPair|
            p.wf() && #[trigger] stores_x25519(*kind, p) ==> (r matches Some(q) && q.secret_key@
                == p.secret_key@ && q.public_key.bytes@ == p.public_key.bytes@),
{
    match kind {
        Some(h) => match X25519KeyPair::from_hex_key_pair(h) {
            Ok(p) => Some(p),
            Err(_) => None,
        },
        None => None,
    }
}

impl KeyPairsConfig {
    /// The stored form of a key ring, each pair in its own slot.
    pub fn from_keyring(keyring: &KeyPairing) -> (r: KeyPairsConfig)
        ensures
            stores_k256(r.sign, keyring.sign),
            stores_k256(r.update, keyring.update),
            stores_k256(r.recovery, keyring.recovery),
            stores_x25519(r.encrypt, keyring.encrypt),
    {
        KeyPairsConfig {
            sign: Some(keyring.sign.to_hex_key_pair()),
            update: Some(keyring.update.to_hex_key_pair()),
            recovery: Some(keyring.recovery.to_hex_key_pair()),
            encrypt: Some(keyring.encrypt.to_hex_key_pair()),
        }
    }

    /// Loads the key ring, each pair from its own slot.
    pub fn load_keyring(&self) -> (r: Result<KeyPairing, KeyStoreError>)
        ensures
            self.sign is None || self.update is None || self.recovery is None || self.encrypt is None
                ==> r == Err::<KeyPairing, KeyStoreError>(KeyStoreError::KeyNotFound),
            forall|k: KeyPairing|
                #![trigger k.wf(), stores_k256(self.sign, k.sign)]
                k.wf() && stores_k256(self.sign, k.sign) && stores_k256(self.update, k.update)
                    && stores_k256(self.recovery, k.recovery) && stores_x25519(
                    self.encrypt,
                    k.encrypt,
                ) ==> (r matches Ok(l) && l.sign.secret_key@ == k.sign.secret_key@
                    && l.update.secret_key@ == k.update.secret_key@ && l.recovery.secret_key@
                    == k.recovery.secret_key@ && l.encrypt.secret_key@ == k.encrypt.secret_key@
                    && l.sign.public_key.sec1@ == k.sign.public_key.sec1@
                    && l.update.public_key.sec1@ == k.update.public_key.sec1@
                    && l.recovery.public_key.sec1@ == k.recovery.public_key.sec1@
                    && l.encrypt.public_key.bytes@ == k.encrypt.public_key.bytes@),
    {
        let sign = match load_k256_key_pair(&self.sign) {
            Some(p) => p,
            None => return Err(KeyStoreError::KeyNotFound),
        };
        let update = match load_k256_key_pair(&self.update) {
            Some(p) => p,
            None => return Err(KeyStoreError::KeyNotFound),
        };
        let recovery = match load_k256_key_pair(&self.recovery) {
            Some(p) => p,
            None => return Err(KeyStoreError::KeyNotFound),
        };
        let encrypt = match load_x25519_key_pair(&self.encrypt) {
            Some(p) => p,
            None => return Err(KeyStoreError::KeyNotFound),
        };
        Ok(KeyPairing { sign, update, recovery, encrypt })
    }
}

impl ConfigRoot {
    /// A configuration with nothing stored yet; `did` and the body limit
    /// come from the environment when set.
    pub fn new(did: Option<String>, http_body_size_limit: Option<usize>) -> (r: ConfigRoot)
        ensures
            did matches Some(d) ==> (r.did matches Some(x) && x@ == d@),
            did is None ==> (r.did matches Some(x) && x@ == "did:example:dummy"@),
            r.key_pairs.sign is None && r.key_pairs.update is None && r.key_pairs.recovery is None
                && r.key_pairs.encrypt is None,
            http_body_size_limit matches Some(n) ==> r.didcomm.http_body_size_limit == n,
            http_body_size_limit is None ==> r.didcomm.http_body_size_limit
                == DEFAULT_HTTP_BODY_SIZE_LIMIT,
            !r.is_initialized,
            r.schema_version == SCHEMA_VERSION,
    {
        let did = match did {
            Some(d) => Some(d),
            None => Some(String::from_str("did:example:dummy")),
        };
        let limit = match http_body_size_limit {
            Some(n) => n,
            None => DEFAULT_HTTP_BODY_SIZE_LIMIT,
        };
        ConfigRoot {
            did,
            key_pairs: KeyPairsConfig { sign: None, update: None, recovery: None, encrypt: None },
            didcomm: DidCommConfig { http_body_size_limit: limit },
            is_initialized: false,
            schema_version: SCHEMA_VERSION,
        }
    }

    /// Records a created identity: its key ring and DID; marks the
    /// configuration initialized.
    pub fn save_identity(&mut self, keyring: &KeyPairing, did: &str)
        ensures
            stores_k256(final(self).key_pairs.sign, keyring.sign),
            stores_k256(final(self).key_pairs.update, keyring.update),
            stores_k256(final(self).key_pairs.recovery, keyring.recovery),
            stores_x25519(final(self).key_pairs.encrypt, keyring.encrypt),
            final(self).did matches Some(d) && d@ == did@,
            final(self).is_initialized,
            final(self).didcomm == old(self).didcomm,
            final(self).schema_version == old(self).schema_version,
    {
        self.key_pairs = KeyPairsConfig::from_keyring(keyring);
        self.did = Some(String::from_str(did));
        self.is_initialized = true;
    }

    /// The stored DID.
    pub fn get_identifier(&self) -> (r: Result<String, KeyStoreError>)
        ensures
            self.did matches Some(d) ==> (r matches Ok(x) && x@ == d@),
            self.did is None ==> r == Err::<String, KeyStoreError>(KeyStoreError::DidNotFound),
    {
        match &self.did {
            Some(d) => Ok(d.clone()),
            None => Err(KeyStoreError::DidNotFound),
        }
    }
}

} // verus!
