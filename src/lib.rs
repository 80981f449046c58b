//! Decentralized-identity agent core.
//!
//! Protocol: canonical JSON and multihashes, JWK codec, key pairs, detached
//! ES256K signatures, verifiable credentials, Sidetree create payloads and
//! node answers, DIDComm message framing. Agent: configuration and the
//! handling of received messages. Supervisor: the shared runtime table,
//! its storage layout, update and rollback decisions, Unix helpers.

pub mod text;
pub mod json;
pub mod canon;
pub mod multihash;
pub mod jwk;
pub mod keypair;
pub mod jws;
pub mod credentials;
pub mod payload;
pub mod repository;
pub mod didcomm;

pub mod agent;
pub mod config;
pub mod receive;

pub mod version;
pub mod runtime;
pub mod storage;
pub mod update;
pub mod update_json;
pub mod resource;
pub mod unix;
