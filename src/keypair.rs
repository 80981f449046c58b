//! Key pairs: secp256k1 for signing, update and recovery; X25519 for
//! encryption. Secrets are raw 32-byte scalars or seeds.
use vstd::prelude::*;
use k256::elliptic_curve::sec1::ToEncodedPoint;
use crate::jwk::{Secp256k1PublicKey, X25519PublicKey, is_uncompressed_point};

verus! {

/// The order of the secp256k1 group, big-endian.
pub open spec fn secp256k1_order() -> Seq<u8> {
    seq![0xffu8, 0xffu8, 0xffu8, 0xffu8, 0xffu8, 0xffu8, 0xffu8, 0xffu8, 0xffu8, 0xffu8, 0xffu8, 0xffu8, 0xffu8, 0xffu8, 0xffu8, 0xfeu8, 0xbau8, 0xaeu8, 0xdcu8, 0xe6u8, 0xafu8, 0x48u8, 0xa0u8, 0x3bu8, 0xbfu8, 0xd2u8, 0x5eu8, 0x8cu8, 0xd0u8, 0x36u8, 0x41u8, 0x41u8]
}

/// `a` is below `b`, both big-endian numbers of the same length.
pub open spec fn be_less(a: Seq<u8>, b: Seq<u8>) -> bool
    decreases a.len(),
{
    if a.len() == 0 || b.len() == 0 {
        false
    } else if a[0] != b[0] {
        a[0] < b[0]
    } else {
        be_less(a.drop_first(), b.drop_first())
    }
}

/// 32 bytes that are a secp256k1 secret scalar: big-endian, non-zero and
/// below the group order.
pub open spec fn is_secp256k1_scalar(secret: Seq<u8>) -> bool {
    &&& secret.len() == 32
    &&& exists|i: int| 0 <= i < 32 && secret[i] != 0
    &&& be_less(secret, secp256k1_order())
}

/// The uncompressed SEC1 public point of a secp256k1 secret scalar.
pub uninterp spec fn secp256k1_public_of(secret: Seq<u8>) -> Seq<u8>;

/// The X25519 public key of a 32-byte secret.
pub uninterp spec fn x25519_public_of(secret: Seq<u8>) -> Seq<u8>;

/// The lowercase hexadecimal digit of a nibble.
pub open spec fn hex_char(n: int) -> char {
    if n == 0 { '0' } else if n == 1 { '1' } else if n == 2 { '2' } else if n == 3 { '3' }
    else if n == 4 { '4' } else if n == 5 { '5' } else if n == 6 { '6' } else if n == 7 { '7' }
    else if n == 8 { '8' } else if n == 9 { '9' } else if n == 10 { 'a' } else if n == 11 { 'b' }
    else if n == 12 { 'c' } else if n == 13 { 'd' } else if n == 14 { 'e' } else { 'f' }
}

/// The lowercase hexadecimal text of a byte sequence: two digits per byte,
/// high nibble first.
pub open spec fn hex_of(b: Seq<u8>) -> Seq<char>
    decreases b.len(),
{
    if b.len() == 0 {
        seq![]
    } else {
        hex_of(b.drop_last()) + seq![hex_char(b.last() as int / 16), hex_char(b.last() as int % 16)]
    }
}

proof fn lemma_hex_len(b: Seq<u8>)
    ensures
        hex_of(b).len() == 2 * b.len(),
    decreases b.len(),
{
    if b.len() > 0 {
        lemma_hex_len(b.drop_last());
    }
}

fn hex_digit_text(n: u8) -> (r: &'static str)
    requires
        n < 16,
    ensures
        r@ == seq![hex_char(n as int)],
{
    proof {
        reveal_strlit("0"); reveal_strlit("1"); reveal_strlit("2"); reveal_strlit("3");
        reveal_strlit("4"); reveal_strlit("5"); reveal_strlit("6"); reveal_strlit("7");
        reveal_strlit("8"); reveal_strlit("9"); reveal_strlit("a"); reveal_strlit("b");
        reveal_strlit("c"); reveal_strlit("d"); reveal_strlit("e"); reveal_strlit("f");
    }
    if n == 0 { "0" } else if n == 1 { "1" } else if n == 2 { "2" } else if n == 3 { "3" }
    else if n == 4 { "4" } else if n == 5 { "5" } else if n == 6 { "6" } else if n == 7 { "7" }
    else if n == 8 { "8" } else if n == 9 { "9" } else if n == 10 { "a" } else if n == 11 { "b" }
    else if n == 12 { "c" } else if n == 13 { "d" } else if n == 14 { "e" } else { "f" }
}

/// Relies on k256::SecretKey::from_slice: for 32 bytes, whether they are a
/// non-zero scalar below the group order.
#[verifier::external_body]
pub(crate) fn check_secp256k1_scalar(secret: &[u8]) -> (r: bool)
    ensures
        secret@.len() == 32 ==> r == is_secp256k1_scalar(secret@),
{
    k256::SecretKey::from_slice(secret).is_ok()
}

/// Relies on k256::SecretKey::public_key: the public point of a valid
/// secret, in uncompressed SEC1 form.
#[verifier::external_body]
fn derive_secp256k1_public(secret: &[u8]) -> (r: Vec<u8>)
    requires
        secret@.len() == 32,
        is_secp256k1_scalar(secret@),
    ensures
        r@ == secp256k1_public_of(secret@),
        is_uncompressed_point(r@),
{
    k256::SecretKey::from_slice(secret)
        .map(|sk| sk.public_key().to_encoded_point(false).as_bytes().to_vec())
        .unwrap_or_default()
}

/// Relies on x25519_dalek::PublicKey::from(&StaticSecret): the public key of a secret.
#[verifier::external_body]
fn derive_x25519_public(secret: &[u8]) -> (r: Vec<u8>)
    requires
        secret@.len() == 32,
    ensures
        r@ == x25519_public_of(secret@),
        r@.len() == 32,
{
    let mut seed = [0u8; 32];
    seed.copy_from_slice(secret);
    x25519_dalek::PublicKey::from(&x25519_dalek::StaticSecret::from(seed)).as_bytes().to_vec()
}

/// Relies on k256::SecretKey::random with the operating system's generator.
#[verifier::external_body]
fn random_secp256k1_secret() -> (r: Vec<u8>)
    ensures
        r@.len() == 32,
        is_secp256k1_scalar(r@),
{
    k256::SecretKey::random(&mut rand_core::OsRng).to_bytes().to_vec()
}

/// Relies on x25519_dalek::StaticSecret::random_from_rng with the operating
/// system's generator.
#[verifier::external_body]
fn random_x25519_secret() -> (r: Vec<u8>)
    ensures
        r@.len() == 32,
{
    x25519_dalek::StaticSecret::random_from_rng(rand_core::OsRng).to_bytes().to_vec()
}

/// Lowercase hexadecimal text, two digits per byte.
pub fn encode_hex(b: &[u8]) -> (r: String)
    ensures
        r@ == hex_of(b@),
        r@.len() == 2 * b@.len(),
{
    let mut out = String::new();
    let mut i: usize = 0;
    while i < b.len()
        invariant
            i <= b@.len(),
            out@ == hex_of(b@.subrange(0, i as int)),
        decreases b@.len() - i,
    {
        let ghost before = out@;
        out.append(hex_digit_text(b[i] / 16));
        out.append(hex_digit_text(b[i] % 16));
        i += 1;
        assert(b@.subrange(0, i as int).drop_last() == b@.subrange(0, i - 1));
        assert(out@ =~= hex_of(b@.subrange(0, i as int)));
    }
    assert(b@.subrange(0, b@.len() as int) == b@);
    proof {
        lemma_hex_len(b@);
    }
    out
}

/// Relies on hex::decode: it accepts the lowercase text of any bytes and
/// yields those bytes.
#[verifier::external_body]
fn decode_hex(s: &str) -> (r: Option<Vec<u8>>)
    ensures
        forall|b: Seq<u8>| #[trigger] hex_of(b) == s@ ==> (r is Some && r->Some_0@ == b),
{
    hex::decode(s).ok()
}

/// A key pair in its stored form: hex of the public and of the secret bytes.
#[derive(Debug, Clone)]
pub struct KeyPairHex {
    pub public_key: String,
    pub secret_key: String,
}

/// Failures of reading a stored key pair.
#[derive(Debug, Clone, Copy, PartialEq, Eq, Structural)]
pub enum KeyPairingError {
    FromHex,
    Crypt,
}

/// A secp256k1 key pair.
#[derive(Debug, Clone)]
pub struct K256KeyPair {
    pub secret_key: Vec<u8>,
    pub public_key: Secp256k1PublicKey,
}

/// An X25519 key pair.
#[derive(Debug, Clone)]
pub struct X25519KeyPair {
    pub secret_key: Vec<u8>,
    pub public_key: X25519PublicKey,
}

impl K256KeyPair {
    /// The secret is a scalar and the public key its point.
    pub open spec fn wf(&self) -> bool {
        &&& self.secret_key@.len() == 32
        &&& is_secp256k1_scalar(self.secret_key@)
        &&& self.public_key.wf()
        &&& self.public_key.sec1@ == secp256k1_public_of(self.secret_key@)
    }

    /// The pair of a secret scalar.
    pub fn new(secret_key: Vec<u8>) -> (r: K256KeyPair)
        requires
            secret_key@.len() == 32,
            is_secp256k1_scalar(secret_key@),
        ensures
            r.wf(),
            r.secret_key@ == secret_key@,
    {
        let sec1 = derive_secp256k1_public(secret_key.as_slice());
        K256KeyPair { secret_key, public_key: Secp256k1PublicKey { sec1 } }
    }

    /// The pair of a secret, if it is a 32-byte secret scalar.
    pub fn from_secret(secret_key: Vec<u8>) -> (r: Option<K256KeyPair>)
        ensures
            r is Some <==> (secret_key@.len() == 32 && is_secp256k1_scalar(secret_key@)),
            r matches Some(p) ==> (p.wf() && p.secret_key@ == secret_key@),
    {
        if secret_key.len() == 32 && check_secp256k1_scalar(secret_key.as_slice()) {
            Some(K256KeyPair::new(secret_key))
        } else {
            None
        }
    }

    /// A pair with a fresh random secret.
    pub fn generate() -> (r: K256KeyPair)
        ensures
            r.wf(),
    {
        K256KeyPair::new(random_secp256k1_secret())
    }

    /// The stored form: hex of the uncompressed public point and of the secret.
    pub fn to_hex_key_pair(&self) -> (r: KeyPairHex)
        ensures
            r.public_key@ == hex_of(self.public_key.sec1@),
            r.secret_key@ == hex_of(self.secret_key@),
            r.public_key@.len() == 2 * self.public_key.sec1@.len(),
            r.secret_key@.len() == 2 * self.secret_key@.len(),
            self.wf() ==> r.secret_key@.len() == 64 && r.public_key@.len() == 130,
    {
        KeyPairHex {
            public_key: encode_hex(self.public_key.sec1.as_slice()),
            secret_key: encode_hex(self.secret_key.as_slice()),
        }
    }

    /// Reads a stored pair: both texts must be hex, the secret a scalar and
    /// the public key a curve point.
    pub fn from_hex_key_pair(kp: &KeyPairHex) -> (r: Result<K256KeyPair, KeyPairingError>)
        ensures
            r matches Ok(p) ==> p.secret_key@.len() == 32 && is_secp256k1_scalar(p.secret_key@)
                && p.public_key.wf(),
            forall|p: K256KeyPair|
                p.wf() && kp.public_key@ == hex_of(p.public_key.sec1@) && #[trigger] hex_of(
                    p.secret_key@,
                ) == kp.secret_key@ ==> (r matches Ok(q) && q.secret_key@ == p.secret_key@
                    && q.public_key.sec1@ == p.public_key.sec1@),
    {
        let secret = match decode_hex(kp.secret_key.as_str()) {
            Some(v) => v,
            None => return Err(KeyPairingError::FromHex),
        };
        let public = match decode_hex(kp.public_key.as_str()) {
            Some(v) => v,
            None => return Err(KeyPairingError::FromHex),
        };
        if secret.len() != 32 || !check_secp256k1_scalar(secret.as_slice()) {
            return Err(KeyPairingError::Crypt);
        }
        match Secp256k1PublicKey::from_sec1_bytes(public.as_slice()) {
            Some(public_key) => Ok(K256KeyPair { secret_key: secret, public_key }),
            None => Err(KeyPairingError::Crypt),
        }
    }
}

impl X25519KeyPair {
    /// The secret has 32 bytes and the public key is derived from it.
    pub open spec fn wf(&self) -> bool {
        &&& self.secret_key@.len() == 32
        &&& self.public_key.bytes@ == x25519_public_of(self.secret_key@)
        &&& self.public_key.wf()
    }

    /// The pair of a 32-byte secret.
    pub fn new(secret_key: Vec<u8>) -> (r: X25519KeyPair)
        requires
            secret_key@.len() == 32,
        ensures
            r.wf(),
            r.secret_key@ == secret_key@,
    {
        let bytes = derive_x25519_public(secret_key.as_slice());
        X25519KeyPair { secret_key, public_key: X25519PublicKey { bytes } }
    }

    /// A pair with a fresh random secret.
    pub fn generate() -> (r: X25519KeyPair)
        ensures
            r.wf(),
    {
        X25519KeyPair::new(random_x25519_secret())
    }

    /// The stored form: hex of the public key and of the secret.
    pub fn to_hex_key_pair(&self) -> (r: KeyPairHex)
        ensures
            r.public_key@ == hex_of(self.public_key.bytes@),
            r.secret_key@ == hex_of(self.secret_key@),
            self.wf() ==> r.secret_key@.len() == 64 && r.public_key@.len() == 64,
    {
        KeyPairHex {
            public_key: encode_hex(self.public_key.bytes.as_slice()),
            secret_key: encode_hex(self.secret_key.as_slice()),
        }
    }

    /// Reads a stored pair: both texts must be hex of 32 bytes.
    pub fn from_hex_key_pair(kp: &KeyPairHex) -> (r: Result<X25519KeyPair, KeyPairingError>)
        ensures
            r matches Ok(p) ==> p.secret_key@.len() == 32 && p.public_key.wf(),
            forall|p: X25519KeyPair|
                p.wf() && kp.public_key@ == hex_of(p.public_key.bytes@) && #[trigger] hex_of(
                    p.secret_key@,
                ) == kp.secret_key@ ==> (r matches Ok(q) && q.secret_key@ == p.secret_key@
                    && q.public_key.bytes@ == p.public_key.bytes@),
    {
        let secret = match decode_hex(kp.secret_key.as_str()) {
            Some(v) => v,
            None => return Err(KeyPairingError::FromHex),
        };
        let public = match decode_hex(kp.public_key.as_str()) {
            Some(v) => v,
            None => return Err(KeyPairingError::FromHex),
        };
        if secret.len() != 32 || public.len() != 32 {
            return Err(KeyPairingError::Crypt);
        }
        Ok(X25519KeyPair { secret_key: secret, public_key: X25519PublicKey { bytes: public } })
    }
}

/// Conversion of key pairs to and from their stored form.
pub trait KeyPair: Sized {
    fn to_hex(&self) -> KeyPairHex;

    fn from_hex(kp: &KeyPairHex) -> Result<Self, KeyPairingError>;
}

impl KeyPair for K256KeyPair {
    fn to_hex(&self) -> KeyPairHex {
        self.to_hex_key_pair()
    }

    fn from_hex(kp: &KeyPairHex) -> Result<Self, KeyPairingError> {
        K256KeyPair::from_hex_key_pair(kp)
    }
}

impl KeyPair for X25519KeyPair {
    fn to_hex(&self) -> KeyPairHex {
        self.to_hex_key_pair()
    }

    fn from_hex(kp: &KeyPairHex) -> Result<Self, KeyPairingError> {
        X25519KeyPair::from_hex_key_pair(kp)
    }
}

/// The four key pairs of an identity.
#[derive(Debug, Clone)]
pub struct KeyPairing {
    pub sign: K256KeyPair,
    pub update: K256KeyPair,
    pub recovery: K256KeyPair,
    pub encrypt: X25519KeyPair,
}

impl KeyPairing {
    pub open spec fn wf(&self) -> bool {
        self.sign.wf() && self.update.wf() && self.recovery.wf() && self.encrypt.wf()
    }

    /// Four fresh key pairs.
    pub fn create_keyring() -> (r: KeyPairing)
        ensures
            r.wf(),
    {
        KeyPairing {
            sign: K256KeyPair::generate(),
            update: K256KeyPair::generate(),
            recovery: K256KeyPair::generate(),
            encrypt: X25519KeyPair::generate(),
        }
    }
}

} // verus!
