//! SHA-256 multihash and its Base64URL encodings.
use vstd::prelude::*;

verus! {

/// Multihash code of SHA2-256.
pub const MULTIHASH_SHA256_CODE: u8 = 0x12;

/// The SHA-256 digest of a byte sequence.
pub uninterp spec fn sha256_of(m: Seq<u8>) -> Seq<u8>;

/// Symbol `n` (0 to 63) of a Base64 alphabet whose last two symbols are
/// `c62` and `c63`.
pub open spec fn b64_symbol(n: int, c62: char, c63: char) -> char {
    if n < 26 {
        ((65 + n) as u8) as char
    } else if n < 52 {
        ((97 + n - 26) as u8) as char
    } else if n < 62 {
        ((48 + n - 52) as u8) as char
    } else if n == 62 {
        c62
    } else {
        c63
    }
}

/// Unpadded Base64 of `b` (RFC 4648): each three bytes give four symbols,
/// a final one or two bytes give two or three.
pub open spec fn b64_text(b: Seq<u8>, c62: char, c63: char) -> Seq<char>
    decreases b.len(),
{
    if b.len() == 0 {
        seq![]
    } else if b.len() == 1 {
        seq![b64_symbol(b[0] as int / 4, c62, c63), b64_symbol((b[0] as int % 4) * 16, c62, c63)]
    } else if b.len() == 2 {
        seq![
            b64_symbol(b[0] as int / 4, c62, c63),
            b64_symbol((b[0] as int % 4) * 16 + b[1] as int / 16, c62, c63),
            b64_symbol((b[1] as int % 16) * 4, c62, c63),
        ]
    } else {
        seq![
            b64_symbol(b[0] as int / 4, c62, c63),
            b64_symbol((b[0] as int % 4) * 16 + b[1] as int / 16, c62, c63),
            b64_symbol((b[1] as int % 16) * 4 + b[2] as int / 64, c62, c63),
            b64_symbol(b[2] as int % 64, c62, c63),
        ] + b64_text(b.subrange(3, b.len() as int), c62, c63)
    }
}

/// The unpadded Base64URL text of a byte sequence.
#[verifier::opaque]
pub open spec fn base64url_of(b: Seq<u8>) -> Seq<char> {
    b64_text(b, '-', '_')
}

/// The unpadded standard-alphabet Base64 text of a byte sequence.
#[verifier::opaque]
pub open spec fn base64_of(b: Seq<u8>) -> Seq<char> {
    b64_text(b, '+', '/')
}

/// Relies on sha2::Sha256::digest: the 32-byte digest of the message.
#[verifier::external_body]
pub(crate) fn sha256(message: &[u8]) -> (r: Vec<u8>)
    ensures
        r@ == sha256_of(message@),
        r@.len() == 32,
{
    <sha2::Sha256 as sha2::Digest>::digest(message).to_vec()
}

/// A symbol of the Base64URL alphabet.
pub open spec fn is_base64url_char(c: char) -> bool {
    ('A' <= c <= 'Z') || ('a' <= c <= 'z') || ('0' <= c <= '9') || c == '-' || c == '_'
}

/// Length of the unpadded Base64 text of `n` bytes: six bits per symbol.
pub open spec fn base64_len(n: nat) -> nat {
    (8 * n + 5) / 6
}

/// A symbol of the standard Base64 alphabet.
pub open spec fn is_base64_char(c: char) -> bool {
    ('A' <= c <= 'Z') || ('a' <= c <= 'z') || ('0' <= c <= '9') || c == '+' || c == '/'
}

/// Relies on data_encoding::BASE64URL_NOPAD.encode: unpadded Base64URL text,
/// made of the symbols of its alphabet, six bits per symbol.
#[verifier::external_body]
pub(crate) fn encode_base64url(b: &[u8]) -> (r: String)
    ensures
        r@ == base64url_of(b@),
        r@.len() == base64_len(b@.len()),
        forall|i: int| 0 <= i < r@.len() ==> is_base64url_char(#[trigger] r@[i]),
{
    data_encoding::BASE64URL_NOPAD.encode(b)
}

/// Relies on data_encoding::BASE64_NOPAD.encode: unpadded standard Base64
/// text, made of the symbols of its alphabet, six bits per symbol.
#[verifier::external_body]
pub(crate) fn encode_base64(b: &[u8]) -> (r: String)
    ensures
        r@ == base64_of(b@),
        r@.len() == base64_len(b@.len()),
        forall|i: int| 0 <= i < r@.len() ==> is_base64_char(#[trigger] r@[i]),
{
    data_encoding::BASE64_NOPAD.encode(b)
}

/// The multihash of a message: code, digest length, digest.
pub open spec fn multihash_of(m: Seq<u8>) -> Seq<u8> {
    seq![MULTIHASH_SHA256_CODE, 32u8] + sha256_of(m)
}

/// SHA-256 multihash of `message`: `0x12`, `32`, then the 32-byte digest.
pub fn hash(message: &[u8]) -> (r: Vec<u8>)
    ensures
        r@ == multihash_of(message@),
        r@.len() == 34,
        r@[0] == 0x12u8,
        r@[1] == 32u8,
{
    let digest = sha256(message);
    let mut out: Vec<u8> = Vec::with_capacity(34);
    out.push(MULTIHASH_SHA256_CODE);
    out.push(digest.len() as u8);
    let mut i: usize = 0;
    while i < digest.len()
        invariant
            i <= digest@.len(),
            digest@.len() == 32,
            out@ == seq![MULTIHASH_SHA256_CODE, 32u8] + digest@.subrange(0, i as int),
        decreases digest@.len() - i,
    {
        out.push(digest[i]);
        i += 1;
        assert(digest@.subrange(0, i as int) == digest@.subrange(0, i - 1) + seq![digest@[i - 1]]);
    }
    assert(digest@.subrange(0, 32) == digest@);
    out
}

/// Base64URL (unpadded) of the multihash of `message`.
pub fn hash_encode(message: &[u8]) -> (r: String)
    ensures
        r@ == base64url_of(multihash_of(message@)),
        r@.len() == 46,
        forall|i: int| 0 <= i < r@.len() ==> is_base64url_char(#[trigger] r@[i]),
{
    let h = hash(message);
    encode_base64url(h.as_slice())
}

/// Base64URL (unpadded) of the multihash of the SHA-256 of `message`.
pub fn double_hash_encode(message: &[u8]) -> (r: String)
    ensures
        r@ == base64url_of(multihash_of(sha256_of(message@))),
        r@.len() == 46,
        forall|i: int| 0 <= i < r@.len() ==> is_base64url_char(#[trigger] r@[i]),
{
    let first = sha256(message);
    let h = hash(first.as_slice());
    encode_base64url(h.as_slice())
}

} // verus!
