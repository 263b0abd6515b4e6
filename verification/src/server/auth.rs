use crate::protocol::error::ProtocolError;
use crate::protocol::types::bigendian::{be_value, pow256};
use rsa::pkcs8::{DecodePrivateKey, EncodePublicKey};
use rsa::rand_core::{OsRng, RngCore};
use sha1::{Digest, Sha1};
use vstd::prelude::*;

verus! {

#[verifier::external_type_specification]
#[verifier::external_body]
pub struct ExRandError(rsa::rand_core::Error);

/// The number that `b` spells in big-endian two's complement.
pub open spec fn signed_be(b: Seq<u8>) -> int {
    if b.len() > 0 && b[0] >= 128 {
        be_value(b) - pow256(b.len())
    } else {
        be_value(b) as int
    }
}

/// The lower-case hexadecimal digit for `d`, below sixteen.
pub open spec fn hex_digit(d: nat) -> char {
    if d < 10 {
        (d + 48) as char
    } else {
        (d + 87) as char
    }
}

/// The digits of `n` in base sixteen, lower case, without leading zeros.
pub open spec fn hex_digits(n: nat) -> Seq<char>
    decreases n,
{
    if n < 16 {
        seq![hex_digit(n)]
    } else {
        hex_digits(n / 16).push(hex_digit(n % 16))
    }
}

/// `n` in base sixteen, with a minus sign in front when it is negative.
pub open spec fn hex_signed(n: int) -> Seq<char> {
    if n < 0 {
        seq!['-'] + hex_digits((-n) as nat)
    } else {
        hex_digits(n as nat)
    }
}

/// The SHA-1 digest of `data`.
pub uninterp spec fn spec_sha1(data: Seq<u8>) -> Seq<u8>;

/// The server id that the session server checks for a login: the SHA-1 digest of
/// the (empty) server name, the shared secret and the server's public key, read
/// as a signed big-endian number and written in hexadecimal.
pub open spec fn spec_server_hash(shared_secret: Seq<u8>, public_key_der: Seq<u8>) -> Seq<char> {
    hex_signed(signed_be(spec_sha1(shared_secret + public_key_der)))
}

/// sha1: `Sha1::new`, `update` with `data`, `finalize`. The digest is named, not
/// stated; its length is twenty bytes.
#[verifier::external_body]
fn sha1_digest(data: &[u8]) -> (res: Vec<u8>)
    ensures
        res@ == spec_sha1(data@),
        res@.len() == 20,
{
    let mut hasher = Sha1::new();
    hasher.update(data);
    hasher.finalize().to_vec()
}

/// num_bigint: `BigInt::from_signed_bytes_be(bytes).to_str_radix(16)`, the
/// two's-complement big-endian number written in lower-case hexadecimal with a
/// leading minus sign when negative.
#[verifier::external_body]
fn signed_hex(bytes: &[u8]) -> (res: std::string::String)
    ensures
        res@ == hex_signed(signed_be(bytes@)),
{
    num_bigint::BigInt::from_signed_bytes_be(bytes).to_str_radix(16)
}

/// rand_core: `OsRng.try_fill_bytes` on four bytes: bytes from the operating
/// system's source of randomness, or its error when it gives none. Nothing is
/// stated of the bytes.
#[verifier::external_body]
pub(crate) fn random_token() -> (res: Result<[u8; 4], rsa::rand_core::Error>) {
    let mut token = [0u8; 4];
    match OsRng.try_fill_bytes(&mut token) {
        Ok(()) => Ok(token),
        Err(e) => Err(e),
    }
}

/// The PKCS#1 v1.5 decryption of `ciphertext` with the RSA private key whose
/// PKCS#8 DER encoding is `key`; `None` when the key does not decode or the
/// ciphertext does not decrypt.
pub uninterp spec fn spec_rsa_decrypt(key: Seq<u8>, ciphertext: Seq<u8>) -> Option<Seq<u8>>;

/// The SPKI DER encoding of the public half of the RSA private key whose PKCS#8
/// DER encoding is `key`; `None` when the key does not decode or does not encode.
pub uninterp spec fn spec_public_key_der(key: Seq<u8>) -> Option<Seq<u8>>;

/// rsa: `RsaPrivateKey::from_pkcs8_der(key)`, then `decrypt` with PKCS#1 v1.5
/// padding and no blinding, which makes the result a function of the key and the
/// ciphertext alone. The result is named, not stated; the two errors are dropped.
#[verifier::external_body]
pub(crate) fn rsa_decrypt(key: &[u8], ciphertext: &[u8]) -> (res: Option<Vec<u8>>)
    ensures
        match res {
            Some(plain) => spec_rsa_decrypt(key@, ciphertext@) == Some(plain@),
            None => spec_rsa_decrypt(key@, ciphertext@) is None,
        },
{
    rsa::RsaPrivateKey::from_pkcs8_der(key).ok()?.decrypt(rsa::Pkcs1v15Encrypt, ciphertext).ok()
}

/// rsa: `RsaPrivateKey::from_pkcs8_der(key)`, then `to_public_key()` and
/// `to_public_key_der()`, the DER encoding of the public half of the key. The
/// result is named, not stated; the two errors are dropped.
#[verifier::external_body]
pub(crate) fn public_key_der(key: &[u8]) -> (res: Option<Vec<u8>>)
    ensures
        match res {
            Some(der) => spec_public_key_der(key@) == Some(der@),
            None => spec_public_key_der(key@) is None,
        },
{
    let public_key = rsa::RsaPrivateKey::from_pkcs8_der(key).ok()?.to_public_key();
    Some(public_key.to_public_key_der().ok()?.to_vec())
}

/// The server id hash for a login: SHA-1 over the empty server name, the shared
/// secret and the public key, as a signed hexadecimal number.
pub fn server_id_hash(shared_secret: &[u8], public_key_der: &[u8]) -> (res: std::string::String)
    ensures
        res@ == spec_server_hash(shared_secret@, public_key_der@),
{
    let mut data: Vec<u8> = Vec::new();
    crate::protocol::utils::write_all(&mut data, "".as_bytes());
    crate::protocol::utils::write_all(&mut data, shared_secret);
    crate::protocol::utils::write_all(&mut data, public_key_der);
    proof {
        reveal_strlit("");
        assert(data@ =~= shared_secret@ + public_key_der@);
    }
    let hash = sha1_digest(data.as_slice());
    signed_hex(hash.as_slice())
}

/// Whether the decrypted verify token is the one that was sent.
pub fn token_matches(deciphered: &[u8], token: &[u8; 4]) -> (res: bool)
    ensures
        res == (deciphered@ == token@),
{
    if deciphered.len() != 4 {
        return false;
    }
    let mut i: usize = 0;
    while i < 4
        invariant
            i <= 4,
            deciphered@.len() == 4,
            token@.len() == 4,
            forall|j: int| 0 <= j < i ==> deciphered@[j] == token@[j],
        decreases 4 - i,
    {
        if deciphered[i] != token[i] {
            return false;
        }
        i = i + 1;
    }
    assert(deciphered@ =~= token@);
    true
}

} // verus!
