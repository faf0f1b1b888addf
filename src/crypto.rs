use vstd::prelude::*;
use vstd::utf8::{decode_utf8, valid_utf8};

use rsa::{Pkcs1v15Encrypt, RsaPrivateKey, RsaPublicKey};
use sha2::{Digest, Sha256};

use crate::rng::{DeterministicGenerator, Draw};

verus! {

/// The SHA-256 digest of a byte sequence.
pub uninterp spec fn sha256_of(data: Seq<u8>) -> Seq<u8>;

/// Relies on sha2::Sha256::digest: the 32-byte SHA-256 digest of the input,
/// a function of the input bytes alone.
#[verifier::external_body]
pub(crate) fn sha256(data: &[u8]) -> (r: Vec<u8>)
    ensures
        r@ == sha256_of(data@),
        r@.len() == 32,
{
    Sha256::digest(data).to_vec()
}

#[verifier::external_type_specification]
#[verifier::external_body]
pub struct ExRsaPrivateKey(rsa::RsaPrivateKey);

#[verifier::external_type_specification]
#[verifier::external_body]
pub struct ExRsaPublicKey(rsa::RsaPublicKey);

#[verifier::external_type_specification]
#[verifier::external_body]
pub struct ExRsaError(rsa::Error);

#[verifier::external_type_specification]
#[verifier::external_body]
pub struct ExFromUtf8Error(std::string::FromUtf8Error);

/// Whether `RsaPrivateKey::new` makes a key of `bits` bits on a generator
/// seeded with `seed` after the draws in `before`.
pub uninterp spec fn rsa_key_made(seed: Seq<u8>, before: Seq<Draw>, bits: usize) -> bool;

/// The PKCS#1 v1.5 encryption of `msg` under the public half of the key made
/// from `key_seed` after `key_before`, with padding drawn from a generator
/// seeded with `seed` after `before`; `None` when encryption fails.
pub uninterp spec fn pkcs1_encrypt_of(
    key_seed: Seq<u8>,
    key_before: Seq<Draw>,
    bits: usize,
    seed: Seq<u8>,
    before: Seq<Draw>,
    msg: Seq<u8>,
) -> Option<Seq<u8>>;

/// The PKCS#1 v1.5 decryption of `ciphertext` under the key made from
/// `key_seed` after `key_before`; `None` when the padding does not check out.
pub uninterp spec fn pkcs1_decrypt_of(
    key_seed: Seq<u8>,
    key_before: Seq<Draw>,
    bits: usize,
    ciphertext: Seq<u8>,
) -> Option<Seq<u8>>;

/// An RSA private key with, as ghost state, the generator state it was made
/// from: the seed, the draws before it, and the modulus size.
pub struct SeededKey {
    key: RsaPrivateKey,
    seed: Ghost<Seq<u8>>,
    before: Ghost<Seq<Draw>>,
    bits: Ghost<usize>,
}

/// The public half of a `SeededKey`, with the same origin.
pub struct SeededPublicKey {
    key: RsaPublicKey,
    seed: Ghost<Seq<u8>>,
    before: Ghost<Seq<Draw>>,
    bits: Ghost<usize>,
}

impl SeededKey {
    /// The seed, earlier draws and modulus size the key was made from.
    pub closed spec fn origin(&self) -> (Seq<u8>, Seq<Draw>, usize) {
        (self.seed@, self.before@, self.bits@)
    }
}

impl SeededPublicKey {
    /// The origin of the private key this is the public half of.
    pub closed spec fn origin(&self) -> (Seq<u8>, Seq<Draw>, usize) {
        (self.seed@, self.before@, self.bits@)
    }
}

/// Relies on rsa::RsaPrivateKey::new: a two-prime key of `bit_size` bits
/// whose primes are drawn from the generator. The generator's output is fixed
/// by its seed and earlier draws, so whether a key comes out is too.
#[verifier::external_body]
fn rsa_new_key(g: &mut DeterministicGenerator, bit_size: usize) -> (r: Result<
    RsaPrivateKey,
    rsa::Error,
>)
    ensures
        r is Ok <==> rsa_key_made(old(g).seed(), old(g).drawn(), bit_size),
        final(g).seed() == old(g).seed(),
        final(g).drawn() == old(g).drawn().push(Draw::RsaKey(bit_size)),
{
    RsaPrivateKey::new(&mut g.rng, bit_size)
}

/// Makes an RSA key of `bit_size` bits from the generator and records where
/// it came from.
pub(crate) fn generate_key(g: &mut DeterministicGenerator, bit_size: usize) -> (r: Option<
    SeededKey,
>)
    ensures
        r is Some <==> rsa_key_made(old(g).seed(), old(g).drawn(), bit_size),
        r matches Some(k) ==> k.origin() == (old(g).seed(), old(g).drawn(), bit_size),
        final(g).seed() == old(g).seed(),
        final(g).drawn() == old(g).drawn().push(Draw::RsaKey(bit_size)),
{
    let ghost seed = g.seed();
    let ghost before = g.drawn();
    match rsa_new_key(g, bit_size) {
        Ok(key) => Some(
            SeededKey { key, seed: Ghost(seed), before: Ghost(before), bits: Ghost(bit_size) },
        ),
        Err(_) => None,
    }
}

/// Relies on `From<&RsaPrivateKey> for RsaPublicKey`: the public half of the key.
#[verifier::external_body]
fn rsa_public_half(key: &RsaPrivateKey) -> (r: RsaPublicKey) {
    RsaPublicKey::from(key)
}

/// The public half of a key, with the key's origin.
pub(crate) fn public_key(key: &SeededKey) -> (r: SeededPublicKey)
    ensures
        r.origin() == key.origin(),
{
    SeededPublicKey {
        key: rsa_public_half(&key.key),
        seed: Ghost(key.seed@),
        before: Ghost(key.before@),
        bits: Ghost(key.bits@),
    }
}

/// Relies on rsa::RsaPublicKey::encrypt with PKCS#1 v1.5 padding, whose
/// random bytes come from the generator: the outcome is fixed by the key, the
/// generator's seed and earlier draws, and the message. A ciphertext is one
/// modulus-sized block, and decrypting it under the matching private key gives
/// the message back.
#[verifier::external_body]
fn rsa_encrypt_pkcs1(key: &SeededPublicKey, g: &mut DeterministicGenerator, msg: &[u8]) -> (r:
    Result<Vec<u8>, rsa::Error>)
    ensures
        r is Err ==> pkcs1_encrypt_of(
            key.origin().0,
            key.origin().1,
            key.origin().2,
            old(g).seed(),
            old(g).drawn(),
            msg@,
        ) is None,
        r matches Ok(c) ==> pkcs1_encrypt_of(
            key.origin().0,
            key.origin().1,
            key.origin().2,
            old(g).seed(),
            old(g).drawn(),
            msg@,
        ) == Some(c@),
        r matches Ok(c) ==> c@.len() == (key.origin().2 + 7) / 8,
        r matches Ok(c) ==> pkcs1_decrypt_of(key.origin().0, key.origin().1, key.origin().2, c@)
            == Some(msg@),
        final(g).seed() == old(g).seed(),
        final(g).drawn() == old(g).drawn().push(
            Draw::RsaPadding(key.origin().2, msg@.len() as usize),
        ),
{
    key.key.encrypt(&mut g.rng, Pkcs1v15Encrypt, msg)
}

/// Encrypts `msg` under the key with padding drawn from the generator.
pub(crate) fn encrypt(key: &SeededPublicKey, g: &mut DeterministicGenerator, msg: &[u8]) -> (r:
    Option<Vec<u8>>)
    ensures
        r is Some <==> pkcs1_encrypt_of(
            key.origin().0,
            key.origin().1,
            key.origin().2,
            old(g).seed(),
            old(g).drawn(),
            msg@,
        ) is Some,
        r matches Some(c) ==> pkcs1_encrypt_of(
            key.origin().0,
            key.origin().1,
            key.origin().2,
            old(g).seed(),
            old(g).drawn(),
            msg@,
        ) == Some(c@) && c@.len() == (key.origin().2 + 7) / 8 && pkcs1_decrypt_of(
            key.origin().0,
            key.origin().1,
            key.origin().2,
            c@,
        ) == Some(msg@),
{
    match rsa_encrypt_pkcs1(key, g, msg) {
        Ok(c) => Some(c),
        Err(_) => None,
    }
}

/// Relies on rsa::RsaPrivateKey::decrypt with PKCS#1 v1.5 padding and no
/// blinding: the outcome is fixed by the key and the ciphertext.
#[verifier::external_body]
fn rsa_decrypt_pkcs1(key: &SeededKey, ciphertext: &[u8]) -> (r: Result<Vec<u8>, rsa::Error>)
    ensures
        r is Err ==> pkcs1_decrypt_of(key.origin().0, key.origin().1, key.origin().2, ciphertext@)
            is None,
        r matches Ok(m) ==> pkcs1_decrypt_of(
            key.origin().0,
            key.origin().1,
            key.origin().2,
            ciphertext@,
        ) == Some(m@),
{
    key.key.decrypt(Pkcs1v15Encrypt, ciphertext)
}

/// Decrypts `ciphertext` under the key.
pub(crate) fn decrypt(key: &SeededKey, ciphertext: &[u8]) -> (r: Option<Vec<u8>>)
    ensures
        r is Some <==> pkcs1_decrypt_of(key.origin().0, key.origin().1, key.origin().2, ciphertext@)
            is Some,
        r matches Some(m) ==> pkcs1_decrypt_of(
            key.origin().0,
            key.origin().1,
            key.origin().2,
            ciphertext@,
        ) == Some(m@),
{
    match rsa_decrypt_pkcs1(key, ciphertext) {
        Ok(m) => Some(m),
        Err(_) => None,
    }
}

/// Relies on String::from_utf8: it succeeds exactly on valid UTF-8, and the
/// string then holds the characters that the bytes encode.
#[verifier::external_body]
pub(crate) fn string_from_utf8(bytes: Vec<u8>) -> (r: Result<
    String,
    std::string::FromUtf8Error,
>)
    ensures
        r is Ok <==> valid_utf8(bytes@),
        r matches Ok(s) ==> s@ == decode_utf8(bytes@),
{
    String::from_utf8(bytes)
}

} // verus!
