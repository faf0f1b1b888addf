use vstd::prelude::*;
use vstd::utf8::{decode_utf8, encode_utf8, valid_utf8};

use crate::crypto::{
    decrypt, encrypt, generate_key, pkcs1_decrypt_of, pkcs1_encrypt_of, public_key, rsa_key_made,
    sha256, sha256_of, string_from_utf8,
};
use crate::error::CoreError;
use crate::hex::{from_hex, hex_decoded, is_lower_hex, lower_hex, to_hex};
use crate::pixels::{byte_sum, checksum, Seed};
use crate::rng::{range_draw_of, ratio_draw_of, DeterministicGenerator, Draw};

verus! {

/// Modulus size, in bits, of the RSA keys generated from a seed. It is far
/// too small for real use and only keeps key generation quick; real
/// deployments need at least 2048 bits.
pub const RSA_BIT_SIZE: usize = 256;

/// The longest plaintext, in bytes, that PKCS#1 v1.5 padding fits into one
/// block of the key: the modulus bytes less eleven bytes of padding.
pub const MAX_PLAINTEXT_LEN: usize = RSA_BIT_SIZE / 8 - 11;

/// How many integers and how many booleans the random draw produces.
pub const DRAW_COUNT: usize = 10;

/// Exclusive upper bound of each drawn integer.
pub const DRAW_BOUND: u32 = 10;

/// The operation to run on a seed.
#[derive(Debug, Clone)]
pub enum Operation {
    Rng,
    Hash { message: String },
    Encrypt { plaintext: String },
    Decrypt { ciphertext: String },
}

/// What the random draw produced: the seed's checksum, then ten integers
/// below ten and ten fair booleans, drawn in that order from one generator.
#[derive(Debug, Clone)]
pub struct RngReport {
    pub checksum: usize,
    pub numbers: Vec<u32>,
    pub bools: Vec<bool>,
}

/// The textual outcome of an operation.
#[derive(Debug, Clone)]
pub enum OperationOutput {
    Random(RngReport),
    Digest(String),
    Encrypted(String),
    Decrypted(String),
}

/// The draws made before the next one: `ranges` integer draws, then
/// `ratios` boolean draws.
pub open spec fn draw_history(ranges: nat, ratios: nat) -> Seq<Draw> {
    Seq::new(ranges, |i: int| Draw::Range(0, DRAW_BOUND)) + Seq::new(
        ratios,
        |i: int| Draw::Ratio(1, 2),
    )
}

/// The integers drawn from a fresh generator seeded with `seed`.
pub open spec fn drawn_numbers(seed: Seq<u8>) -> Seq<u32> {
    Seq::new(
        DRAW_COUNT as nat,
        |i: int| range_draw_of(seed, draw_history(i as nat, 0), 0, DRAW_BOUND),
    )
}

/// The booleans drawn after the integers from the same generator.
pub open spec fn drawn_bools(seed: Seq<u8>) -> Seq<bool> {
    Seq::new(
        DRAW_COUNT as nat,
        |k: int| ratio_draw_of(seed, draw_history(DRAW_COUNT as nat, k as nat), 1, 2),
    )
}

/// The report of a seed: its checksum, and the integers (each in range) and
/// booleans that a generator seeded with it draws, in that order.
pub open spec fn is_report_for(seed: Seq<u8>, rep: RngReport) -> bool {
    &&& rep.checksum == byte_sum(seed)
    &&& rep.numbers@ == drawn_numbers(seed)
    &&& rep.bools@ == drawn_bools(seed)
    &&& rep.numbers@.len() == DRAW_COUNT
    &&& rep.bools@.len() == DRAW_COUNT
    &&& forall|i: int| 0 <= i < rep.numbers@.len() ==> #[trigger] rep.numbers@[i] < DRAW_BOUND
}

/// The bytes that are hashed: the seed first, then the message's UTF-8 bytes.
pub open spec fn hash_input(seed: Seq<u8>, message: Seq<char>) -> Seq<u8> {
    seed + encode_utf8(message)
}

/// The digest text of a message under a seed.
pub open spec fn message_digest(seed: Seq<u8>, message: Seq<char>) -> Seq<char> {
    lower_hex(sha256_of(hash_input(seed, message)))
}

/// Whether the key of a seed can be made: key generation is the first use of
/// a generator seeded with it.
pub open spec fn seed_key_made(seed: Seq<u8>) -> bool {
    rsa_key_made(seed, Seq::empty(), RSA_BIT_SIZE)
}

/// The ciphertext of `msg` under the key of a seed, with the padding drawn
/// from the same generator right after key generation.
pub open spec fn seed_encryption(seed: Seq<u8>, msg: Seq<u8>) -> Option<Seq<u8>> {
    pkcs1_encrypt_of(seed, Seq::empty(), RSA_BIT_SIZE, seed, seq![Draw::RsaKey(RSA_BIT_SIZE)], msg)
}

/// The decryption of `ciphertext` under the key of a seed.
pub open spec fn seed_decryption(seed: Seq<u8>, ciphertext: Seq<u8>) -> Option<Seq<u8>> {
    pkcs1_decrypt_of(seed, Seq::empty(), RSA_BIT_SIZE, ciphertext)
}

/// The outcome of encrypting a text under a seed: the hexadecimal ciphertext,
/// or the stage that failed.
pub open spec fn encryption_result(seed: Seq<u8>, text: Seq<char>) -> Result<Seq<char>, CoreError> {
    if encode_utf8(text).len() > MAX_PLAINTEXT_LEN {
        Err(CoreError::Encryption)
    } else if !seed_key_made(seed) {
        Err(CoreError::KeyGeneration)
    } else {
        match seed_encryption(seed, encode_utf8(text)) {
            Some(c) => Ok(lower_hex(c)),
            None => Err(CoreError::Encryption),
        }
    }
}

/// The outcome of decrypting hexadecimal text under a seed: the plaintext, or
/// the stage that failed.
pub open spec fn decryption_result(seed: Seq<u8>, hex: Seq<char>) -> Result<Seq<char>, CoreError> {
    if !is_lower_hex(encode_utf8(hex)) {
        Err(CoreError::InvalidHexEncoding)
    } else if !seed_key_made(seed) {
        Err(CoreError::KeyGeneration)
    } else {
        match seed_decryption(seed, hex_decoded(encode_utf8(hex))) {
            None => Err(CoreError::Decryption),
            Some(m) => if valid_utf8(m) {
                Ok(decode_utf8(m))
            } else {
                Err(CoreError::InvalidUtf8)
            },
        }
    }
}

/// Draws the integers, then the booleans, from a generator seeded with `seed`.
pub fn draw_report(seed: &Seed) -> (r: RngReport)
    ensures
        is_report_for(seed@, r),
{
    let mut generator = DeterministicGenerator::new(seed);
    let mut numbers: Vec<u32> = Vec::new();
    let mut i: usize = 0;
    while i < DRAW_COUNT
        invariant
            i <= DRAW_COUNT,
            generator.seed() == seed@,
            generator.drawn() == draw_history(i as nat, 0),
            numbers@ == drawn_numbers(seed@).take(i as int),
            forall|j: int| 0 <= j < i ==> #[trigger] numbers@[j] < DRAW_BOUND,
        decreases DRAW_COUNT - i,
    {
        assert(draw_history(i as nat, 0).push(Draw::Range(0, DRAW_BOUND)) =~= draw_history(
            (i + 1) as nat,
            0,
        ));
        numbers.push(generator.draw_range(0, DRAW_BOUND));
        i = i + 1;
        assert(numbers@ =~= drawn_numbers(seed@).take(i as int));
    }
    let mut bools: Vec<bool> = Vec::new();
    let mut k: usize = 0;
    while k < DRAW_COUNT
        invariant
            k <= DRAW_COUNT,
            generator.seed() == seed@,
            generator.drawn() == draw_history(DRAW_COUNT as nat, k as nat),
            bools@ == drawn_bools(seed@).take(k as int),
        decreases DRAW_COUNT - k,
    {
        assert(draw_history(DRAW_COUNT as nat, k as nat).push(Draw::Ratio(1, 2)) =~= draw_history(
            DRAW_COUNT as nat,
            (k + 1) as nat,
        ));
        bools.push(generator.draw_ratio(1, 2));
        k = k + 1;
        assert(bools@ =~= drawn_bools(seed@).take(k as int));
    }
    assert(numbers@ =~= drawn_numbers(seed@));
    assert(bools@ =~= drawn_bools(seed@));
    RngReport { checksum: checksum(seed), numbers, bools }
}

/// The lowercase hexadecimal SHA-256 digest of the seed bytes followed by the
/// message's UTF-8 bytes.
pub fn hash_message(seed: &Seed, message: &str) -> (r: String)
    ensures
        r@ == message_digest(seed@, message@),
        r@.len() == 64,
{
    let bytes: &[u8] = message.as_bytes();
    let mut data: Vec<u8> = Vec::new();
    let mut i: usize = 0;
    while i < 32
        invariant
            i <= 32,
            data@ == seed@.take(i as int),
        decreases 32 - i,
    {
        data.push(seed[i]);
        i = i + 1;
    }
    assert(seed@.take(32) == seed@);
    let mut j: usize = 0;
    while j < bytes.len()
        invariant
            j <= bytes@.len(),
            data@ == seed@ + bytes@.take(j as int),
        decreases bytes@.len() - j,
    {
        data.push(bytes[j]);
        j = j + 1;
        assert(data@ == seed@ + bytes@.take(j as int));
    }
    assert(bytes@.take(bytes@.len() as int) == bytes@);
    let digest: Vec<u8> = sha256(data.as_slice());
    to_hex(digest.as_slice())
}

/// Text from decrypted bytes, or `InvalidUtf8` when they are not UTF-8.
pub fn text_from_bytes(bytes: Vec<u8>) -> (r: Result<String, CoreError>)
    ensures
        r is Ok <==> valid_utf8(bytes@),
        r matches Ok(s) ==> s@ == decode_utf8(bytes@),
        r is Err ==> r == Err::<String, CoreError>(CoreError::InvalidUtf8),
{
    match string_from_utf8(bytes) {
        Ok(s) => Ok(s),
        Err(_) => Err(CoreError::InvalidUtf8),
    }
}

/// Encrypts the plaintext's UTF-8 bytes under the RSA key made from `seed`,
/// with the padding's randomness drawn from the same generator, and returns
/// the ciphertext as lowercase hexadecimal. A plaintext longer than
/// `MAX_PLAINTEXT_LEN` bytes is refused before any key is generated.
pub fn encrypt_message(seed: &Seed, plaintext: &str) -> (r: Result<String, CoreError>)
    ensures
        r matches Ok(h) ==> encryption_result(seed@, plaintext@) == Ok::<Seq<char>, CoreError>(h@),
        r matches Err(e) ==> encryption_result(seed@, plaintext@) == Err::<Seq<char>, CoreError>(e),
        r matches Ok(h) ==> h@.len() == 2 * (RSA_BIT_SIZE / 8),
        r is Ok ==> (seed_encryption(seed@, encode_utf8(plaintext@)) matches Some(c)
            && seed_decryption(seed@, c) == Some(encode_utf8(plaintext@))),
{
    let message: &[u8] = plaintext.as_bytes();
    if message.len() > MAX_PLAINTEXT_LEN {
        return Err(CoreError::Encryption);
    }
    let mut generator = DeterministicGenerator::new(seed);
    let key = match generate_key(&mut generator, RSA_BIT_SIZE) {
        Some(k) => k,
        None => return Err(CoreError::KeyGeneration),
    };
    assert(generator.drawn() =~= seq![Draw::RsaKey(RSA_BIT_SIZE)]);
    let public = public_key(&key);
    let ciphertext = match encrypt(&public, &mut generator, message) {
        Some(c) => c,
        None => return Err(CoreError::Encryption),
    };
    Ok(to_hex(ciphertext.as_slice()))
}

/// Decodes the hexadecimal ciphertext, then makes the RSA key from `seed`
/// exactly as encryption did, decrypts, and reads the result as text.
/// Malformed hexadecimal is refused before any key is generated.
pub fn decrypt_message(seed: &Seed, ciphertext: &str) -> (r: Result<String, CoreError>)
    ensures
        r matches Ok(s) ==> decryption_result(seed@, ciphertext@) == Ok::<Seq<char>, CoreError>(
            s@,
        ),
        r matches Err(e) ==> decryption_result(seed@, ciphertext@) == Err::<Seq<char>, CoreError>(
            e,
        ),
{
    let bytes = match from_hex(ciphertext) {
        Ok(b) => b,
        Err(e) => return Err(e),
    };
    let mut generator = DeterministicGenerator::new(seed);
    let key = match generate_key(&mut generator, RSA_BIT_SIZE) {
        Some(k) => k,
        None => return Err(CoreError::KeyGeneration),
    };
    let plain = match decrypt(&key, bytes.as_slice()) {
        Some(p) => p,
        None => return Err(CoreError::Decryption),
    };
    text_from_bytes(plain)
}

/// Runs one operation on a seed.
pub fn execute(seed: &Seed, op: &Operation) -> (r: Result<OperationOutput, CoreError>)
    ensures
        op is Rng ==> (r matches Ok(OperationOutput::Random(rep)) && is_report_for(seed@, rep)),
        op matches Operation::Hash { message } ==> (r matches Ok(OperationOutput::Digest(h))
            && h@ == message_digest(seed@, message@)),
        op matches Operation::Encrypt { plaintext } ==> (r matches Ok(o) ==> (o matches OperationOutput::Encrypted(h)
            && encryption_result(seed@, plaintext@) == Ok::<Seq<char>, CoreError>(h@))),
        op matches Operation::Encrypt { plaintext } ==> (r matches Err(e) ==> encryption_result(seed@, plaintext@)
            == Err::<Seq<char>, CoreError>(e)),
        op matches Operation::Decrypt { ciphertext } ==> (r matches Ok(o) ==> (o matches OperationOutput::Decrypted(s)
            && decryption_result(seed@, ciphertext@) == Ok::<Seq<char>, CoreError>(s@))),
        op matches Operation::Decrypt { ciphertext } ==> (r matches Err(e) ==> decryption_result(seed@, ciphertext@)
            == Err::<Seq<char>, CoreError>(e)),
{
    match op {
        Operation::Rng => Ok(OperationOutput::Random(draw_report(seed))),
        Operation::Hash { message } => Ok(OperationOutput::Digest(hash_message(seed, message.as_str()))),
        Operation::Encrypt { plaintext } => match encrypt_message(seed, plaintext.as_str()) {
            Ok(h) => Ok(OperationOutput::Encrypted(h)),
            Err(e) => Err(e),
        },
        Operation::Decrypt { ciphertext } => match decrypt_message(seed, ciphertext.as_str()) {
            Ok(s) => Ok(OperationOutput::Decrypted(s)),
            Err(e) => Err(e),
        },
    }
}

} // verus!
