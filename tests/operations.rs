use pixel_seed::error::CoreError;
use pixel_seed::hex::{from_hex, to_hex};
use pixel_seed::ops::{
    MAX_PLAINTEXT_LEN, RSA_BIT_SIZE,
    decrypt_message, draw_report, encrypt_message, execute, hash_message, text_from_bytes,
    Operation, OperationOutput,
};
use pixel_seed::pixels::derive_seed;
use pixel_seed::pixels::PixelBuffer;

const ZERO_SEED: [u8; 32] = [0u8; 32];

fn seed_b() -> [u8; 32] {
    let mut s = [0u8; 32];
    for (i, b) in s.iter_mut().enumerate() {
        *b = i as u8;
    }
    s
}

#[test]
fn random_draw_is_reproducible() {
    let pixels = PixelBuffer::new(4, 8, vec![0u8; 128]).unwrap();
    let (seed, _) = derive_seed(&pixels).unwrap();
    let a = draw_report(&seed);
    let b = draw_report(&seed);
    assert_eq!(a.checksum, 0);
    assert_eq!(a.numbers.len(), 10);
    assert_eq!(a.bools.len(), 10);
    assert!(a.numbers.iter().all(|n| *n < 10));
    assert_eq!(a.numbers, b.numbers);
    assert_eq!(a.bools, b.bools);
}

#[test]
fn random_draw_reports_checksum() {
    let r = draw_report(&seed_b());
    assert_eq!(r.checksum, 496);
}

#[test]
fn hash_of_hello_under_zero_seed() {
    assert_eq!(
        hash_message(&ZERO_SEED, "hello"),
        "a41de667c15557cbd8acdd71ef0fef5dc73561374baed8330f8adb0e1424cd62"
    );
}

#[test]
fn hash_of_empty_message_covers_seed() {
    assert_eq!(
        hash_message(&seed_b(), ""),
        "630dcd2966c4336691125448bbb25b4ff412a49c732db2c8abc1b8581bd710dd"
    );
}

#[test]
fn hash_changes_with_seed_or_message() {
    let base = hash_message(&ZERO_SEED, "hello");
    assert_eq!(base, hash_message(&ZERO_SEED, "hello"));
    assert_ne!(base, hash_message(&ZERO_SEED, "hellp"));
    assert_ne!(base, hash_message(&seed_b(), "hello"));
}

#[test]
fn hex_encodes_lowercase_high_nibble_first() {
    assert_eq!(to_hex(&[0x00, 0xab, 0xff, 0x10]), "00abff10");
    assert_eq!(to_hex(&[]), "");
}

#[test]
fn hex_decodes_lowercase() {
    assert_eq!(from_hex("00abff10"), Ok(vec![0x00, 0xab, 0xff, 0x10]));
    assert_eq!(from_hex(""), Ok(vec![]));
}

#[test]
fn malformed_hex_is_refused() {
    assert_eq!(from_hex("abc"), Err(CoreError::InvalidHexEncoding));
    assert_eq!(from_hex("zz"), Err(CoreError::InvalidHexEncoding));
    assert_eq!(from_hex("AB"), Err(CoreError::InvalidHexEncoding));
    assert_eq!(decrypt_message(&ZERO_SEED, "abc"), Err(CoreError::InvalidHexEncoding));
    assert_eq!(decrypt_message(&ZERO_SEED, "0g"), Err(CoreError::InvalidHexEncoding));
}

#[test]
fn encrypt_then_decrypt_round_trips() {
    for seed in [ZERO_SEED, seed_b()] {
        for text in ["hello", "", "twenty-one bytes long"] {
            let hex = encrypt_message(&seed, text).unwrap();
            assert!(hex.chars().all(|c| c.is_ascii_digit() || ('a'..='f').contains(&c)));
            assert_eq!(hex.len(), 64);
            assert_eq!(decrypt_message(&seed, &hex), Ok(text.to_string()));
        }
    }
}

#[test]
fn encryption_is_reproducible_from_the_seed() {
    assert_eq!(encrypt_message(&seed_b(), "hi"), encrypt_message(&seed_b(), "hi"));
}

#[test]
fn plaintext_too_long_is_an_encryption_error() {
    let text = "twenty-two bytes long!";
    assert_eq!(text.len(), 22);
    assert_eq!(encrypt_message(&ZERO_SEED, text), Err(CoreError::Encryption));
}

#[test]
fn decrypting_under_another_seed_fails() {
    let hex = encrypt_message(&ZERO_SEED, "hello").unwrap();
    assert_eq!(decrypt_message(&seed_b(), &hex), Err(CoreError::Decryption));
}

#[test]
fn undecodable_bytes_are_invalid_utf8() {
    assert_eq!(text_from_bytes(vec![0xff, 0xfe]), Err(CoreError::InvalidUtf8));
    assert_eq!(text_from_bytes(b"hi".to_vec()), Ok("hi".to_string()));
}

#[test]
fn execute_dispatches_each_operation() {
    match execute(&ZERO_SEED, &Operation::Rng).unwrap() {
        OperationOutput::Random(r) => assert_eq!(r.checksum, 0),
        _ => panic!("expected a random draw"),
    }
    let hash = execute(&ZERO_SEED, &Operation::Hash { message: "hello".to_string() }).unwrap();
    match hash {
        OperationOutput::Digest(h) => assert_eq!(
            h,
            "a41de667c15557cbd8acdd71ef0fef5dc73561374baed8330f8adb0e1424cd62"
        ),
        _ => panic!("expected a digest"),
    }
    let enc = execute(&seed_b(), &Operation::Encrypt { plaintext: "abc".to_string() }).unwrap();
    let hex = match enc {
        OperationOutput::Encrypted(h) => h,
        _ => panic!("expected a ciphertext"),
    };
    match execute(&seed_b(), &Operation::Decrypt { ciphertext: hex }).unwrap() {
        OperationOutput::Decrypted(s) => assert_eq!(s, "abc"),
        _ => panic!("expected a plaintext"),
    }
    assert_eq!(
        execute(&seed_b(), &Operation::Decrypt { ciphertext: "xyz".to_string() }).err(),
        Some(CoreError::InvalidHexEncoding)
    );
}

#[test]
fn errors_describe_their_stage() {
    assert_eq!(CoreError::InvalidHexEncoding.message(), "failed to decode the hex message");
    assert!(!CoreError::PixelSource.message().is_empty());
}

#[test]
fn plaintext_limit_follows_the_key_size() {
    assert_eq!(RSA_BIT_SIZE, 256);
    assert_eq!(MAX_PLAINTEXT_LEN, 21);
    let longest = "a".repeat(MAX_PLAINTEXT_LEN);
    let hex = encrypt_message(&seed_b(), &longest).unwrap();
    assert_eq!(hex.len(), 64);
    assert_eq!(decrypt_message(&seed_b(), &hex), Ok(longest));
}
