use vstd::prelude::*;
use vstd::utf8::{
    encode_utf8, encode_utf8_decode_utf8, encode_utf8_valid_utf8, is_ascii_chars,
    is_ascii_chars_encode_utf8,
};

use crate::hex::{hex_decoded, hex_digit, is_lower_hex, is_lower_hex_byte, lower_hex, nibble};
use crate::codec::png_rgba_of;
use crate::error::CoreError;
use crate::crypto::sha256_of;
use crate::ops::{
    decryption_result, encryption_result, hash_input, is_report_for, message_digest,
    seed_decryption, seed_encryption, RngReport,
};
use crate::pixels::{byte_sum, chunk_len, fold_pixels, pixel_byte, seed_of, PixelBuffer};

verus! {

/// Seed derivation is a pure function of the pixel bytes: two buffers with
/// the same bytes derive the same seed and the same checksum.
pub proof fn derive_seed_deterministic(a: PixelBuffer, b: PixelBuffer)
    requires
        a.wf(),
        b.wf(),
        a.rgba@ == b.rgba@,
    ensures
        seed_of(a.rgba@) == seed_of(b.rgba@),
        byte_sum(seed_of(a.rgba@)) == byte_sum(seed_of(b.rgba@)),
{
}

/// Folding a run of pixels reads only the bytes of those pixels.
proof fn fold_reads_prefix(a: Seq<u8>, b: Seq<u8>, lo: int, hi: int)
    requires
        0 <= lo,
        4 * hi <= a.len(),
        4 * hi <= b.len(),
        forall|j: int| 0 <= j < 4 * hi ==> a[j] == b[j],
    ensures
        fold_pixels(a, lo, hi) == fold_pixels(b, lo, hi),
    decreases hi - lo,
{
    if lo < hi {
        fold_reads_prefix(a, b, lo, hi - 1);
        let p = hi - 1;
        assert(a[4 * p] == b[4 * p] && a[4 * p + 1] == b[4 * p + 1]);
        assert(a[4 * p + 2] == b[4 * p + 2] && a[4 * p + 3] == b[4 * p + 3]);
        assert(pixel_byte(a, p) == pixel_byte(b, p));
    }
}

/// Seed derivation reads only the first `32 * chunk_len` pixels: buffers with
/// the same chunk length that agree on those pixels derive the same seed,
/// whatever the remaining pixels hold.
pub proof fn seed_ignores_remainder(a: Seq<u8>, b: Seq<u8>)
    requires
        chunk_len(a) == chunk_len(b),
        forall|j: int| 0 <= j < 4 * (32 * chunk_len(a)) ==> a[j] == b[j],
    ensures
        seed_of(a) == seed_of(b),
{
    let c = chunk_len(a) as int;
    assert forall|k: int| 0 <= k < 32 implies seed_of(a)[k] == seed_of(b)[k] by {
        assert(0 <= k * c && (k + 1) * c <= 32 * c) by (nonlinear_arith)
            requires
                0 <= k < 32,
                0 <= c,
        ;
        fold_reads_prefix(a, b, k * c, (k + 1) * c);
    }
    assert(seed_of(a) =~= seed_of(b));
}

/// Distinct seed and message pairs give distinct hash inputs: the input
/// determines both the 32-byte seed and the message.
pub proof fn hash_input_injective(s1: Seq<u8>, m1: Seq<char>, s2: Seq<u8>, m2: Seq<char>)
    requires
        s1.len() == 32,
        s2.len() == 32,
        hash_input(s1, m1) == hash_input(s2, m2),
    ensures
        s1 == s2,
        m1 == m2,
{
    let x = hash_input(s1, m1);
    assert(s1 =~= x.take(32));
    assert(s2 =~= x.take(32));
    assert(encode_utf8(m1) =~= x.skip(32));
    assert(encode_utf8(m2) =~= x.skip(32));
    encode_utf8_decode_utf8(m1);
    encode_utf8_decode_utf8(m2);
}

/// A digit names its value: distinct values below 16 have distinct digits.
proof fn hex_digit_injective(v: u8, w: u8)
    requires
        v < 16,
        w < 16,
        hex_digit(v) == hex_digit(w),
    ensures
        v == w,
{
    assert((hex_digit(v) as u32) == (if v < 10 { v + 48 } else { v + 87 }));
    assert((hex_digit(w) as u32) == (if w < 10 { w + 48 } else { w + 87 }));
}

/// Hexadecimal text determines the bytes it was made from.
pub proof fn lower_hex_injective(a: Seq<u8>, b: Seq<u8>)
    requires
        lower_hex(a) == lower_hex(b),
    ensures
        a == b,
{
    assert(lower_hex(a).len() == 2 * a.len() && lower_hex(b).len() == 2 * b.len());
    assert(a.len() == b.len());
    assert forall|i: int| 0 <= i < a.len() implies a[i] == b[i] by {
        assert((2 * i) / 2 == i && (2 * i) % 2 == 0 && (2 * i + 1) / 2 == i && (2 * i + 1) % 2 == 1);
        assert(lower_hex(a)[2 * i] == hex_digit(a[i] / 16));
        assert(lower_hex(b)[2 * i] == hex_digit(b[i] / 16));
        assert(lower_hex(a)[2 * i + 1] == hex_digit(a[i] % 16));
        assert(lower_hex(b)[2 * i + 1] == hex_digit(b[i] % 16));
        hex_digit_injective(a[i] / 16, b[i] / 16);
        hex_digit_injective(a[i] % 16, b[i] % 16);
    }
    assert(a =~= b);
}

/// A digit is one ASCII byte from `0-9` or `a-f` whose value is the digit's.
proof fn hex_digit_byte(v: u8)
    requires
        v < 16,
    ensures
        '\0' <= hex_digit(v) <= '\u{7f}',
        is_lower_hex_byte(hex_digit(v) as u8),
        nibble(hex_digit(v) as u8) == v,
{
    assert((hex_digit(v) as u32) == (if v < 10 { v + 48 } else { v + 87 }));
}

/// Decoding the hexadecimal text of a byte sequence gives the sequence back.
pub proof fn hex_round_trip(b: Seq<u8>)
    ensures
        is_lower_hex(encode_utf8(lower_hex(b))),
        hex_decoded(encode_utf8(lower_hex(b))) == b,
{
    let t = lower_hex(b);
    assert forall|i: int| 0 <= i < t.len() implies '\0' <= #[trigger] t[i] <= '\u{7f}' by {
        hex_digit_byte(b[i / 2] / 16);
        hex_digit_byte(b[i / 2] % 16);
    }
    assert(is_ascii_chars(t));
    is_ascii_chars_encode_utf8(t);
    let e = encode_utf8(t);
    assert forall|i: int| 0 <= i < e.len() implies is_lower_hex_byte(#[trigger] e[i]) by {
        assert(e[i] == t[i] as u8);
        hex_digit_byte(b[i / 2] / 16);
        hex_digit_byte(b[i / 2] % 16);
    }
    assert forall|i: int| 0 <= i < b.len() implies #[trigger] hex_decoded(e)[i] == b[i] by {
        assert((2 * i) / 2 == i && (2 * i) % 2 == 0 && (2 * i + 1) / 2 == i && (2 * i + 1) % 2 == 1);
        assert(e[2 * i] == t[2 * i] as u8 && e[2 * i + 1] == t[2 * i + 1] as u8);
        hex_digit_byte(b[i] / 16);
        hex_digit_byte(b[i] % 16);
        assert(nibble(e[2 * i]) == b[i] / 16 && nibble(e[2 * i + 1]) == b[i] % 16);
    }
    assert(hex_decoded(e) =~= b);
}

/// Two distinct seed and message pairs share a digest text only through a
/// SHA-256 collision: their hash inputs differ while their digests agree.
pub proof fn equal_digests_need_collision(s1: Seq<u8>, m1: Seq<char>, s2: Seq<u8>, m2: Seq<char>)
    requires
        s1.len() == 32,
        s2.len() == 32,
        s1 != s2 || m1 != m2,
        message_digest(s1, m1) == message_digest(s2, m2),
    ensures
        hash_input(s1, m1) != hash_input(s2, m2),
        sha256_of(hash_input(s1, m1)) == sha256_of(hash_input(s2, m2)),
{
    if hash_input(s1, m1) == hash_input(s2, m2) {
        hash_input_injective(s1, m1, s2, m2);
    }
    lower_hex_injective(sha256_of(hash_input(s1, m1)), sha256_of(hash_input(s2, m2)));
}

/// Saving then loading keeps the pixels: a buffer decoded from PNG bytes that
/// encode another buffer has that buffer's size and bytes, hence its seed.
pub proof fn png_round_trip_keeps_seed(p: PixelBuffer, q: PixelBuffer, bytes: Seq<u8>)
    requires
        p.wf(),
        png_rgba_of(bytes) == Some((p.width, p.height, p.rgba@)),
        png_rgba_of(bytes) == Some((q.width, q.height, q.rgba@)),
    ensures
        q.width == p.width,
        q.height == p.height,
        q.rgba@ == p.rgba@,
        seed_of(q.rgba@) == seed_of(p.rgba@),
{
}

/// The random draw is reproducible: any two reports of one seed hold the same
/// checksum, the same integers and the same booleans.
pub proof fn rng_report_reproducible(seed: Seq<u8>, a: RngReport, b: RngReport)
    requires
        is_report_for(seed, a),
        is_report_for(seed, b),
    ensures
        a.checksum == b.checksum,
        a.numbers@ == b.numbers@,
        a.bools@ == b.bools@,
{
}

/// Encrypting and then decrypting under the same seed gives the plaintext
/// back: when encryption yields hexadecimal text and its ciphertext decrypts
/// under the seed's key to the plaintext's bytes (as encryption guarantees),
/// decrypting that text yields the plaintext.
pub proof fn encrypt_decrypt_round_trip(seed: Seq<u8>, text: Seq<char>, hex: Seq<char>)
    requires
        encryption_result(seed, text) == Ok::<Seq<char>, CoreError>(hex),
        seed_encryption(seed, encode_utf8(text)) matches Some(c) ==> seed_decryption(seed, c)
            == Some(encode_utf8(text)),
    ensures
        decryption_result(seed, hex) == Ok::<Seq<char>, CoreError>(text),
{
    let c = seed_encryption(seed, encode_utf8(text))->Some_0;
    hex_round_trip(c);
    encode_utf8_valid_utf8(text);
    encode_utf8_decode_utf8(text);
}

} // verus!
