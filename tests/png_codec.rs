use pixel_seed::codec::{decode_png, encode_png};
use pixel_seed::error::CoreError;
use pixel_seed::pixels::{derive_seed, PixelBuffer};

#[test]
fn png_round_trip_keeps_the_seed() {
    let rgba: Vec<u8> = (0..4 * 12 * 9).map(|i| (i * 53 % 256) as u8).collect();
    let pixels = PixelBuffer::new(12, 9, rgba.clone()).unwrap();
    let bytes = encode_png(&pixels).unwrap();
    let decoded = decode_png(&bytes).unwrap();
    assert_eq!(decoded.width, 12);
    assert_eq!(decoded.height, 9);
    assert_eq!(decoded.rgba, rgba);
    assert_eq!(derive_seed(&decoded).unwrap(), derive_seed(&pixels).unwrap());
}

#[test]
fn png_encoding_starts_with_signature() {
    let pixels = PixelBuffer::new(4, 8, vec![0u8; 128]).unwrap();
    let bytes = encode_png(&pixels).unwrap();
    assert_eq!(&bytes[..8], &[0x89, b'P', b'N', b'G', 0x0d, 0x0a, 0x1a, 0x0a]);
}

#[test]
fn garbage_is_a_pixel_source_error() {
    assert_eq!(decode_png(b"not a png").err(), Some(CoreError::PixelSource));
    assert_eq!(decode_png(&[]).err(), Some(CoreError::PixelSource));
}
