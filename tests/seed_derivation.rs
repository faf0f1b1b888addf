use pixel_seed::error::CoreError;
use pixel_seed::pixels::{checksum, derive_seed, PixelBuffer};

fn buffer(width: u32, height: u32, rgba: Vec<u8>) -> PixelBuffer {
    PixelBuffer::new(width, height, rgba).expect("well-formed buffer")
}

#[test]
fn all_black_four_by_eight_gives_zero_seed() {
    let pixels = buffer(4, 8, vec![0u8; 4 * 32]);
    let (seed, sum) = derive_seed(&pixels).unwrap();
    assert_eq!(seed, [0u8; 32]);
    assert_eq!(sum, 0);
}

#[test]
fn derivation_is_deterministic() {
    let rgba: Vec<u8> = (0..4 * 100).map(|i| (i * 37 % 251) as u8).collect();
    let a = buffer(10, 10, rgba.clone());
    let b = buffer(10, 10, rgba);
    assert_eq!(derive_seed(&a).unwrap(), derive_seed(&b).unwrap());
}

#[test]
fn fewer_than_thirty_two_pixels_is_refused() {
    for n in [1u32, 2, 16, 31] {
        let pixels = buffer(n, 1, vec![7u8; 4 * n as usize]);
        assert_eq!(derive_seed(&pixels), Err(CoreError::InsufficientPixels));
    }
}

#[test]
fn one_pixel_per_seed_byte() {
    let mut rgba = Vec::new();
    for i in 0..32u8 {
        rgba.extend_from_slice(&[i, 0, 0, 0]);
    }
    let (seed, sum) = derive_seed(&buffer(32, 1, rgba)).unwrap();
    let expected: Vec<u8> = (0..32u8).collect();
    assert_eq!(seed.to_vec(), expected);
    assert_eq!(sum, 496);
}

#[test]
fn channels_and_chunks_wrap_modulo_256() {
    // Every pixel is 200 + 100 = 300, i.e. 44; two pixels per chunk give 88.
    let mut rgba = Vec::new();
    for _ in 0..64 {
        rgba.extend_from_slice(&[200, 100, 0, 0]);
    }
    let (seed, sum) = derive_seed(&buffer(8, 8, rgba)).unwrap();
    assert_eq!(seed, [88u8; 32]);
    assert_eq!(sum, 88 * 32);

    // Four pixels of 255 * 4 = 1020, i.e. 252, per chunk: 1008, i.e. 240.
    let pixels = buffer(16, 8, vec![255u8; 4 * 128]);
    let (seed, sum) = derive_seed(&pixels).unwrap();
    assert_eq!(seed, [240u8; 32]);
    assert_eq!(sum, 240 * 32);
}

#[test]
fn remainder_pixels_are_ignored() {
    // 65 pixels: chunks of two, the last pixel is not read.
    let mut rgba = vec![1u8; 4 * 65];
    let (before, _) = derive_seed(&buffer(65, 1, rgba.clone())).unwrap();
    let last = rgba.len() - 4;
    rgba[last..].copy_from_slice(&[9, 9, 9, 9]);
    let (after, _) = derive_seed(&buffer(65, 1, rgba)).unwrap();
    assert_eq!(before, after);
    assert_eq!(before, [8u8; 32]);
}

#[test]
fn pixel_order_matters() {
    let mut rgba = vec![0u8; 4 * 32];
    rgba[0] = 5;
    let (a, _) = derive_seed(&buffer(32, 1, rgba.clone())).unwrap();
    rgba[0] = 0;
    rgba[4 * 31] = 5;
    let (b, _) = derive_seed(&buffer(32, 1, rgba)).unwrap();
    assert_eq!(a[0], 5);
    assert_eq!(b[31], 5);
    assert_ne!(a, b);
}

#[test]
fn checksum_sums_without_wrapping() {
    assert_eq!(checksum(&[255u8; 32]), 8160);
    assert_eq!(checksum(&[0u8; 32]), 0);
}

#[test]
fn malformed_buffers_are_refused() {
    assert!(PixelBuffer::new(0, 5, vec![]).is_none());
    assert!(PixelBuffer::new(2, 2, vec![0u8; 15]).is_none());
    assert!(PixelBuffer::new(2, 2, vec![0u8; 17]).is_none());
    let p = PixelBuffer::new(2, 3, vec![0u8; 24]).unwrap();
    assert_eq!(p.pixel_count(), 6);
}
