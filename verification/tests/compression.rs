use native_primitives::compression::{
    compress_data, compressed_from, decompress_data, CompressionError,
};

#[test]
fn test_compress_decompress() {
    let original_data = b"Hello, world! This is a test string that should compress well because it has repeated patterns. Hello, world! This is a test string that should compress well because it has repeated patterns.";

    let compressed = compress_data(original_data).unwrap();
    let decompressed = decompress_data(&compressed).unwrap();

    assert_eq!(original_data, decompressed.as_slice());
    assert!(compressed.len() < original_data.len());
}

#[test]
fn test_empty_data() {
    let empty_data = b"";
    let compressed = compress_data(empty_data).unwrap();
    let decompressed = decompress_data(&compressed).unwrap();

    assert_eq!(empty_data, decompressed.as_slice());
}

#[test]
fn test_small_data() {
    let small_data = b"x";
    let compressed = compress_data(small_data).unwrap();
    let decompressed = decompress_data(&compressed).unwrap();

    assert_eq!(small_data, decompressed.as_slice());
}

#[test]
fn compressed_blob_is_a_zstd_frame() {
    let blob = compress_data(b"frame me").unwrap();
    assert_eq!(&blob[..4], &[0x28, 0xb5, 0x2f, 0xfd]);
    let empty = compress_data(b"").unwrap();
    assert_eq!(&empty[..4], &[0x28, 0xb5, 0x2f, 0xfd]);
}

#[test]
fn decompress_reads_a_frame_made_by_hand() {
    // magic, a single-segment header with a content size of 5, one last raw
    // block of 5 bytes
    let frame = [
        0x28, 0xb5, 0x2f, 0xfd, 0x20, 0x05, 0x29, 0x00, 0x00, b'h', b'e', b'l', b'l', b'o',
    ];
    assert_eq!(decompress_data(&frame).unwrap(), b"hello");
}

#[test]
fn round_trip_holds_for_many_shapes_of_data() {
    let mut state: u32 = 0x1234_5678;
    let mut noise = Vec::new();
    for _ in 0..5000 {
        state = state.wrapping_mul(1_664_525).wrapping_add(1_013_904_223);
        noise.push((state >> 24) as u8);
    }
    let cases: Vec<Vec<u8>> = vec![
        Vec::new(),
        vec![0],
        vec![0; 100_000],
        (0..=255u8).collect(),
        noise,
        b"abcabcabcabcabcabcabcabcabcabcabcabc".to_vec(),
    ];
    for data in cases {
        let blob = compress_data(&data).unwrap();
        assert_eq!(decompress_data(&blob).unwrap(), data);
    }
}

#[test]
fn incompressible_data_still_compresses() {
    let mut state: u64 = 0x9e37_79b9_7f4a_7c15;
    let mut noise = Vec::new();
    for _ in 0..2048 {
        state ^= state << 13;
        state ^= state >> 7;
        state ^= state << 17;
        noise.push((state >> 32) as u8);
    }
    let blob = compress_data(&noise).unwrap();
    assert!(blob.len() >= noise.len());
    assert!(blob.len() <= noise.len() + 64);
    assert_eq!(decompress_data(&blob).unwrap(), noise);
}

#[test]
fn decompress_rejects_what_is_no_frame() {
    for garbage in [
        &b""[..],
        &b"x"[..],
        &b"this is not a compressed frame at all"[..],
        &[0x28, 0xb5, 0x2f][..],
        &[0x28, 0xb5, 0x2f, 0xfd][..],
        &[0xff; 32][..],
    ] {
        let error = decompress_data(garbage).unwrap_err();
        assert!(matches!(error, CompressionError::DecompressionFailed(_)));
        assert!(error
            .message()
            .starts_with("Decompression failed: Failed to decompress: "));
    }
}

#[test]
fn decompress_rejects_truncated_and_extended_blobs() {
    let data = b"a frame that will be cut short, a frame that will be cut short";
    let blob = compress_data(data).unwrap();
    for len in 0..blob.len() {
        let error = decompress_data(&blob[..len]).unwrap_err();
        assert!(matches!(error, CompressionError::DecompressionFailed(_)));
    }
    let mut extended = blob.clone();
    extended.extend_from_slice(b"trailing bytes");
    assert!(matches!(
        decompress_data(&extended),
        Err(CompressionError::DecompressionFailed(_))
    ));
}

#[test]
fn decompress_rejects_a_corrupted_header() {
    let mut blob = compress_data(b"header").unwrap();
    blob[0] ^= 0xff;
    assert!(matches!(
        decompress_data(&blob),
        Err(CompressionError::DecompressionFailed(_))
    ));
}

#[test]
fn a_failed_encoder_is_compression_failed() {
    let kept = compressed_from(Ok(vec![9, 8, 7])).unwrap();
    assert_eq!(kept, vec![9, 8, 7]);

    let cause = std::io::Error::new(std::io::ErrorKind::Other, "encoder gave up");
    let error = compressed_from(Err(cause)).unwrap_err();
    assert!(matches!(error, CompressionError::CompressionFailed(_)));
    assert_eq!(
        error.message(),
        "Compression failed: Failed to compress: encoder gave up"
    );
}

#[test]
fn compression_error_messages_carry_their_label() {
    let failed = CompressionError::CompressionFailed("why".to_string());
    assert_eq!(failed.message(), "Compression failed: why");
    let refused = CompressionError::DecompressionFailed("why".to_string());
    assert_eq!(refused.message(), "Decompression failed: why");
    let io = CompressionError::IoError("why".to_string());
    assert_eq!(io.message(), "IO error: why");

    let cause = std::io::Error::new(std::io::ErrorKind::Other, "disk on fire");
    let wrapped = CompressionError::from_io(&cause);
    assert!(matches!(wrapped, CompressionError::IoError(_)));
    assert_eq!(wrapped.message(), "IO error: disk on fire");
}

#[test]
fn compress_uses_the_encoder_at_level_three() {
    let mut state: u32 = 0xdead_beef;
    let mut mixed = Vec::new();
    for i in 0..40_000u32 {
        state = state.wrapping_mul(1_103_515_245).wrapping_add(12_345);
        // long runs of text with a little noise, so that the level matters
        if i % 7 == 0 {
            mixed.push((state >> 16) as u8);
        } else {
            mixed.push(b"the quick brown fox jumps over the lazy dog "[(i % 44) as usize]);
        }
    }
    let cases: Vec<Vec<u8>> = vec![
        Vec::new(),
        b"x".to_vec(),
        b"Hello, world! Hello, world! Hello, world!".to_vec(),
        vec![0x55; 10_000],
        (0..=255u8).cycle().take(5000).collect(),
        mixed.clone(),
    ];
    for data in &cases {
        let blob = compress_data(data).unwrap();
        let expected = zstd::stream::encode_all(data.as_slice(), 3).unwrap();
        assert_eq!(blob, expected);
    }
    // the level is not one of the others
    let ours = compress_data(&mixed).unwrap();
    let fastest = zstd::stream::encode_all(mixed.as_slice(), 1).unwrap();
    let strongest = zstd::stream::encode_all(mixed.as_slice(), 19).unwrap();
    assert_ne!(ours, fastest);
    assert_ne!(ours, strongest);
}

#[test]
fn equal_inputs_give_the_same_blob() {
    let text = b"the same bytes in, the same bytes out".to_vec();
    let first = compress_data(&text).unwrap();
    let second = compress_data(&text.clone()).unwrap();
    assert_eq!(first, second);
    let other = compress_data(b"some other bytes").unwrap();
    assert_ne!(first, other);
    assert_eq!(compress_data(b"").unwrap(), compress_data(&[]).unwrap());
}
