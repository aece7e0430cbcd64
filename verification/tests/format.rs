use sys_voice::format::{
    block_aligned, bytes_per_sample, classify_format, decode_f32_words, decode_i16_block,
    decode_i24_block, decode_i32_block, downmix_frames, scale_divisor, NativeFormat,
};
use sys_voice::AecError;

#[test]
fn format_classification_follows_the_device_report() {
    assert_eq!(classify_format(32, true).unwrap(), NativeFormat::Float32);
    assert_eq!(classify_format(16, false).unwrap(), NativeFormat::Int16);
    assert_eq!(classify_format(24, false).unwrap(), NativeFormat::Int24);
    assert_eq!(classify_format(32, false).unwrap(), NativeFormat::Int32);
    match classify_format(20, false) {
        Err(AecError::BackendError(m)) => assert_eq!(m, "unsupported sample format"),
        other => panic!("expected an explicit error, got {:?}", other.is_ok()),
    }
    match classify_format(8, true) {
        Err(AecError::BackendError(_)) => {}
        other => panic!("expected an explicit error, got {:?}", other.is_ok()),
    }
}

#[test]
fn sample_sizes_and_scales_match_the_formats() {
    assert_eq!(bytes_per_sample(NativeFormat::Float32), 4);
    assert_eq!(bytes_per_sample(NativeFormat::Int16), 2);
    assert_eq!(bytes_per_sample(NativeFormat::Int24), 3);
    assert_eq!(bytes_per_sample(NativeFormat::Int32), 4);
    assert_eq!(scale_divisor(NativeFormat::Float32), 1);
    assert_eq!(scale_divisor(NativeFormat::Int16), 32768);
    assert_eq!(scale_divisor(NativeFormat::Int24), 8388608);
    assert_eq!(scale_divisor(NativeFormat::Int32), 2147483648);
}

#[test]
fn i16_mono_block_decodes_within_tolerance() {
    let reference: [f32; 6] = [0.0, 0.5, -0.5, 0.999, -1.0, 0.376];
    let mut bytes: Vec<u8> = Vec::new();
    for &v in &reference {
        let q = (v * 32768.0).clamp(-32768.0, 32767.0) as i16;
        bytes.extend_from_slice(&q.to_le_bytes());
    }
    let decoded = decode_i16_block(&bytes);
    assert_eq!(decoded.len(), reference.len());
    for (d, &v) in decoded.iter().zip(reference.iter()) {
        let f = *d as f32 / 32768.0;
        assert!((f - v).abs() <= 1.0 / 32768.0, "{} vs {}", f, v);
    }
}

#[test]
fn i16_decoding_is_exact_on_the_integers() {
    let values: [i16; 5] = [0, 1, -1, i16::MAX, i16::MIN];
    let mut bytes: Vec<u8> = Vec::new();
    for &v in &values {
        bytes.extend_from_slice(&v.to_le_bytes());
    }
    let decoded = decode_i16_block(&bytes);
    let expected: Vec<i32> = values.iter().map(|&v| v as i32).collect();
    assert_eq!(decoded, expected);
}

#[test]
fn i24_block_decodes_within_tolerance() {
    let reference: [f32; 5] = [0.0, 0.25, -0.25, 0.9999, -1.0];
    let mut bytes: Vec<u8> = Vec::new();
    for &v in &reference {
        let q = (v * 8388608.0).clamp(-8388608.0, 8388607.0) as i32;
        let le = q.to_le_bytes();
        bytes.extend_from_slice(&le[0..3]);
    }
    let decoded = decode_i24_block(&bytes);
    assert_eq!(decoded.len(), reference.len());
    for (d, &v) in decoded.iter().zip(reference.iter()) {
        let f = *d as f32 / 8388608.0;
        assert!((f - v).abs() <= 1.0 / 8388608.0, "{} vs {}", f, v);
    }
}

#[test]
fn i24_sign_extension_follows_the_top_bit() {
    // 0xFFFFFF is -1; 0x800000 is the minimum; 0x7FFFFF the maximum.
    let bytes: Vec<u8> = vec![0xFF, 0xFF, 0xFF, 0x00, 0x00, 0x80, 0xFF, 0xFF, 0x7F];
    let decoded = decode_i24_block(&bytes);
    assert_eq!(decoded, vec![-1, -8388608, 8388607]);
}

#[test]
fn i32_block_decodes_within_tolerance() {
    let reference: [f32; 4] = [0.0, 0.125, -0.625, 0.875];
    let mut bytes: Vec<u8> = Vec::new();
    for &v in &reference {
        let q = (v as f64 * 2147483648.0).clamp(-2147483648.0, 2147483647.0) as i32;
        bytes.extend_from_slice(&q.to_le_bytes());
    }
    let decoded = decode_i32_block(&bytes);
    assert_eq!(decoded.len(), reference.len());
    for (d, &v) in decoded.iter().zip(reference.iter()) {
        let f = (*d as f64 / 2147483648.0) as f32;
        assert!((f - v).abs() <= 1.0 / 2147483648.0, "{} vs {}", f, v);
    }
}

#[test]
fn i32_extremes_decode_exactly() {
    let values: [i32; 4] = [0, -1, i32::MAX, i32::MIN];
    let mut bytes: Vec<u8> = Vec::new();
    for &v in &values {
        bytes.extend_from_slice(&v.to_le_bytes());
    }
    assert_eq!(decode_i32_block(&bytes), values.to_vec());
}

#[test]
fn f32_words_pass_through_bit_exactly() {
    let reference: [f32; 4] = [0.0, -0.5, 1.0, 3.14159];
    let mut bytes: Vec<u8> = Vec::new();
    for &v in &reference {
        bytes.extend_from_slice(&v.to_le_bytes());
    }
    let words = decode_f32_words(&bytes);
    let back: Vec<f32> = words.iter().map(|&w| f32::from_bits(w)).collect();
    assert_eq!(back, reference.to_vec());
}

#[test]
fn downmix_averages_across_channels() {
    // Two-channel interleaved frames; the sum divided by channel count and
    // scale is the mono mean.
    let samples: Vec<i32> = vec![1000, 3000, -500, 500, 32767, 32767];
    let sums = downmix_frames(&samples, 2);
    assert_eq!(sums, vec![4000, 0, 65534]);
    let mono: Vec<f32> = sums
        .iter()
        .map(|&s| (s as f64 / (2.0 * 32768.0)) as f32)
        .collect();
    assert!((mono[0] - 2000.0 / 32768.0).abs() < 1e-6);
    assert!(mono[1].abs() < 1e-9);
    assert!((mono[2] - 32767.0 / 32768.0).abs() < 1e-6);
}

#[test]
fn downmix_drops_a_trailing_partial_frame() {
    let samples: Vec<i32> = vec![10, 20, 30, 40, 50];
    assert_eq!(downmix_frames(&samples, 2), vec![30, 70]);
    assert_eq!(downmix_frames(&samples, 1), vec![10, 20, 30, 40, 50]);
    assert_eq!(downmix_frames(&samples, 6), Vec::<i128>::new());
}

#[test]
fn alignment_accepts_only_whole_frames() {
    assert!(block_aligned(8, 4));
    assert!(block_aligned(0, 2));
    assert!(!block_aligned(6, 4));
    assert!(!block_aligned(6, 0));
}
