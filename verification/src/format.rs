//! Sample format normalization.
//!
//! A native engine delivers raw byte blocks in one of four little-endian
//! sample formats. The canonical stream is single-channel 32-bit float in
//! [-1, 1]; this module does the exact, integer part of the conversion:
//! detecting the format, decoding bytes into integer sample values (or, for
//! float input, into the raw 32-bit words), and downmixing frames to mono by
//! summing across channels. The one remaining step — dividing by the
//! format's scale to land in [-1, 1] — is a floating-point operation that
//! the caller performs on the decoded values.

use vstd::prelude::*;
use vstd::arithmetic::div_mod::{lemma_fundamental_div_mod, lemma_mod_division_less_than_divisor};

use crate::errors::AecError;

verus! {

/// The sample encodings a native engine may deliver.
#[derive(Debug, Clone, Copy, PartialEq, Eq, Structural)]
pub enum NativeFormat {
    /// 32-bit IEEE float, passed through as raw words.
    Float32,
    /// 16-bit signed integer; scale 32768.
    Int16,
    /// 24-bit signed integer in three bytes; scale 8388608.
    Int24,
    /// 32-bit signed integer; scale 2147483648.
    Int32,
}

/// Which format a (bits per sample, is-float) pair denotes, if any.
pub open spec fn format_of(bits: u16, is_float: bool) -> Option<NativeFormat> {
    if is_float && bits == 32 {
        Some(NativeFormat::Float32)
    } else if bits == 16 {
        Some(NativeFormat::Int16)
    } else if bits == 24 {
        Some(NativeFormat::Int24)
    } else if bits == 32 {
        Some(NativeFormat::Int32)
    } else {
        None
    }
}

/// Little-endian unsigned value of two bytes.
pub open spec fn le16(b0: u8, b1: u8) -> int {
    b0 + 256 * b1
}

/// Little-endian unsigned value of three bytes.
pub open spec fn le24(b0: u8, b1: u8, b2: u8) -> int {
    b0 + 256 * b1 + 65536 * b2
}

/// Little-endian unsigned value of four bytes.
pub open spec fn le32(b0: u8, b1: u8, b2: u8, b3: u8) -> int {
    b0 + 256 * b1 + 65536 * b2 + 16777216 * b3
}

/// Two's-complement reading of an unsigned 16-bit value.
pub open spec fn signed16(u: int) -> int {
    if u >= 32768 {
        u - 65536
    } else {
        u
    }
}

/// Two's-complement reading of an unsigned 24-bit value.
pub open spec fn signed24(u: int) -> int {
    if u >= 8388608 {
        u - 16777216
    } else {
        u
    }
}

/// Two's-complement reading of an unsigned 32-bit value.
pub open spec fn signed32(u: int) -> int {
    if u >= 2147483648 {
        u - 4294967296
    } else {
        u
    }
}


/// A quotient times its divisor never exceeds the dividend.
proof fn lemma_div_mul_le(x: int, d: int)
    requires
        x >= 0,
        d >= 1,
    ensures
        d * (x / d) <= x,
        (x / d) * d <= x,
{
    lemma_fundamental_div_mod(x, d);
    lemma_mod_division_less_than_divisor(x, d);
    assert(d * (x / d) == (x / d) * d) by (nonlinear_arith);
}

/// Detects the sample format of a device block, as the native engine
/// reports it.
///
/// An unrecognized bit depth is an explicit error rather than silence:
/// a block in an unknown encoding must not vanish from the stream.
pub fn classify_format(bits: u16, is_float: bool) -> (r: Result<NativeFormat, AecError>)
    ensures
        format_of(bits, is_float) matches Some(f) ==> r == Ok::<NativeFormat, AecError>(f),
        format_of(bits, is_float) is None ==> (r matches Err(AecError::BackendError(m)) && m@
            == "unsupported sample format"@),
{
    if is_float && bits == 32 {
        Ok(NativeFormat::Float32)
    } else if bits == 16 {
        Ok(NativeFormat::Int16)
    } else if bits == 24 {
        Ok(NativeFormat::Int24)
    } else if bits == 32 {
        Ok(NativeFormat::Int32)
    } else {
        Err(AecError::BackendError(String::from_str("unsupported sample format")))
    }
}

/// Bytes occupied by one sample of the format.
pub open spec fn spec_bytes_per_sample(fmt: NativeFormat) -> int {
    match fmt {
        NativeFormat::Float32 => 4,
        NativeFormat::Int16 => 2,
        NativeFormat::Int24 => 3,
        NativeFormat::Int32 => 4,
    }
}

/// Bytes occupied by one sample of the format.
pub fn bytes_per_sample(fmt: NativeFormat) -> (r: usize)
    ensures
        r as int == spec_bytes_per_sample(fmt),
{
    match fmt {
        NativeFormat::Float32 => 4,
        NativeFormat::Int16 => 2,
        NativeFormat::Int24 => 3,
        NativeFormat::Int32 => 4,
    }
}

/// The divisor that scales a decoded integer sample of the format into
/// [-1, 1]; 1 for float input, which needs no scaling.
pub fn scale_divisor(fmt: NativeFormat) -> (r: u32)
    ensures
        fmt == NativeFormat::Float32 ==> r == 1,
        fmt == NativeFormat::Int16 ==> r == 32768,
        fmt == NativeFormat::Int24 ==> r == 8388608,
        fmt == NativeFormat::Int32 ==> r == 2147483648,
{
    match fmt {
        NativeFormat::Float32 => 1,
        NativeFormat::Int16 => 32768,
        NativeFormat::Int24 => 8388608,
        NativeFormat::Int32 => 2147483648,
    }
}

/// Whether a device block of `len` bytes holds only whole frames of
/// `block_align` bytes each. A zero alignment never validates: the device
/// reported no usable frame size.
pub fn block_aligned(len: usize, block_align: usize) -> (r: bool)
    ensures
        r == (block_align > 0 && len as int % block_align as int == 0),
{
    block_align > 0 && len % block_align == 0
}

/// Decodes a block of 16-bit little-endian signed samples.
///
/// Trailing bytes that do not form a whole sample are ignored, as the
/// chunked reading of the device buffer never produces them.
pub fn decode_i16_block(data: &Vec<u8>) -> (r: Vec<i32>)
    ensures
        r@.len() == data@.len() as int / 2,
        forall|i: int|
            0 <= i < r@.len() ==> r@[i] == signed16(le16(data@[2 * i], data@[2 * i + 1])),
{
    let n: usize = data.len() / 2;
    proof {
        lemma_div_mul_le(data@.len() as int, 2);
    }
    let mut r: Vec<i32> = Vec::new();
    let mut i: usize = 0;
    while i < n
        invariant
            i <= n,
            n == data@.len() as int / 2,
            2 * n <= data@.len(),
            data@.len() <= usize::MAX,
            r@.len() == i,
            forall|k: int|
                0 <= k < r@.len() ==> r@[k] == signed16(le16(data@[2 * k], data@[2 * k + 1])),
        decreases n - i,
    {
        let u: u32 = data[2 * i] as u32 + 256 * (data[2 * i + 1] as u32);
        let v: i32 = if u >= 32768 {
            u as i32 - 65536
        } else {
            u as i32
        };
        r.push(v);
        i += 1;
    }
    r
}

/// Decodes a block of 24-bit little-endian signed samples (sign extended
/// from the top bit of the third byte).
pub fn decode_i24_block(data: &Vec<u8>) -> (r: Vec<i32>)
    ensures
        r@.len() == data@.len() as int / 3,
        forall|i: int|
            0 <= i < r@.len() ==> r@[i] == signed24(
                le24(data@[3 * i], data@[3 * i + 1], data@[3 * i + 2]),
            ),
{
    let n: usize = data.len() / 3;
    proof {
        lemma_div_mul_le(data@.len() as int, 3);
    }
    let mut r: Vec<i32> = Vec::new();
    let mut i: usize = 0;
    while i < n
        invariant
            i <= n,
            n == data@.len() as int / 3,
            3 * n <= data@.len(),
            data@.len() <= usize::MAX,
            r@.len() == i,
            forall|k: int|
                0 <= k < r@.len() ==> r@[k] == signed24(
                    le24(data@[3 * k], data@[3 * k + 1], data@[3 * k + 2]),
                ),
        decreases n - i,
    {
        let u: u32 = data[3 * i] as u32 + 256 * (data[3 * i + 1] as u32) + 65536 * (data[3 * i
            + 2] as u32);
        let v: i32 = if u >= 8388608 {
            u as i32 - 16777216
        } else {
            u as i32
        };
        r.push(v);
        i += 1;
    }
    r
}

/// Decodes a block of 32-bit little-endian signed samples.
pub fn decode_i32_block(data: &Vec<u8>) -> (r: Vec<i32>)
    ensures
        r@.len() == data@.len() as int / 4,
        forall|i: int|
            0 <= i < r@.len() ==> r@[i] == signed32(
                le32(data@[4 * i], data@[4 * i + 1], data@[4 * i + 2], data@[4 * i + 3]),
            ),
{
    let n: usize = data.len() / 4;
    proof {
        lemma_div_mul_le(data@.len() as int, 4);
    }
    let mut r: Vec<i32> = Vec::new();
    let mut i: usize = 0;
    while i < n
        invariant
            i <= n,
            n == data@.len() as int / 4,
            4 * n <= data@.len(),
            data@.len() <= usize::MAX,
            r@.len() == i,
            forall|k: int|
                0 <= k < r@.len() ==> r@[k] == signed32(
                    le32(data@[4 * k], data@[4 * k + 1], data@[4 * k + 2], data@[4 * k + 3]),
                ),
        decreases n - i,
    {
        let u: u64 = data[4 * i] as u64 + 256 * (data[4 * i + 1] as u64) + 65536 * (data[4 * i
            + 2] as u64) + 16777216 * (data[4 * i + 3] as u64);
        let v: i64 = if u >= 2147483648 {
            u as i64 - 4294967296
        } else {
            u as i64
        };
        r.push(v as i32);
        i += 1;
    }
    r
}

/// Reads a block of 32-bit float samples as raw little-endian words,
/// one word per sample; the words pass through the pipeline untouched.
pub fn decode_f32_words(data: &Vec<u8>) -> (r: Vec<u32>)
    ensures
        r@.len() == data@.len() as int / 4,
        forall|i: int|
            0 <= i < r@.len() ==> r@[i] == le32(
                data@[4 * i],
                data@[4 * i + 1],
                data@[4 * i + 2],
                data@[4 * i + 3],
            ),
{
    let n: usize = data.len() / 4;
    proof {
        lemma_div_mul_le(data@.len() as int, 4);
    }
    let mut r: Vec<u32> = Vec::new();
    let mut i: usize = 0;
    while i < n
        invariant
            i <= n,
            n == data@.len() as int / 4,
            4 * n <= data@.len(),
            data@.len() <= usize::MAX,
            r@.len() == i,
            forall|k: int|
                0 <= k < r@.len() ==> r@[k] == le32(
                    data@[4 * k],
                    data@[4 * k + 1],
                    data@[4 * k + 2],
                    data@[4 * k + 3],
                ),
        decreases n - i,
    {
        let u: u32 = data[4 * i] as u32 + 256 * (data[4 * i + 1] as u32) + 65536 * (data[4 * i
            + 2] as u32) + 16777216 * (data[4 * i + 3] as u32);
        r.push(u);
        i += 1;
    }
    r
}

/// Sum of the `count` samples starting at `start`.
pub open spec fn frame_sum(s: Seq<i32>, start: int, count: int) -> int
    decreases count,
{
    if count <= 0 {
        0
    } else {
        frame_sum(s, start, count - 1) + s[start + count - 1]
    }
}

/// Downmixes interleaved multi-channel samples to mono frame sums.
///
/// Frame `f` of the result is the exact sum of the `channels` samples of
/// frame `f`; dividing by `channels` times the format scale yields the
/// arithmetic-mean mono value in [-1, 1]. A trailing partial frame is
/// dropped, mirroring whole-frame device reads.
pub fn downmix_frames(samples: &Vec<i32>, channels: usize) -> (r: Vec<i128>)
    requires
        channels >= 1,
    ensures
        r@.len() == samples@.len() as int / channels as int,
        forall|f: int|
            0 <= f < r@.len() ==> r@[f] == frame_sum(samples@, f * channels, channels as int),
{
    let nframes: usize = samples.len() / channels;
    proof {
        lemma_div_mul_le(samples@.len() as int, channels as int);
    }
    let mut r: Vec<i128> = Vec::new();
    let mut f: usize = 0;
    while f < nframes
        invariant
            channels >= 1,
            f <= nframes,
            nframes == samples@.len() as int / channels as int,
            nframes * channels <= samples@.len(),
            samples@.len() <= usize::MAX,
            r@.len() == f,
            forall|k: int|
                0 <= k < r@.len() ==> r@[k] == frame_sum(samples@, k * channels, channels as int),
        decreases nframes - f,
    {
        proof {
            assert((f + 1) * channels <= nframes * channels) by (nonlinear_arith)
                requires
                    0 <= f,
                    f < nframes,
                    channels >= 1,
            ;
            assert(f * channels + channels == (f + 1) * channels) by (nonlinear_arith);
        }
        let base: usize = f * channels;
        let mut acc: i128 = 0;
        let mut c: usize = 0;
        while c < channels
            invariant
                c <= channels,
                base == f * channels,
                base + channels <= samples@.len(),
                samples@.len() <= usize::MAX,
                acc == frame_sum(samples@, base as int, c as int),
                acc <= c * 2147483647,
                acc >= c * (-2147483648),
            decreases channels - c,
        {
            proof {
                assert((c + 1) * 2147483647 == c * 2147483647 + 2147483647) by (nonlinear_arith);
                assert((c + 1) * (-2147483648) == c * (-2147483648) + (-2147483648))
                    by (nonlinear_arith);
                assert(c * 2147483647 <= 0xffff_ffff_ffff_ffff * 2147483647int)
                    by (nonlinear_arith)
                    requires
                        0 <= c <= 0xffff_ffff_ffff_ffff,
                ;
                assert(c * (-2147483648) >= 0xffff_ffff_ffff_ffff * (-2147483648int))
                    by (nonlinear_arith)
                    requires
                        0 <= c <= 0xffff_ffff_ffff_ffff,
                ;
            }
            acc = acc + samples[base + c] as i128;
            c += 1;
        }
        r.push(acc);
        proof {
            assert((f + 1) * channels == f * channels + channels) by (nonlinear_arith);
        }
        f += 1;
    }
    r
}

} // verus!
