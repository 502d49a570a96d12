//! The bit-depth conversion: every 3-byte little-endian sample of a
//! 24-bit source becomes the most significant 16 bits of its
//! sign-extended value — truncation, no dithering.

use crate::wav::parse_container;
use crate::wav::parsed_container;
use crate::wav::WavError;
use crate::wav_build::build_output;
use crate::wav_build::output_bytes;
use vstd::prelude::*;

verus! {

/// The signed value of one 24-bit little-endian sample: the three bytes
/// combined and sign-extended.
pub open spec fn sample_value_24(b0: u8, b1: u8, b2: u8) -> int {
    let v = b0 + 0x100 * b1 + 0x10000 * b2;
    if v >= 0x800000 {
        v - 0x1000000
    } else {
        v
    }
}

/// The 16-bit output sample: the sign-extended 24-bit value arithmetically
/// shifted down by eight bits, keeping its most significant 16 bits.
pub open spec fn sample_value_16(b0: u8, b1: u8, b2: u8) -> int {
    sample_value_24(b0, b1, b2) / 0x100
}

/// The two little-endian bytes that encode a 16-bit signed sample.
pub open spec fn sample_bytes_16(v: int) -> Seq<u8>
    recommends
        -0x8000 <= v < 0x8000,
{
    let u = if v < 0 {
        v + 0x10000
    } else {
        v
    };
    seq![(u % 0x100) as u8, ((u / 0x100) % 0x100) as u8]
}

/// The converted sample data: one 16-bit sample per full 3-byte group,
/// trailing odd bytes dropped.
pub open spec fn converted_data(data: Seq<u8>) -> Seq<u8>
    decreases data.len(),
{
    if data.len() < 3 {
        Seq::empty()
    } else {
        sample_bytes_16(sample_value_16(data[0], data[1], data[2])) + converted_data(data.skip(3))
    }
}

/// Converts one 24-bit sample to 16 bits. Keeping the top 16 of the 24
/// bits means the low byte `b0` only ever feeds the discarded remainder.
pub fn convert_sample(b0: u8, b1: u8, b2: u8) -> (r: i16)
    ensures
        r as int == sample_value_16(b0, b1, b2),
{
    let upper: i32 = b1 as i32 + 0x100 * (b2 as i32);
    let value: i32 = if b2 >= 0x80 {
        upper - 0x10000
    } else {
        upper
    };
    proof {
        assert(sample_value_24(b0, b1, b2) == 0x100 * value + b0);
        assert((0x100 * (value as int) + b0) / 0x100 == value as int) by (nonlinear_arith)
            requires
                0 <= b0 < 0x100,
        ;
    }
    value as i16
}

/// Converts `samples` full 3-byte groups starting at `start` into
/// little-endian 16-bit samples, exactly as the model describes.
pub fn convert_data(bytes: &[u8], start: usize, samples: usize) -> (r: Vec<u8>)
    requires
        start + 3 * samples <= bytes@.len(),
    ensures
        r@ == converted_data(bytes@.subrange(start as int, start as int + 3 * samples as int)),
        r@.len() == 2 * samples,
{
    let ghost region = bytes@.subrange(start as int, start as int + 3 * samples as int);
    let total = bytes.len();
    let mut out: Vec<u8> = Vec::new();
    let mut k: usize = 0;
    proof {
        assert(region.skip(0) =~= region);
        assert(out@ + converted_data(region) =~= converted_data(region));
    }
    while k < samples
        invariant
            k <= samples,
            start + 3 * samples <= total,
            total == bytes@.len(),
            region == bytes@.subrange(start as int, start as int + 3 * samples as int),
            out@.len() == 2 * k,
            converted_data(region) == out@ + converted_data(region.skip(3 * k as int)),
        decreases samples - k,
    {
        let base = start + 3 * k;
        let s = convert_sample(bytes[base], bytes[base + 1], bytes[base + 2]);
        let u: u16 = if s >= 0 {
            s as u16
        } else {
            ((s as i32) + 0x10000) as u16
        };
        let ghost pre = out@;
        out.push((u % 0x100) as u8);
        out.push((u / 0x100) as u8);
        proof {
            let rest = region.skip(3 * k as int);
            assert(rest.len() >= 3);
            assert(rest[0] == bytes@[base as int]);
            assert(rest[1] == bytes@[base as int + 1]);
            assert(rest[2] == bytes@[base as int + 2]);
            assert(out@ =~= pre + sample_bytes_16(s as int));
            assert(rest.skip(3) =~= region.skip(3 * (k + 1)));
            assert(converted_data(rest) == sample_bytes_16(sample_value_16(rest[0], rest[1], rest[2]))
                + converted_data(rest.skip(3)));
            assert(converted_data(region) == out@ + converted_data(region.skip(3 * (k + 1))));
        }
        k = k + 1;
    }
    proof {
        assert(region.skip(3 * samples as int).len() < 3);
        assert(converted_data(region) =~= out@);
    }
    out
}

/// What the codec asks of the caller after a successful run: hand the
/// original path on unchanged, or write these bytes to the cache file.
#[derive(Debug)]
pub enum NormalizeOutcome {
    /// The source is already 16-bit: no output is produced and the
    /// original path is used as it is.
    AlreadySixteenBit,
    /// The source was 24-bit: these are the full bytes of the 16-bit
    /// container to write.
    Converted(Vec<u8>),
}

/// The part of the declared sample-data payload that holds whole 3-byte
/// samples.
pub open spec fn data_region(b: Seq<u8>, off: int, declared: int) -> Seq<u8> {
    b.subrange(off, off + 3 * (declared / 3))
}

/// Normalizes one container held in memory: a 16-bit source is passed
/// through untouched, a 24-bit source is rewritten as the canonical
/// 16-bit container, and every other bit depth is rejected with an
/// unsupported-format error before any output exists.
///
/// The precondition gates only the one path that rebuilds a container,
/// and is a field-width limit of the format itself: a 24-bit source
/// over a gibibyte would overflow the rebuilt 32-bit size field, and
/// one whose recomputed block alignment or byte rate exceeds its 16- or
/// 32-bit field cannot be written. Pass-through and every rejection
/// hold for sources of any size.
pub fn normalize_bytes(bytes: &[u8]) -> (r: Result<NormalizeOutcome, WavError>)
    requires
        (match parsed_container(bytes@) {
            Some(m) => match m.fmt {
                Some(f) => f.bits_per_sample == 24 ==> {
                    &&& bytes@.len() <= 0x4000_0000
                    &&& 2 * f.channel_count <= u16::MAX
                    &&& f.sampling_rate * (2 * f.channel_count) <= u32::MAX
                },
                None => true,
            },
            None => true,
        }),
    ensures
        (match parsed_container(bytes@) {
            None => r == Err::<NormalizeOutcome, WavError>(WavError::Malformed),
            Some(m) => match (m.fmt, m.data) {
                (Some(f), Some((off, declared))) => {
                    if f.bits_per_sample == 16 {
                        r == Ok::<NormalizeOutcome, WavError>(NormalizeOutcome::AlreadySixteenBit)
                    } else if f.bits_per_sample != 24 {
                        r == Err::<NormalizeOutcome, WavError>(WavError::UnsupportedFormat)
                    } else if off + 3 * (declared / 3) > bytes@.len() {
                        r == Err::<NormalizeOutcome, WavError>(WavError::Malformed)
                    } else {
                        r matches Ok(NormalizeOutcome::Converted(out)) && out@ == output_bytes(
                            f,
                            m.foreign,
                            converted_data(data_region(bytes@, off, declared)),
                        )
                    }
                },
                _ => r == Err::<NormalizeOutcome, WavError>(WavError::MissingChunk),
            },
        }),
{
    let parsed = match parse_container(bytes) {
        Ok(p) => p,
        Err(e) => {
            return Err(e);
        },
    };
    let bits = parsed.format.bits_per_sample;
    if bits == 16 {
        // already 16-bit: the codec performs no write
        return Ok(NormalizeOutcome::AlreadySixteenBit);
    }
    if bits != 24 {
        return Err(WavError::UnsupportedFormat);
    }
    let samples: u32 = parsed.data_len / 3;
    let need: u64 = 3u64 * (samples as u64);
    if (parsed.data_offset as u64) + need > (bytes.len() as u64) {
        // the declared sample data runs past the container's end
        return Err(WavError::Malformed);
    }
    let data16 = convert_data(bytes, parsed.data_offset, samples as usize);
    proof {
        crate::wav_build::lemma_foreign_bytes_len(parsed.foreign.deep_view());
    }
    let out = build_output(&parsed.format, &parsed.foreign, &data16);
    Ok(NormalizeOutcome::Converted(out))
}

} // verus!
