//! Tests for the WAV normalization codec: parsing, sample conversion,
//! output layout, cache-path derivation, and the failure taxonomy.

use rusty_pipes::convert_sample;
use rusty_pipes::derive_target_path;
use rusty_pipes::normalize_bytes;
use rusty_pipes::parse_container;
use rusty_pipes::NormalizeOutcome;
use rusty_pipes::WavError;

fn le32(v: u32) -> [u8; 4] {
    [
        (v & 0xFF) as u8,
        ((v >> 8) & 0xFF) as u8,
        ((v >> 16) & 0xFF) as u8,
        ((v >> 24) & 0xFF) as u8,
    ]
}

fn le16(v: u16) -> [u8; 2] {
    [(v & 0xFF) as u8, ((v >> 8) & 0xFF) as u8]
}

/// A container with the given bit depth, sample-data payload, and
/// foreign chunks (tag, payload) placed before the data chunk.
fn make_wav(bits: u16, channels: u16, rate: u32, data: &[u8], foreign: &[(&[u8; 4], &[u8])]) -> Vec<u8> {
    let mut chunks: Vec<u8> = Vec::new();
    // format chunk
    chunks.extend_from_slice(b"fmt ");
    chunks.extend_from_slice(&le32(16));
    chunks.extend_from_slice(&le16(1));
    chunks.extend_from_slice(&le16(channels));
    chunks.extend_from_slice(&le32(rate));
    let block = channels * (bits / 8);
    chunks.extend_from_slice(&le32(rate * block as u32));
    chunks.extend_from_slice(&le16(block));
    chunks.extend_from_slice(&le16(bits));
    // foreign chunks
    for (tag, payload) in foreign {
        chunks.extend_from_slice(*tag);
        chunks.extend_from_slice(&le32(payload.len() as u32));
        chunks.extend_from_slice(payload);
        if payload.len() % 2 == 1 {
            chunks.push(0);
        }
    }
    // data chunk
    chunks.extend_from_slice(b"data");
    chunks.extend_from_slice(&le32(data.len() as u32));
    chunks.extend_from_slice(data);
    if data.len() % 2 == 1 {
        chunks.push(0);
    }
    let mut out: Vec<u8> = Vec::new();
    out.extend_from_slice(b"RIFF");
    out.extend_from_slice(&le32(4 + chunks.len() as u32));
    out.extend_from_slice(b"WAVE");
    out.extend_from_slice(&chunks);
    out
}

#[test]
fn sixteen_bit_source_passes_through() {
    let wav = make_wav(16, 2, 44100, &[0x01, 0x02, 0x03, 0x04], &[]);
    let r = normalize_bytes(&wav);
    assert!(matches!(r, Ok(NormalizeOutcome::AlreadySixteenBit)));
}

#[test]
fn unsupported_bit_depths_are_rejected() {
    for bits in [8u16, 32u16] {
        let wav = make_wav(bits, 1, 8000, &[0x00; 8], &[]);
        let r = normalize_bytes(&wav);
        assert_eq!(r.err(), Some(WavError::UnsupportedFormat));
    }
}

#[test]
fn sign_extension_and_truncation() {
    assert_eq!(convert_sample(0x00, 0x00, 0x80), -32768);
    assert_eq!(convert_sample(0xFF, 0xFF, 0x7F), 32767);
    assert_eq!(convert_sample(0x00, 0x00, 0x00), 0);
}

#[test]
fn twenty_four_bit_source_is_converted() {
    // two samples: 0x800000 (most negative) and 0x7FFFFF (most positive)
    let data = [0x00, 0x00, 0x80, 0xFF, 0xFF, 0x7F];
    let wav = make_wav(24, 1, 8000, &data, &[]);
    let r = normalize_bytes(&wav).unwrap();
    let out = match r {
        NormalizeOutcome::Converted(out) => out,
        NormalizeOutcome::AlreadySixteenBit => panic!("expected a conversion"),
    };
    // the canonical output: RIFF, size, WAVE, minimal fmt, data
    let mut expected: Vec<u8> = Vec::new();
    expected.extend_from_slice(b"RIFF");
    expected.extend_from_slice(&le32(4 + 24 + 8 + 4));
    expected.extend_from_slice(b"WAVE");
    expected.extend_from_slice(b"fmt ");
    expected.extend_from_slice(&le32(16));
    expected.extend_from_slice(&le16(1)); // PCM
    expected.extend_from_slice(&le16(1)); // channels
    expected.extend_from_slice(&le32(8000)); // rate
    expected.extend_from_slice(&le32(16000)); // byte rate for 16-bit
    expected.extend_from_slice(&le16(2)); // block align
    expected.extend_from_slice(&le16(16)); // bits per sample
    expected.extend_from_slice(b"data");
    expected.extend_from_slice(&le32(4));
    expected.extend_from_slice(&[0x00, 0x80, 0xFF, 0x7F]); // -32768, 32767
    assert_eq!(out, expected);
}

#[test]
fn second_normalization_gives_identical_bytes() {
    let data = [0x12, 0x34, 0x56, 0xAB, 0xCD, 0xEF];
    let wav = make_wav(24, 2, 44100, &data, &[(b"smpl", &[1, 2, 3, 4])]);
    let first = match normalize_bytes(&wav).unwrap() {
        NormalizeOutcome::Converted(out) => out,
        _ => panic!("expected a conversion"),
    };
    let second = match normalize_bytes(&wav).unwrap() {
        NormalizeOutcome::Converted(out) => out,
        _ => panic!("expected a conversion"),
    };
    assert_eq!(first, second);
}

#[test]
fn cache_path_is_deterministic() {
    let a = derive_target_path(b"dir/sample.wav");
    let b = derive_target_path(b"dir/sample.wav");
    assert_eq!(a, b);
    assert_eq!(a, b"dir/sample.wav.16.wav".to_vec());
}

#[test]
fn cache_path_without_extension() {
    assert_eq!(derive_target_path(b"dir/sample"), b"dir/16.wav".to_vec());
    assert_eq!(derive_target_path(b"sample"), b"16.wav".to_vec());
    // a leading dot names no extension
    assert_eq!(derive_target_path(b"dir/.hidden"), b"dir/16.wav".to_vec());
}

#[test]
fn odd_foreign_chunk_is_preserved_with_one_zero_pad() {
    // a foreign chunk with a 5-byte payload, stored padded in the source
    let payload = [0xAA, 0xBB, 0xCC, 0xDD, 0xEE];
    let data = [0x01, 0x02, 0x03];
    let wav = make_wav(24, 1, 8000, &data, &[(b"smpl", &payload)]);
    let out = match normalize_bytes(&wav).unwrap() {
        NormalizeOutcome::Converted(out) => out,
        _ => panic!("expected a conversion"),
    };
    // the foreign chunk sits right after the 12 header bytes and the
    // 24-byte format chunk
    let off = 36;
    assert_eq!(&out[off..off + 4], b"smpl");
    assert_eq!(&out[off + 4..off + 8], &le32(5));
    assert_eq!(&out[off + 8..off + 13], &payload);
    assert_eq!(out[off + 13], 0); // exactly one zero padding byte
    assert_eq!(&out[off + 14..off + 18], b"data");
}

#[test]
fn foreign_chunks_keep_first_seen_order() {
    let wav = make_wav(
        24,
        1,
        8000,
        &[0x00, 0x00, 0x00],
        &[(b"cue ", &[9, 9]), (b"smpl", &[7])],
    );
    let out = match normalize_bytes(&wav).unwrap() {
        NormalizeOutcome::Converted(out) => out,
        _ => panic!("expected a conversion"),
    };
    let cue = 36;
    assert_eq!(&out[cue..cue + 4], b"cue ");
    assert_eq!(&out[cue + 4..cue + 8], &le32(2));
    assert_eq!(&out[cue + 8..cue + 10], &[9, 9]);
    let smpl = cue + 10;
    assert_eq!(&out[smpl..smpl + 4], b"smpl");
    assert_eq!(&out[smpl + 4..smpl + 8], &le32(1));
    assert_eq!(out[smpl + 8], 7);
    assert_eq!(out[smpl + 9], 0); // pad for the odd payload
}

#[test]
fn recomputed_total_size_matches_contents() {
    let data = [0u8; 9]; // three 24-bit samples
    let wav = make_wav(24, 1, 8000, &data, &[(b"smpl", &[1, 2, 3])]);
    let out = match normalize_bytes(&wav).unwrap() {
        NormalizeOutcome::Converted(out) => out,
        _ => panic!("expected a conversion"),
    };
    let stored = u32::from_le_bytes([out[4], out[5], out[6], out[7]]) as usize;
    assert_eq!(stored, out.len() - 8);
}

#[test]
fn bad_magic_is_malformed() {
    let mut wav = make_wav(16, 1, 8000, &[0, 0], &[]);
    wav[0] = b'X';
    assert_eq!(normalize_bytes(&wav).err(), Some(WavError::Malformed));
    let mut wav2 = make_wav(16, 1, 8000, &[0, 0], &[]);
    wav2[8] = b'X';
    assert_eq!(normalize_bytes(&wav2).err(), Some(WavError::Malformed));
    assert_eq!(normalize_bytes(&[0x00, 0x01]).err(), Some(WavError::Malformed));
}

#[test]
fn truncated_chunk_header_is_malformed() {
    let mut wav = make_wav(16, 1, 8000, &[0, 0], &[]);
    // cut the container inside the data chunk's header
    wav.truncate(36 + 5);
    assert_eq!(normalize_bytes(&wav).err(), Some(WavError::Malformed));
}

#[test]
fn missing_chunks_are_reported() {
    // a container whose only chunk is foreign: no format, no data
    let mut wav: Vec<u8> = Vec::new();
    wav.extend_from_slice(b"RIFF");
    wav.extend_from_slice(&le32(4 + 8 + 2));
    wav.extend_from_slice(b"WAVE");
    wav.extend_from_slice(b"cue ");
    wav.extend_from_slice(&le32(2));
    wav.extend_from_slice(&[1, 2]);
    assert_eq!(normalize_bytes(&wav).err(), Some(WavError::MissingChunk));
}

#[test]
fn parse_records_data_without_buffering() {
    let data = [1, 2, 3, 4, 5, 6];
    let wav = make_wav(24, 1, 8000, &data, &[]);
    let parsed = parse_container(&wav).unwrap();
    assert_eq!(parsed.format.bits_per_sample, 24);
    assert_eq!(parsed.data_len, 6);
    assert_eq!(&wav[parsed.data_offset..parsed.data_offset + 6], &data);
    assert!(parsed.foreign.is_empty());
}

#[test]
fn trailing_garbage_under_four_bytes_is_ignored() {
    let mut wav = make_wav(16, 1, 8000, &[0, 0], &[]);
    wav.extend_from_slice(&[0xDE, 0xAD]);
    assert!(matches!(
        normalize_bytes(&wav),
        Ok(NormalizeOutcome::AlreadySixteenBit)
    ));
}

#[test]
fn error_descriptions_are_stable() {
    assert_eq!(WavError::NotFound.describe(), "sample file not found");
    assert_eq!(WavError::Io.describe(), "read or write failed");
    assert_eq!(
        WavError::UnsupportedFormat.describe(),
        "unsupported bits per sample"
    );
}
