//! The WAV container model and parser.
//!
//! A container is a 4-byte magic, a stored total size, a 4-byte format
//! magic, then a run of chunks; each chunk is a 4-byte tag, a 4-byte
//! little-endian length, and a payload padded to an even boundary. The
//! scan records the format descriptor, the file offset and declared
//! length of the sample-data chunk (its payload is never buffered), and
//! every other chunk verbatim, in first-seen order.

use vstd::prelude::*;

verus! {

/// The ASCII bytes of the container magic "RIFF".
pub open spec fn riff_tag() -> Seq<u8> {
    seq![0x52u8, 0x49u8, 0x46u8, 0x46u8]
}

/// The ASCII bytes of the format magic "WAVE".
pub open spec fn wave_tag() -> Seq<u8> {
    seq![0x57u8, 0x41u8, 0x56u8, 0x45u8]
}

/// The ASCII bytes of the format-descriptor chunk tag "fmt ".
pub open spec fn fmt_tag() -> Seq<u8> {
    seq![0x66u8, 0x6Du8, 0x74u8, 0x20u8]
}

/// The ASCII bytes of the sample-data chunk tag "data".
pub open spec fn data_tag() -> Seq<u8> {
    seq![0x64u8, 0x61u8, 0x74u8, 0x61u8]
}

/// The unsigned value of two little-endian bytes at `pos`.
pub open spec fn le16_at(b: Seq<u8>, pos: int) -> int {
    b[pos] + 0x100 * b[pos + 1]
}

/// The unsigned value of four little-endian bytes at `pos`.
pub open spec fn le32_at(b: Seq<u8>, pos: int) -> int {
    b[pos] + 0x100 * b[pos + 1] + 0x10000 * b[pos + 2] + 0x1000000 * b[pos + 3]
}

/// What a format-descriptor chunk declares about the samples. The byte
/// rate and block alignment are not kept: the writer re-derives them.
#[derive(Clone, Copy, Debug, PartialEq, Eq, Structural)]
pub struct WavFormatDescriptor {
    pub audio_format: u16,
    pub channel_count: u16,
    pub sampling_rate: u32,
    pub bits_per_sample: u16,
}

/// A chunk the codec does not understand semantically (loop metadata and
/// the like), preserved verbatim across conversion.
pub struct ForeignChunk {
    pub tag: [u8; 4],
    pub data: Vec<u8>,
}

/// The mathematical shape of a foreign chunk.
#[verifier::ext_equal]
pub ghost struct ForeignChunkModel {
    pub tag: Seq<u8>,
    pub data: Seq<u8>,
}

impl View for ForeignChunk {
    type V = ForeignChunkModel;

    open spec fn view(&self) -> ForeignChunkModel {
        ForeignChunkModel { tag: self.tag@, data: self.data@ }
    }
}

impl DeepView for ForeignChunk {
    type V = ForeignChunkModel;

    open spec fn deep_view(&self) -> ForeignChunkModel {
        self.view()
    }
}

/// What one pass over the chunks yields. When a tag occurs twice, the
/// later format or data chunk wins; foreign chunks accumulate in
/// first-seen order.
#[verifier::ext_equal]
pub ghost struct ScanModel {
    pub fmt: Option<WavFormatDescriptor>,
    /// Offset of the sample-data payload in the container, and its
    /// declared length — the payload itself is never copied.
    pub data: Option<(int, int)>,
    pub foreign: Seq<ForeignChunkModel>,
}

/// The empty accumulator the scan starts from.
pub open spec fn scan_start() -> ScanModel {
    ScanModel { fmt: None, data: None, foreign: Seq::empty() }
}

/// The format descriptor read from a chunk body at `pos`: format tag,
/// channel count, sampling rate, then (skipping the stored byte rate and
/// block alignment) bits per sample.
pub open spec fn fmt_fields_at(b: Seq<u8>, pos: int) -> WavFormatDescriptor {
    WavFormatDescriptor {
        audio_format: le16_at(b, pos) as u16,
        channel_count: le16_at(b, pos + 2) as u16,
        sampling_rate: le32_at(b, pos + 4) as u32,
        bits_per_sample: le16_at(b, pos + 14) as u16,
    }
}

/// One pass over the chunk run of `b` starting at `pos`. `None` is a
/// premature end of the container: a chunk header or body cut short.
/// Fewer than four trailing bytes are ignored, as a reader that stops on
/// a failed tag read ignores them.
pub open spec fn scan_chunks(b: Seq<u8>, pos: int, acc: ScanModel) -> Option<ScanModel>
    decreases b.len() - pos,
    when 0 <= pos <= b.len()
{
    if pos + 4 > b.len() {
        Some(acc)
    } else if pos + 8 > b.len() {
        None
    } else {
        let tag = b.subrange(pos, pos + 4);
        let size = le32_at(b, pos + 4);
        let body = pos + 8;
        let stride = size + 8 + (if size % 2 == 1 {
            1int
        } else {
            0int
        });
        let next = if pos + stride >= b.len() {
            b.len() as int
        } else {
            pos + stride
        };
        if tag == fmt_tag() {
            if body + 16 > b.len() {
                None
            } else {
                scan_chunks(b, next, ScanModel { fmt: Some(fmt_fields_at(b, body)), ..acc })
            }
        } else if tag == data_tag() {
            scan_chunks(b, next, ScanModel { data: Some((body, size)), ..acc })
        } else {
            if body + size > b.len() {
                None
            } else {
                scan_chunks(
                    b,
                    next,
                    ScanModel {
                        foreign: acc.foreign.push(
                            ForeignChunkModel { tag, data: b.subrange(body, body + size) },
                        ),
                        ..acc
                    },
                )
            }
        }
    }
}

/// The whole container parsed: magic, stored size (ignored), format
/// magic, then the chunk scan. `None` is a malformed container: a magic
/// mismatch or a premature end.
pub open spec fn parsed_container(b: Seq<u8>) -> Option<ScanModel> {
    if b.len() < 12 {
        None
    } else if b.subrange(0, 4) != riff_tag() {
        None
    } else if b.subrange(8, 12) != wave_tag() {
        None
    } else {
        scan_chunks(b, 12, scan_start())
    }
}

/// Why a normalization was abandoned. Every failure leaves the one file
/// unconverted and has no other effect.
#[derive(Clone, Copy, Debug, PartialEq, Eq, Structural)]
pub enum WavError {
    /// The source file does not exist.
    NotFound,
    /// A magic mismatch or a premature end of the container.
    Malformed,
    /// The scan found no format chunk or no sample-data chunk.
    MissingChunk,
    /// Bits per sample other than 16 or 24.
    UnsupportedFormat,
    /// An underlying read or write failed.
    Io,
}

impl WavError {
    /// A short description of the failure.
    pub fn describe(&self) -> (r: &'static str)
        ensures
            r@ == self.describe_spec(),
    {
        match self {
            WavError::NotFound => "sample file not found",
            WavError::Malformed => "not a RIFF/WAVE container",
            WavError::MissingChunk => "container has no format or no data chunk",
            WavError::UnsupportedFormat => "unsupported bits per sample",
            WavError::Io => "read or write failed",
        }
    }

    pub open spec fn describe_spec(&self) -> Seq<char> {
        match self {
            WavError::NotFound => "sample file not found"@,
            WavError::Malformed => "not a RIFF/WAVE container"@,
            WavError::MissingChunk => "container has no format or no data chunk"@,
            WavError::UnsupportedFormat => "unsupported bits per sample"@,
            WavError::Io => "read or write failed"@,
        }
    }
}

/// The parse result the converter works from.
pub struct ParsedWav {
    pub format: WavFormatDescriptor,
    /// Offset of the sample-data payload in the source bytes.
    pub data_offset: usize,
    /// The data chunk's declared payload length, not validated against
    /// the container's real end.
    pub data_len: u32,
    pub foreign: Vec<ForeignChunk>,
}

/// The bytes a run of foreign chunks occupies on the wire: an 8-byte
/// header plus the padded payload, per chunk.
pub open spec fn foreign_wire_size(chunks: Seq<ForeignChunkModel>) -> int
    decreases chunks.len(),
{
    if chunks.len() == 0 {
        0
    } else {
        foreign_wire_size(chunks.drop_last()) + 8 + chunks.last().data.len() + (
        if chunks.last().data.len() % 2 == 1 {
            1int
        } else {
            0int
        })
    }
}

/// Reads two little-endian bytes.
fn read_le16(b: &[u8], pos: usize) -> (r: u16)
    requires
        pos + 2 <= b@.len(),
    ensures
        r == le16_at(b@, pos as int),
{
    b[pos] as u16 + 0x100 * (b[pos + 1] as u16)
}

/// Reads four little-endian bytes.
fn read_le32(b: &[u8], pos: usize) -> (r: u32)
    requires
        pos + 4 <= b@.len(),
    ensures
        r == le32_at(b@, pos as int),
{
    b[pos] as u32 + 0x100 * (b[pos + 1] as u32) + 0x10000 * (b[pos + 2] as u32) + 0x1000000 * (b[
        pos + 3] as u32)
}

/// Whether the four bytes at `pos` equal the given tag bytes.
fn tag_at_is(b: &[u8], pos: usize, t0: u8, t1: u8, t2: u8, t3: u8) -> (r: bool)
    requires
        pos + 4 <= b@.len(),
    ensures
        r == (b@.subrange(pos as int, pos as int + 4) == seq![t0, t1, t2, t3]),
{
    let hit = b[pos] == t0 && b[pos + 1] == t1 && b[pos + 2] == t2 && b[pos + 3] == t3;
    proof {
        if hit {
            assert(b@.subrange(pos as int, pos as int + 4) =~= seq![t0, t1, t2, t3]);
        } else {
            assert(b@.subrange(pos as int, pos as int + 4) != seq![t0, t1, t2, t3]) by {
                if b@.subrange(pos as int, pos as int + 4) == seq![t0, t1, t2, t3] {
                    assert(b@.subrange(pos as int, pos as int + 4)[0] == t0);
                    assert(b@.subrange(pos as int, pos as int + 4)[1] == t1);
                    assert(b@.subrange(pos as int, pos as int + 4)[2] == t2);
                    assert(b@.subrange(pos as int, pos as int + 4)[3] == t3);
                }
            }
        }
    }
    hit
}

/// Copies `count` bytes starting at `pos`.
fn copy_range(b: &[u8], pos: usize, count: usize) -> (r: Vec<u8>)
    requires
        pos + count <= b@.len(),
    ensures
        r@ == b@.subrange(pos as int, pos as int + count as int),
{
    let n = b.len();
    let mut r: Vec<u8> = Vec::new();
    let mut k: usize = 0;
    while k < count
        invariant
            k <= count,
            pos + count <= n,
            n == b@.len(),
            r@ =~= b@.subrange(pos as int, pos as int + k as int),
        decreases count - k,
    {
        r.push(b[pos + k]);
        proof {
            assert(r@ =~= b@.subrange(pos as int, pos as int + (k + 1)));
        }
        k = k + 1;
    }
    r
}

/// Parses a container held in memory. The outcome follows the model
/// exactly: a malformed container is rejected, a scan without a format
/// or data chunk is rejected, and otherwise the descriptor, the data
/// region's offset and declared length, and the foreign chunks in
/// first-seen order come back.
#[verifier::rlimit(50)]
pub fn parse_container(bytes: &[u8]) -> (r: Result<ParsedWav, WavError>)
    ensures
        (match parsed_container(bytes@) {
            Option::None => r == Err::<ParsedWav, WavError>(WavError::Malformed),
            Option::Some(m) => {
                if m.fmt is None || m.data is None {
                    r == Err::<ParsedWav, WavError>(WavError::MissingChunk)
                } else {
                    r matches Ok(p) && Some(p.format) == m.fmt && Some(
                        (p.data_offset as int, p.data_len as int),
                    ) == m.data && p.foreign.deep_view() == m.foreign
                }
            },
        }),
        r matches Ok(p) ==> {
            &&& foreign_wire_size(p.foreign.deep_view()) + 11 <= bytes@.len()
            &&& p.data_offset <= bytes@.len()
        },
{
    let len = bytes.len();
    if len < 12 {
        return Err(WavError::Malformed);
    }
    // "RIFF"
    if !tag_at_is(bytes, 0, 0x52, 0x49, 0x46, 0x46) {
        return Err(WavError::Malformed);
    }
    // the stored total size is skipped: the writer recomputes it
    // "WAVE"
    if !tag_at_is(bytes, 8, 0x57, 0x41, 0x56, 0x45) {
        return Err(WavError::Malformed);
    }
    let mut fmt: Option<WavFormatDescriptor> = None;
    let mut data: Option<(usize, u32)> = None;
    let mut foreign: Vec<ForeignChunk> = Vec::new();
    let mut pos: usize = 12;
    let ghost start = scan_start();
    proof {
        assert(foreign.deep_view() =~= Seq::<ForeignChunkModel>::empty());
        assert(ScanModel { fmt: None, data: None, foreign: foreign.deep_view() } =~= start);
    }
    while len - pos >= 4
        invariant
            12 <= pos <= len,
            len == bytes@.len(),
            bytes@.subrange(0, 4) == riff_tag(),
            bytes@.subrange(8, 12) == wave_tag(),
            start == scan_start(),
            scan_chunks(bytes@, 12, start) == scan_chunks(
                bytes@,
                pos as int,
                ScanModel {
                    fmt,
                    data: (match data {
                        Some((o, l)) => Some((o as int, l as int)),
                        None => None,
                    }),
                    foreign: foreign.deep_view(),
                },
            ),
            pos < len ==> foreign_wire_size(foreign.deep_view()) + 12 <= pos,
            foreign_wire_size(foreign.deep_view()) + 12 <= pos + 1,
            (match data {
                Some((o, _)) => o <= len,
                None => true,
            }),
        decreases len - pos,
    {
        let ghost acc = ScanModel {
            fmt,
            data: (match data {
                Some((o, l)) => Some((o as int, l as int)),
                None => None,
            }),
            foreign: foreign.deep_view(),
        };
        if len - pos < 8 {
            proof {
                assert(scan_chunks(bytes@, pos as int, acc) is None);
                assert(parsed_container(bytes@) is None);
            }
            return Err(WavError::Malformed);
        }
        let size = read_le32(bytes, pos + 4);
        let body = pos + 8;
        let avail: usize = len - body;
        // where the next chunk header starts: the padded payload end,
        // clamped to the container's end
        let padded_len: u64 = size as u64 + (size % 2) as u64;
        let next: usize = if padded_len >= avail as u64 {
            len
        } else {
            body + padded_len as usize
        };
        let ghost stride: int = size as int + 8 + (if size as int % 2 == 1 {
            1int
        } else {
            0int
        });
        proof {
            assert(next as int == (if pos as int + stride >= len as int {
                len as int
            } else {
                pos as int + stride
            }));
        }
        if tag_at_is(bytes, pos, 0x66, 0x6D, 0x74, 0x20) {
            // "fmt ": the descriptor's fields are read even when the
            // declared chunk size is shorter
            if avail < 16 {
                proof {
                    assert(scan_chunks(bytes@, pos as int, acc) is None);
                }
                return Err(WavError::Malformed);
            }
            let descriptor = WavFormatDescriptor {
                audio_format: read_le16(bytes, body),
                channel_count: read_le16(bytes, body + 2),
                sampling_rate: read_le32(bytes, body + 4),
                bits_per_sample: read_le16(bytes, body + 14),
            };
            proof {
                assert(descriptor == fmt_fields_at(bytes@, body as int));
                assert(scan_chunks(bytes@, pos as int, acc) == scan_chunks(
                    bytes@,
                    next as int,
                    ScanModel { fmt: Some(descriptor), ..acc },
                ));
            }
            fmt = Some(descriptor);
        } else if tag_at_is(bytes, pos, 0x64, 0x61, 0x74, 0x61) {
            // "data": record where the payload sits; never buffer it
            proof {
                assert(scan_chunks(bytes@, pos as int, acc) == scan_chunks(
                    bytes@,
                    next as int,
                    ScanModel { data: Some((body as int, size as int)), ..acc },
                ));
            }
            data = Some((body, size));
        } else {
            // a foreign chunk is kept verbatim
            if size as u64 > avail as u64 {
                proof {
                    assert(scan_chunks(bytes@, pos as int, acc) is None);
                }
                return Err(WavError::Malformed);
            }
            let tag: [u8; 4] = [bytes[pos], bytes[pos + 1], bytes[pos + 2], bytes[pos + 3]];
            let payload = copy_range(bytes, body, size as usize);
            let ghost chunk_model = ForeignChunkModel {
                tag: bytes@.subrange(pos as int, pos as int + 4),
                data: bytes@.subrange(body as int, body as int + size as int),
            };
            let ghost pre_foreign = foreign.deep_view();
            proof {
                assert((ForeignChunk { tag, data: payload })@ =~= chunk_model);
            }
            foreign.push(ForeignChunk { tag, data: payload });
            proof {
                assert(foreign.deep_view() =~= pre_foreign.push(chunk_model));
                assert(foreign.deep_view().drop_last() =~= pre_foreign);
                assert(foreign_wire_size(foreign.deep_view()) == foreign_wire_size(pre_foreign) + 8
                    + size as int + (if size as int % 2 == 1 {
                    1int
                } else {
                    0int
                }));
                assert(scan_chunks(bytes@, pos as int, acc) == scan_chunks(
                    bytes@,
                    next as int,
                    ScanModel { foreign: acc.foreign.push(chunk_model), ..acc },
                ));
                assert(ScanModel { foreign: acc.foreign.push(chunk_model), ..acc } =~= ScanModel {
                    fmt,
                    data: (match data {
                        Some((o, l)) => Some((o as int, l as int)),
                        None => None,
                    }),
                    foreign: foreign.deep_view(),
                });
            }
        }
        pos = next;
    }
    let ghost acc_end = ScanModel {
        fmt,
        data: (match data {
            Some((o, l)) => Some((o as int, l as int)),
            None => None,
        }),
        foreign: foreign.deep_view(),
    };
    proof {
        assert(scan_chunks(bytes@, pos as int, acc_end) == Some(acc_end));
    }
    let format = match fmt {
        Some(f) => f,
        None => {
            return Err(WavError::MissingChunk);
        },
    };
    let (data_offset, data_len) = match data {
        Some(d) => d,
        None => {
            return Err(WavError::MissingChunk);
        },
    };
    Ok(ParsedWav { format, data_offset, data_len, foreign })
}

} // verus!
