//! The canonical output container: container magic, recomputed total
//! size, format magic, a minimal 16-byte format-descriptor chunk fixed
//! to 16 bits per sample, every preserved foreign chunk in first-seen
//! order (re-padded to even length), then the sample-data chunk.

use crate::wav::data_tag;
use crate::wav::fmt_tag;
use crate::wav::foreign_wire_size;
use crate::wav::riff_tag;
use crate::wav::wave_tag;
use crate::wav::ForeignChunk;
use crate::wav::ForeignChunkModel;
use crate::wav::WavFormatDescriptor;
use vstd::prelude::*;

verus! {

/// The two little-endian bytes of a 16-bit field.
pub open spec fn le16_bytes(v: int) -> Seq<u8> {
    seq![(v % 0x100) as u8, ((v / 0x100) % 0x100) as u8]
}

/// The four little-endian bytes of a 32-bit field.
pub open spec fn le32_bytes(v: int) -> Seq<u8> {
    seq![
        (v % 0x100) as u8,
        ((v / 0x100) % 0x100) as u8,
        ((v / 0x10000) % 0x100) as u8,
        ((v / 0x1000000) % 0x100) as u8,
    ]
}

/// A payload length rounded up to the even boundary its chunk occupies.
pub open spec fn padded_len(n: int) -> int {
    n + n % 2
}

/// One chunk on the wire: tag, little-endian length, payload, and a
/// single zero padding byte when the payload length is odd.
pub open spec fn chunk_bytes(tag: Seq<u8>, payload: Seq<u8>) -> Seq<u8> {
    tag + le32_bytes(payload.len() as int) + payload + (if payload.len() % 2 == 1 {
        seq![0u8]
    } else {
        Seq::<u8>::empty()
    })
}

/// The minimal 16-byte PCM descriptor the writer emits: bits per sample
/// fixed to 16, block alignment and byte rate re-derived from the
/// reduced sample width.
pub open spec fn output_format_payload(fmt: WavFormatDescriptor) -> Seq<u8> {
    le16_bytes(fmt.audio_format as int) + le16_bytes(fmt.channel_count as int) + le32_bytes(
        fmt.sampling_rate as int,
    ) + le32_bytes(fmt.sampling_rate * (2 * fmt.channel_count)) + le16_bytes(2 * fmt.channel_count)
        + le16_bytes(16)
}

/// The preserved foreign chunks on the wire, in first-seen order.
pub open spec fn foreign_chunks_bytes(chunks: Seq<ForeignChunkModel>) -> Seq<u8>
    decreases chunks.len(),
{
    if chunks.len() == 0 {
        Seq::empty()
    } else {
        foreign_chunks_bytes(chunks.drop_last()) + chunk_bytes(
            chunks.last().tag,
            chunks.last().data,
        )
    }
}

/// Every tag is exactly four bytes.
pub open spec fn foreign_tags_wf(chunks: Seq<ForeignChunkModel>) -> bool {
    forall|i: int| 0 <= i < chunks.len() ==> (#[trigger] chunks[i]).tag.len() == 4
}

/// The whole output container.
pub open spec fn output_bytes(
    fmt: WavFormatDescriptor,
    foreign: Seq<ForeignChunkModel>,
    data16: Seq<u8>,
) -> Seq<u8> {
    let body = wave_tag() + chunk_bytes(fmt_tag(), output_format_payload(fmt))
        + foreign_chunks_bytes(foreign) + chunk_bytes(data_tag(), data16);
    riff_tag() + le32_bytes(body.len() as int) + body
}

/// How long the output container is: the 12 header bytes, the 24-byte
/// format chunk, the padded foreign chunks, and the 8-byte data header
/// with its padded payload.
pub open spec fn output_size(foreign: Seq<ForeignChunkModel>, data_len: int) -> int {
    44 + foreign_wire_size(foreign) + padded_len(data_len)
}

/// The wire form of a chunk run is as long as `foreign_wire_size` says.
pub proof fn lemma_foreign_bytes_len(chunks: Seq<ForeignChunkModel>)
    requires
        foreign_tags_wf(chunks),
    ensures
        foreign_chunks_bytes(chunks).len() == foreign_wire_size(chunks),
        foreign_wire_size(chunks) >= 0,
    decreases chunks.len(),
{
    if chunks.len() > 0 {
        assert(foreign_tags_wf(chunks.drop_last())) by {
            assert(forall|i: int|
                0 <= i < chunks.len() - 1 ==> chunks.drop_last()[i] == chunks[i]);
        }
        lemma_foreign_bytes_len(chunks.drop_last());
    }
}

/// Each step of the chunk run appends exactly one wire chunk.
pub proof fn lemma_foreign_bytes_take_step(chunks: Seq<ForeignChunkModel>, i: int)
    requires
        0 <= i < chunks.len(),
    ensures
        foreign_chunks_bytes(chunks.take(i + 1)) == foreign_chunks_bytes(chunks.take(i))
            + chunk_bytes(chunks[i].tag, chunks[i].data),
        foreign_wire_size(chunks.take(i + 1)) == foreign_wire_size(chunks.take(i)) + 8
            + chunks[i].data.len() + chunks[i].data.len() % 2,
{
    assert(chunks.take(i + 1).drop_last() =~= chunks.take(i));
    assert(chunks.take(i + 1).last() == chunks[i]);
}

/// A run of chunks never occupies a negative number of wire bytes.
pub proof fn lemma_foreign_wire_nonneg(chunks: Seq<ForeignChunkModel>)
    ensures
        foreign_wire_size(chunks) >= 0,
    decreases chunks.len(),
{
    if chunks.len() > 0 {
        lemma_foreign_wire_nonneg(chunks.drop_last());
    }
}

/// A prefix of the chunk run never occupies more wire bytes than the
/// whole run.
pub proof fn lemma_foreign_wire_prefix(chunks: Seq<ForeignChunkModel>, i: int)
    requires
        0 <= i <= chunks.len(),
    ensures
        foreign_wire_size(chunks.take(i)) <= foreign_wire_size(chunks),
        foreign_wire_size(chunks.take(i)) >= 0,
    decreases chunks.len() - i,
{
    lemma_foreign_wire_nonneg(chunks.take(i));
    if i == chunks.len() {
        assert(chunks.take(i) =~= chunks);
    } else {
        lemma_foreign_bytes_take_step(chunks, i);
        lemma_foreign_wire_prefix(chunks, i + 1);
    }
}

/// Within the wire form of a chunk run, chunk `i` sits exactly at the
/// offset the wire sizes of its predecessors give.
proof fn lemma_foreign_bytes_extract(chunks: Seq<ForeignChunkModel>, i: int)
    requires
        foreign_tags_wf(chunks),
        0 <= i < chunks.len(),
    ensures
        foreign_chunks_bytes(chunks).subrange(
            foreign_wire_size(chunks.take(i)),
            foreign_wire_size(chunks.take(i)) + 8 + padded_len(chunks[i].data.len() as int),
        ) == chunk_bytes(chunks[i].tag, chunks[i].data),
    decreases chunks.len(),
{
    let w = foreign_wire_size(chunks.take(i));
    let c = chunks[i];
    let clen = 8 + padded_len(c.data.len() as int);
    lemma_foreign_wire_prefix(chunks, i);
    assert(chunk_bytes(c.tag, c.data).len() == clen);
    if i == chunks.len() - 1 {
        assert(chunks.take(i) =~= chunks.drop_last());
        assert(foreign_tags_wf(chunks.drop_last())) by {
            assert(forall|j: int|
                0 <= j < chunks.len() - 1 ==> chunks.drop_last()[j] == chunks[j]);
        }
        lemma_foreign_bytes_len(chunks.drop_last());
        assert(chunks.last() == c);
        assert(foreign_chunks_bytes(chunks) == foreign_chunks_bytes(chunks.drop_last())
            + chunk_bytes(c.tag, c.data));
        assert(foreign_chunks_bytes(chunks).subrange(w, w + clen) =~= chunk_bytes(c.tag, c.data));
    } else {
        let shorter = chunks.drop_last();
        assert(foreign_tags_wf(shorter)) by {
            assert(forall|j: int| 0 <= j < chunks.len() - 1 ==> shorter[j] == chunks[j]);
        }
        assert(shorter[i] == c);
        assert(shorter.take(i) =~= chunks.take(i));
        lemma_foreign_bytes_extract(shorter, i);
        lemma_foreign_bytes_len(shorter);
        lemma_foreign_bytes_take_step(shorter, i);
        lemma_foreign_wire_prefix(shorter, i + 1);
        assert(w + clen <= foreign_chunks_bytes(shorter).len());
        assert(foreign_chunks_bytes(chunks) == foreign_chunks_bytes(shorter) + chunk_bytes(
            chunks.last().tag,
            chunks.last().data,
        ));
        assert(foreign_chunks_bytes(chunks).subrange(w, w + clen) =~= foreign_chunks_bytes(
            shorter,
        ).subrange(w, w + clen));
    }
}

/// Law: every preserved foreign chunk appears in the output container
/// byte-identical — tag, stored length and payload — at the offset that
/// the 12 header bytes, the 24-byte format chunk and its predecessors'
/// wire sizes give; and when its payload length is odd, its wire form
/// ends in exactly one zero padding byte after the payload.
pub proof fn lemma_foreign_chunk_preserved(
    fmt: WavFormatDescriptor,
    foreign: Seq<ForeignChunkModel>,
    data16: Seq<u8>,
    i: int,
)
    requires
        foreign_tags_wf(foreign),
        0 <= i < foreign.len(),
    ensures
        ({
            let out = output_bytes(fmt, foreign, data16);
            let off = 36 + foreign_wire_size(foreign.take(i));
            let c = foreign[i];
            &&& out.subrange(off, off + 8 + padded_len(c.data.len() as int)) == chunk_bytes(
                c.tag,
                c.data,
            )
            &&& c.data.len() % 2 == 1 ==> chunk_bytes(c.tag, c.data) == c.tag + le32_bytes(
                c.data.len() as int,
            ) + c.data + seq![0u8]
        }),
{
    let out = output_bytes(fmt, foreign, data16);
    let w = foreign_wire_size(foreign.take(i));
    let c = foreign[i];
    let clen = 8 + padded_len(c.data.len() as int);
    let head = wave_tag() + chunk_bytes(fmt_tag(), output_format_payload(fmt));
    let body = head + foreign_chunks_bytes(foreign) + chunk_bytes(data_tag(), data16);
    lemma_foreign_bytes_extract(foreign, i);
    lemma_foreign_wire_prefix(foreign, i);
    lemma_foreign_bytes_take_step(foreign, i);
    lemma_foreign_wire_prefix(foreign, i + 1);
    lemma_foreign_bytes_len(foreign);
    assert(head.len() == 28);
    assert(out =~= riff_tag() + le32_bytes(body.len() as int) + body);
    assert(w + clen == foreign_wire_size(foreign.take(i + 1)));
    assert(out.subrange(36 + w, 36 + w + clen) =~= foreign_chunks_bytes(foreign).subrange(
        w,
        w + clen,
    ));
}

/// Appends one 16-bit little-endian field.
fn push_le16(v: &mut Vec<u8>, x: u16)
    ensures
        final(v)@ == old(v)@ + le16_bytes(x as int),
{
    v.push((x % 0x100) as u8);
    v.push(((x / 0x100) % 0x100) as u8);
    proof {
        assert(final(v)@ =~= old(v)@ + le16_bytes(x as int));
    }
}

/// Appends one 32-bit little-endian field.
fn push_le32(v: &mut Vec<u8>, x: u32)
    ensures
        final(v)@ == old(v)@ + le32_bytes(x as int),
{
    v.push((x % 0x100) as u8);
    v.push(((x / 0x100) % 0x100) as u8);
    v.push(((x / 0x10000) % 0x100) as u8);
    v.push(((x / 0x1000000) % 0x100) as u8);
    proof {
        assert(final(v)@ =~= old(v)@ + le32_bytes(x as int));
    }
}

/// Appends a copy of `s`.
fn extend_bytes(v: &mut Vec<u8>, s: &Vec<u8>)
    ensures
        final(v)@ == old(v)@ + s@,
{
    let n = s.len();
    let mut k: usize = 0;
    while k < n
        invariant
            k <= n,
            n == s@.len(),
            v@ =~= old(v)@ + s@.take(k as int),
        decreases n - k,
    {
        v.push(s[k]);
        proof {
            assert(v@ =~= old(v)@ + s@.take(k + 1));
        }
        k = k + 1;
    }
    proof {
        assert(old(v)@ + s@.take(n as int) =~= old(v)@ + s@);
    }
}

/// Appends the minimal 16-bit format-descriptor chunk.
fn push_format_chunk(v: &mut Vec<u8>, fmt: &WavFormatDescriptor)
    requires
        2 * fmt.channel_count <= u16::MAX,
        fmt.sampling_rate * (2 * fmt.channel_count) <= u32::MAX,
    ensures
        final(v)@ == old(v)@ + chunk_bytes(fmt_tag(), output_format_payload(*fmt)),
{
    v.push(0x66);
    v.push(0x6D);
    v.push(0x74);
    v.push(0x20);
    push_le32(v, 16);
    push_le16(v, fmt.audio_format);
    push_le16(v, fmt.channel_count);
    push_le32(v, fmt.sampling_rate);
    let block_align: u16 = 2 * fmt.channel_count;
    let byte_rate: u32 = fmt.sampling_rate * (block_align as u32);
    push_le32(v, byte_rate);
    push_le16(v, block_align);
    push_le16(v, 16);
    proof {
        assert(output_format_payload(*fmt).len() == 16);
        assert(final(v)@ =~= old(v)@ + chunk_bytes(fmt_tag(), output_format_payload(*fmt)));
    }
}

/// Appends one preserved foreign chunk, re-padded to even length.
fn push_foreign_chunk(v: &mut Vec<u8>, c: &ForeignChunk)
    requires
        c.data@.len() <= u32::MAX,
    ensures
        final(v)@ == old(v)@ + chunk_bytes(c@.tag, c@.data),
{
    let tag = c.tag;
    v.push(tag[0]);
    v.push(tag[1]);
    v.push(tag[2]);
    v.push(tag[3]);
    push_le32(v, c.data.len() as u32);
    extend_bytes(v, &c.data);
    if c.data.len() % 2 == 1 {
        v.push(0);
    }
    proof {
        assert(final(v)@ =~= old(v)@ + chunk_bytes(c@.tag, c@.data));
    }
}

/// Appends the sample-data chunk.
fn push_data_chunk(v: &mut Vec<u8>, data: &Vec<u8>)
    requires
        data@.len() <= u32::MAX,
    ensures
        final(v)@ == old(v)@ + chunk_bytes(data_tag(), data@),
{
    v.push(0x64);
    v.push(0x61);
    v.push(0x74);
    v.push(0x61);
    push_le32(v, data.len() as u32);
    extend_bytes(v, data);
    if data.len() % 2 == 1 {
        v.push(0);
    }
    proof {
        assert(final(v)@ =~= old(v)@ + chunk_bytes(data_tag(), data@));
    }
}

/// Builds the canonical output container from the parsed pieces and the
/// converted sample data, byte for byte as the model states. The
/// recomputed byte rate, block alignment and total size must fit their
/// fields, as they must in any container this writer could emit.
pub fn build_output(fmt: &WavFormatDescriptor, foreign: &Vec<ForeignChunk>, data16: &Vec<u8>) -> (r:
    Vec<u8>)
    requires
        2 * fmt.channel_count <= u16::MAX,
        fmt.sampling_rate * (2 * fmt.channel_count) <= u32::MAX,
        output_size(foreign.deep_view(), data16@.len() as int) <= u32::MAX,
    ensures
        r@ == output_bytes(*fmt, foreign.deep_view(), data16@),
        r@.len() == output_size(foreign.deep_view(), data16@.len() as int),
{
    let ghost all = foreign.deep_view();
    proof {
        assert(foreign_tags_wf(all));
        lemma_foreign_bytes_len(all);
    }
    let mut body: Vec<u8> = Vec::new();
    // "WAVE"
    body.push(0x57);
    body.push(0x41);
    body.push(0x56);
    body.push(0x45);
    push_format_chunk(&mut body, fmt);
    let ghost head = wave_tag() + chunk_bytes(fmt_tag(), output_format_payload(*fmt));
    proof {
        assert(body@ =~= head);
    }
    // every preserved foreign chunk, in first-seen order
    let count = foreign.len();
    let mut i: usize = 0;
    while i < count
        invariant
            i <= count,
            count == all.len(),
            all == foreign.deep_view(),
            foreign_tags_wf(all),
            foreign_wire_size(all) + 44 <= u32::MAX,
            head == wave_tag() + chunk_bytes(fmt_tag(), output_format_payload(*fmt)),
            body@ == head + foreign_chunks_bytes(all.take(i as int)),
        decreases count - i,
    {
        proof {
            lemma_foreign_wire_prefix(all, i as int);
            lemma_foreign_bytes_take_step(all, i as int);
            lemma_foreign_wire_prefix(all, i + 1);
            assert(all[i as int] == foreign@[i as int]@);
        }
        let ghost pre = body@;
        push_foreign_chunk(&mut body, &foreign[i]);
        proof {
            assert(body@ =~= head + foreign_chunks_bytes(all.take(i + 1)));
        }
        i = i + 1;
    }
    proof {
        assert(all.take(count as int) =~= all);
        lemma_foreign_wire_nonneg(all);
    }
    // the sample-data chunk
    push_data_chunk(&mut body, data16);
    proof {
        assert(body@ =~= wave_tag() + chunk_bytes(fmt_tag(), output_format_payload(*fmt))
            + foreign_chunks_bytes(all) + chunk_bytes(data_tag(), data16@));
    }
    // container magic and the recomputed total size, then the body
    let mut out: Vec<u8> = Vec::new();
    out.push(0x52);
    out.push(0x49);
    out.push(0x46);
    out.push(0x46);
    push_le32(&mut out, body.len() as u32);
    extend_bytes(&mut out, &body);
    proof {
        assert(out@ =~= output_bytes(*fmt, foreign.deep_view(), data16@));
    }
    out
}

} // verus!
