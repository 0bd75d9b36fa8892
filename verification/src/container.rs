//! RIFF/WebP binary container codec.
//!
//! A WebP file is a RIFF container: `"RIFF"`, a little-endian 32-bit total
//! size (file length minus 8), `"WEBP"`, then chunks, each of a 4-byte tag,
//! a little-endian 32-bit data length, the data, and one zero padding byte
//! when the data length is odd.
//!
//! This module embeds an ICC profile into an encoded WebP stream by
//! patching that container: an already-extended stream (`VP8X` first chunk)
//! gets the ICC flag bit set and an `ICCP` chunk spliced in after the VP8X
//! payload; a simple stream (`VP8 ` or `VP8L` first chunk) is rewrapped in
//! a synthesized extended-format container. Inputs too short to be WebP, or
//! without the `WEBP` four-character code, come back unchanged.

use vstd::prelude::*;
use vstd::bytes::{
    lemma_auto_spec_u32_to_from_le_bytes, spec_u16_from_le_bytes, spec_u32_from_le_bytes,
    spec_u32_to_le_bytes, u16_from_le_bytes, u32_to_le_bytes,
};
use vstd::slice::{slice_subrange, slice_to_vec};
use crate::bytesutil::{is4, push_bytes};

verus! {

/// The `"RIFF"` four-character code.
pub open spec fn spec_fourcc_riff() -> Seq<u8> {
    seq![0x52u8, 0x49, 0x46, 0x46]
}

/// The `"WEBP"` four-character code.
pub open spec fn spec_fourcc_webp() -> Seq<u8> {
    seq![0x57u8, 0x45, 0x42, 0x50]
}

/// The `"ICCP"` four-character code.
pub open spec fn spec_fourcc_iccp() -> Seq<u8> {
    seq![0x49u8, 0x43, 0x43, 0x50]
}

/// The `"VP8X"` four-character code (extended-format header chunk).
pub open spec fn spec_fourcc_vp8x() -> Seq<u8> {
    seq![0x56u8, 0x50, 0x38, 0x58]
}

/// The `"VP8 "` four-character code (simple lossy payload).
pub open spec fn spec_fourcc_vp8() -> Seq<u8> {
    seq![0x56u8, 0x50, 0x38, 0x20]
}

/// The `"VP8L"` four-character code (simple lossless payload).
pub open spec fn spec_fourcc_vp8l() -> Seq<u8> {
    seq![0x56u8, 0x50, 0x38, 0x4c]
}

/// A RIFF chunk: tag, little-endian 32-bit data length, data, and one zero
/// padding byte when the data length is odd (RIFF chunks are word-aligned).
pub open spec fn spec_riff_chunk(fourcc: Seq<u8>, data: Seq<u8>) -> Seq<u8> {
    fourcc + spec_u32_to_le_bytes(data.len() as u32) + data + if data.len() % 2 == 1 {
        seq![0x00u8]
    } else {
        Seq::<u8>::empty()
    }
}

/// Build a RIFF chunk: tag + LE32 size + data + optional padding byte.
pub fn build_riff_chunk(fourcc: &[u8; 4], data: &Vec<u8>) -> (r: Vec<u8>)
    requires
        data@.len() <= u32::MAX,
    ensures
        r@ == spec_riff_chunk(fourcc@, data@),
{
    let mut chunk: Vec<u8> = Vec::new();
    push_bytes(&mut chunk, fourcc.as_slice());
    let len_bytes = u32_to_le_bytes(data.len() as u32);
    push_bytes(&mut chunk, len_bytes.as_slice());
    push_bytes(&mut chunk, data.as_slice());
    if data.len() % 2 != 0 {
        chunk.push(0x00u8);
    }
    proof {
        assert(chunk@ =~= spec_riff_chunk(fourcc@, data@));
    }
    chunk
}

/// Law: a RIFF chunk is its 4-byte tag, the data length as 32-bit
/// little-endian, the data itself, and one zero padding byte exactly when
/// the data length is odd — so its total length is `8 + len + (len % 2)`.
pub proof fn lemma_riff_chunk_shape(fourcc: Seq<u8>, data: Seq<u8>)
    requires
        fourcc.len() == 4,
        data.len() <= u32::MAX,
    ensures
        ({
            let c = spec_riff_chunk(fourcc, data);
            &&& c.len() == 8 + data.len() + if data.len() % 2 == 1 {
                1int
            } else {
                0int
            }
            &&& c.subrange(0, 4) == fourcc
            &&& spec_u32_from_le_bytes(c.subrange(4, 8)) == data.len()
            &&& c.subrange(8, 8 + data.len() as int) == data
            &&& data.len() % 2 == 1 ==> c.last() == 0
        }),
{
    lemma_auto_spec_u32_to_from_le_bytes();
    let c = spec_riff_chunk(fourcc, data);
    assert(c.subrange(0, 4) =~= fourcc);
    assert(c.subrange(4, 8) =~= spec_u32_to_le_bytes(data.len() as u32));
    assert(c.subrange(8, 8 + data.len() as int) =~= data);
}

/// The value one less than `v`, saturating at zero.
pub open spec fn spec_sub_one(v: u32) -> u32 {
    if v == 0 {
        0u32
    } else {
        (v - 1) as u32
    }
}

/// The low 24 bits of `v` in little-endian order.
pub open spec fn spec_u24_le(v: u32) -> Seq<u8> {
    seq![(v & 0xff) as u8, ((v >> 8) & 0xff) as u8, ((v >> 16) & 0xff) as u8]
}

/// The 10-byte VP8X chunk payload: a flags byte with the ICC bit (0x20)
/// always set and the alpha bit (0x10) set when `alpha` holds, three
/// reserved zero bytes, then canvas width minus one and height minus one
/// as 24-bit little-endian fields.
pub open spec fn spec_vp8x_payload(w: u32, h: u32, alpha: bool) -> Seq<u8> {
    seq![if alpha { 0x30u8 } else { 0x20u8 }, 0x00u8, 0x00u8]
    + seq![0x00u8]
    + spec_u24_le(spec_sub_one(w)) + spec_u24_le(spec_sub_one(h))
}

/// Canvas dimensions read from a simple WebP stream `d` whose first chunk
/// has tag `chunk_type`. `VP8 ` stores 14-bit width and height in the two
/// little-endian 16-bit fields at file offsets 26 and 28; `VP8L` stores a
/// signature byte at offset 20 and then a 32-bit little-endian word at
/// offset 21 packing width-1 in bits 0-13 and height-1 in bits 14-27.
/// Streams shorter than 30 bytes, or with another tag, give (1, 1).
pub open spec fn spec_webp_dimensions(d: Seq<u8>, chunk_type: Seq<u8>) -> (u32, u32) {
    if d.len() < 30 {
        (1u32, 1u32)
    } else if chunk_type == spec_fourcc_vp8() {
        (
            (spec_u16_from_le_bytes(d.subrange(26, 28)) & 0x3fff) as u32,
            (spec_u16_from_le_bytes(d.subrange(28, 30)) & 0x3fff) as u32,
        )
    } else if chunk_type == spec_fourcc_vp8l() {
        let bits = spec_u32_from_le_bytes(d.subrange(21, 25));
        (((bits & 0x3fff) + 1) as u32, (((bits >> 14) & 0x3fff) + 1) as u32)
    } else {
        (1u32, 1u32)
    }
}

/// Read canvas dimensions from a simple WebP bitstream.
pub fn read_webp_dimensions(webp_data: &[u8], chunk_type: &[u8]) -> (r: (u32, u32))
    ensures
        r == spec_webp_dimensions(webp_data@, chunk_type@),
{
    if webp_data.len() < 30 {
        return (1, 1);
    }
    if is4(chunk_type, 0x56, 0x50, 0x38, 0x20) {
        let w16 = u16_from_le_bytes(slice_subrange(webp_data, 26, 28));
        let h16 = u16_from_le_bytes(slice_subrange(webp_data, 28, 30));
        ((w16 & 0x3fff) as u32, (h16 & 0x3fff) as u32)
    } else if is4(chunk_type, 0x56, 0x50, 0x38, 0x4c) {
        let bits = vstd::bytes::u32_from_le_bytes(slice_subrange(webp_data, 21, 25));
        proof {
            assert(bits & 0x3fff <= 0x3fff && (bits >> 14) & 0x3fff <= 0x3fff) by (bit_vector);
        }
        ((bits & 0x3fff) + 1, ((bits >> 14) & 0x3fff) + 1)
    } else {
        (1, 1)
    }
}

/// Build the 10-byte VP8X payload for the given canvas size and alpha flag.
fn build_vp8x_payload(w: u32, h: u32, alpha: bool) -> (r: Vec<u8>)
    ensures
        r@ == spec_vp8x_payload(w, h, alpha),
{
    let mut p: Vec<u8> = Vec::new();
    p.push(if alpha { 0x30u8 } else { 0x20u8 });
    p.push(0x00u8);
    p.push(0x00u8);
    p.push(0x00u8);
    let wm1: u32 = if w == 0 { 0 } else { w - 1 };
    let hm1: u32 = if h == 0 { 0 } else { h - 1 };
    proof {
        assert(forall|v: u32|
            #![auto]
            v & 0xff <= 0xff && (v >> 8) & 0xff <= 0xff && (v >> 16) & 0xff <= 0xff)
            by (bit_vector);
    }
    p.push((wm1 & 0xff) as u8);
    p.push(((wm1 >> 8) & 0xff) as u8);
    p.push(((wm1 >> 16) & 0xff) as u8);
    p.push((hm1 & 0xff) as u8);
    p.push(((hm1 >> 8) & 0xff) as u8);
    p.push(((hm1 >> 16) & 0xff) as u8);
    proof {
        assert(p@ =~= spec_vp8x_payload(w, h, alpha));
    }
    p
}

/// The result of splicing `icc_chunk` into an already-extended WebP stream
/// `d`: the RIFF size field is rewritten to the new length minus 8, the ICC
/// flag bit (0x20) is set in the flags byte at offset 20, the chunk is
/// inserted right after the 10-byte VP8X payload (offset 30), and all other
/// bytes are kept.
pub open spec fn spec_patch_extended(d: Seq<u8>, icc_chunk: Seq<u8>) -> Seq<u8>
    recommends
        d.len() >= 30,
{
    d.subrange(0, 4)
    + spec_u32_to_le_bytes((d.len() + icc_chunk.len() - 8) as u32)
    + d.subrange(8, 20)
    + seq![d[20] | 0x20]
    + d.subrange(21, 30)
    + icc_chunk
    + d.subrange(30, d.len() as int)
}

/// Inject an ICC chunk into an already-extended WebP (first chunk `VP8X`).
/// Inputs shorter than the 30-byte extended header come back unchanged.
pub fn inject_icc_into_extended_webp(webp_data: &[u8], icc_chunk: &[u8]) -> (r: Vec<u8>)
    requires
        webp_data@.len() + icc_chunk@.len() <= u32::MAX as int + 8,
    ensures
        r@ == if webp_data@.len() < 30 {
            webp_data@
        } else {
            spec_patch_extended(webp_data@, icc_chunk@)
        },
{
    if webp_data.len() < 30 {
        return slice_to_vec(webp_data);
    }
    let total: u64 = webp_data.len() as u64 + icc_chunk.len() as u64;
    let riff_size: u32 = (total - 8) as u32;
    let mut result: Vec<u8> = Vec::new();
    push_bytes(&mut result, slice_subrange(webp_data, 0, 4));
    let size_bytes = u32_to_le_bytes(riff_size);
    push_bytes(&mut result, size_bytes.as_slice());
    push_bytes(&mut result, slice_subrange(webp_data, 8, 20));
    result.push(webp_data[20] | 0x20);
    push_bytes(&mut result, slice_subrange(webp_data, 21, 30));
    push_bytes(&mut result, icc_chunk);
    push_bytes(&mut result, slice_subrange(webp_data, 30, webp_data.len()));
    proof {
        assert(result@ =~= spec_patch_extended(webp_data@, icc_chunk@));
    }
    result
}

/// The result of rewrapping a simple WebP stream `d` (first chunk `VP8 ` or
/// `VP8L`) into extended format: a fresh RIFF header, a synthesized VP8X
/// chunk whose flags carry the ICC bit (and the alpha bit for `VP8L`, since
/// lossless frames may carry alpha), then `icc_chunk`, then everything of
/// `d` after its 12-byte header. The declared total size is 4 (for "WEBP")
/// plus the lengths of the VP8X chunk, the ICC chunk and that payload.
pub open spec fn spec_wrap_simple(d: Seq<u8>, icc_chunk: Seq<u8>) -> Seq<u8>
    recommends
        d.len() >= 16,
{
    let chunk_type = d.subrange(12, 16);
    let dims = spec_webp_dimensions(d, chunk_type);
    let vp8x_chunk = spec_riff_chunk(
        spec_fourcc_vp8x(),
        spec_vp8x_payload(dims.0, dims.1, chunk_type == spec_fourcc_vp8l()),
    );
    let payload = d.subrange(12, d.len() as int);
    let total = 4 + vp8x_chunk.len() + icc_chunk.len() + payload.len();
    spec_fourcc_riff() + spec_u32_to_le_bytes(total as u32) + spec_fourcc_webp() + vp8x_chunk
        + icc_chunk + payload
}

/// Wrap a simple WebP (`VP8 `/`VP8L`) into extended format with VP8X + ICCP.
pub fn wrap_simple_webp_with_icc(webp_data: &[u8], icc_chunk: &[u8], chunk_type: &[u8]) -> (r: Vec<
    u8,
>)
    requires
        webp_data@.len() >= 16,
        chunk_type@ == webp_data@.subrange(12, 16),
        webp_data@.len() + icc_chunk@.len() + 10 <= u32::MAX,
    ensures
        r@ == spec_wrap_simple(webp_data@, icc_chunk@),
{
    let dims = read_webp_dimensions(webp_data, chunk_type);
    let alpha = is4(chunk_type, 0x56, 0x50, 0x38, 0x4c);
    let vp8x_payload = build_vp8x_payload(dims.0, dims.1, alpha);
    let vp8x_tag: [u8; 4] = [0x56, 0x50, 0x38, 0x58];
    let vp8x_chunk = build_riff_chunk(&vp8x_tag, &vp8x_payload);
    proof {
        vstd::bytes::lemma_auto_spec_u32_to_from_le_bytes();
        assert(vp8x_chunk@.len() == 18);
    }
    let total: u64 = 4 + vp8x_chunk.len() as u64 + icc_chunk.len() as u64 + (webp_data.len() as u64
        - 12);
    let mut result: Vec<u8> = Vec::new();
    let riff_tag: [u8; 4] = [0x52, 0x49, 0x46, 0x46];
    push_bytes(&mut result, riff_tag.as_slice());
    let size_bytes = u32_to_le_bytes(total as u32);
    push_bytes(&mut result, size_bytes.as_slice());
    let webp_tag: [u8; 4] = [0x57, 0x45, 0x42, 0x50];
    push_bytes(&mut result, webp_tag.as_slice());
    push_bytes(&mut result, vp8x_chunk.as_slice());
    push_bytes(&mut result, icc_chunk);
    push_bytes(&mut result, slice_subrange(webp_data, 12, webp_data.len()));
    proof {
        assert(vp8x_tag@ =~= spec_fourcc_vp8x());
        assert(riff_tag@ =~= spec_fourcc_riff());
        assert(webp_tag@ =~= spec_fourcc_webp());
        assert(result@ =~= spec_wrap_simple(webp_data@, icc_chunk@));
    }
    result
}

/// The result of embedding ICC bytes `icc` into the WebP stream `d`:
/// unchanged when `d` is too short to carry a chunk after its header or
/// does not declare the `WEBP` four-character code at offset 8; otherwise
/// the extended-format patch or the simple-format rewrap, with the ICC
/// bytes carried in an `ICCP` chunk.
pub open spec fn spec_inject_icc(d: Seq<u8>, icc: Seq<u8>) -> Seq<u8> {
    if d.len() < 16 || d.subrange(8, 12) != spec_fourcc_webp() {
        d
    } else {
        let icc_chunk = spec_riff_chunk(spec_fourcc_iccp(), icc);
        if d.subrange(12, 16) == spec_fourcc_vp8x() {
            if d.len() < 30 {
                d
            } else {
                spec_patch_extended(d, icc_chunk)
            }
        } else {
            spec_wrap_simple(d, icc_chunk)
        }
    }
}

/// Inject an ICC profile into a WebP RIFF container.
///
/// Malformed or too-short inputs come back unchanged, never as an error:
/// WebP output without a profile is still valid output. The size bound is
/// needed only where the container is actually patched (the RIFF size
/// field is 32 bits); too-short inputs are accepted unconditionally.
pub fn inject_icc_into_webp(webp_data: &[u8], icc_data: &[u8]) -> (r: Vec<u8>)
    requires
        webp_data@.len() >= 16 ==> webp_data@.len() + icc_data@.len() + 19 <= u32::MAX,
    ensures
        r@ == spec_inject_icc(webp_data@, icc_data@),
{
    if webp_data.len() < 16 {
        return slice_to_vec(webp_data);
    }
    if !is4(slice_subrange(webp_data, 8, 12), 0x57, 0x45, 0x42, 0x50) {
        return slice_to_vec(webp_data);
    }
    let iccp_tag: [u8; 4] = [0x49, 0x43, 0x43, 0x50];
    let icc_vec = slice_to_vec(icc_data);
    let icc_chunk = build_riff_chunk(&iccp_tag, &icc_vec);
    proof {
        assert(iccp_tag@ =~= spec_fourcc_iccp());
        vstd::bytes::lemma_auto_spec_u32_to_from_le_bytes();
        assert(icc_chunk@.len() <= icc_data@.len() + 9);
    }
    if is4(slice_subrange(webp_data, 12, 16), 0x56, 0x50, 0x38, 0x58) {
        inject_icc_into_extended_webp(webp_data, icc_chunk.as_slice())
    } else {
        wrap_simple_webp_with_icc(webp_data, icc_chunk.as_slice(), slice_subrange(webp_data, 12, 16))
    }
}

/// Law: a stream too short to be WebP comes back unchanged, whatever the
/// profile — identity, not an error.
pub proof fn lemma_inject_icc_short_identity(d: Seq<u8>, icc: Seq<u8>)
    requires
        d.len() < 12,
    ensures
        spec_inject_icc(d, icc) == d,
{
}

/// Law: embedding an ICC profile into a WebP stream that carries the `WEBP`
/// four-character code (and, when already in extended format, a complete
/// 30-byte extended header) yields a container that still carries the
/// `WEBP` code, whose flags byte at offset 20 has the ICC-present bit
/// (0x20) set, and whose declared RIFF total size at offset 4 equals its
/// true byte length minus 8.
pub proof fn lemma_inject_icc_container_valid(d: Seq<u8>, icc: Seq<u8>)
    requires
        d.len() >= 16,
        d.subrange(8, 12) == spec_fourcc_webp(),
        d.subrange(12, 16) == spec_fourcc_vp8x() ==> d.len() >= 30,
        d.len() + icc.len() + 19 <= u32::MAX,
    ensures
        ({
            let r = spec_inject_icc(d, icc);
            &&& r.len() >= 30
            &&& r.subrange(8, 12) == spec_fourcc_webp()
            &&& r[20] & 0x20 == 0x20
            &&& spec_u32_from_le_bytes(r.subrange(4, 8)) == r.len() - 8
        }),
{
    lemma_auto_spec_u32_to_from_le_bytes();
    let r = spec_inject_icc(d, icc);
    let icc_chunk = spec_riff_chunk(spec_fourcc_iccp(), icc);
    assert(icc_chunk.len() <= icc.len() + 9);
    if d.subrange(12, 16) == spec_fourcc_vp8x() {
        assert(r == spec_patch_extended(d, icc_chunk));
        assert(r.len() == d.len() + icc_chunk.len());
        let total = d.len() + icc_chunk.len();
        assert(r.subrange(4, 8) =~= spec_u32_to_le_bytes((total - 8) as u32));
        assert(spec_u32_from_le_bytes(spec_u32_to_le_bytes((total - 8) as u32)) == (total - 8) as u32);
        assert(r.subrange(8, 12) =~= d.subrange(8, 12));
        assert(r[20] == (d[20] | 0x20));
        let f = d[20];
        assert((f | 0x20) & 0x20 == 0x20) by (bit_vector);
    } else {
        assert(r == spec_wrap_simple(d, icc_chunk));
        let chunk_type = d.subrange(12, 16);
        let dims = spec_webp_dimensions(d, chunk_type);
        let alpha = chunk_type == spec_fourcc_vp8l();
        let vp8x_payload = spec_vp8x_payload(dims.0, dims.1, alpha);
        assert(vp8x_payload.len() == 10);
        let vp8x_chunk = spec_riff_chunk(spec_fourcc_vp8x(), vp8x_payload);
        assert(vp8x_chunk.len() == 18);
        let payload = d.subrange(12, d.len() as int);
        let total = 4 + vp8x_chunk.len() + icc_chunk.len() + payload.len();
        assert(r.len() == 8 + total);
        assert(r.subrange(4, 8) =~= spec_u32_to_le_bytes(total as u32));
        assert(spec_u32_from_le_bytes(spec_u32_to_le_bytes(total as u32)) == total as u32);
        assert(r.subrange(8, 12) =~= spec_fourcc_webp());
        assert(r[20] == vp8x_payload[0]);
        assert(r[20] == if alpha { 0x30u8 } else { 0x20u8 });
        assert(0x30u8 & 0x20 == 0x20 && 0x20u8 & 0x20 == 0x20) by (bit_vector);
    }
}

} // verus!
