//! The in-memory pixel buffer model: a tightly packed interleaved buffer
//! with its dimensions and channel layout, plus the verified buffer
//! manipulations the codec paths need (stride removal and alpha dropping).

use vstd::prelude::*;
use vstd::slice::slice_subrange;
use crate::bytesutil::push_bytes;

verus! {

/// Channel layout of an interleaved pixel buffer.
#[derive(Debug, Clone, Copy, PartialEq, Eq, Structural)]
pub enum PixelLayout {
    Rgb,
    Rgba,
}

/// Bytes per pixel of a layout.
pub open spec fn spec_channels(l: PixelLayout) -> int {
    match l {
        PixelLayout::Rgb => 3,
        PixelLayout::Rgba => 4,
    }
}

/// A decoded image: a tightly packed interleaved pixel buffer, its
/// dimensions, its layout, and whether the decoded source reported an
/// alpha channel.
#[derive(Debug, Clone)]
pub struct PixelBuffer {
    pub pixels: Vec<u8>,
    pub width: u32,
    pub height: u32,
    pub layout: PixelLayout,
    pub source_has_alpha: bool,
}

impl PixelBuffer {
    /// Well-formed: the buffer holds exactly width x height pixels of the
    /// layout's size, with no row padding.
    pub open spec fn wf(self) -> bool {
        self.pixels@.len() == self.width * self.height * spec_channels(self.layout)
    }

    /// Build an RGBA buffer, checking that the byte count matches the
    /// dimensions; `None` when it does not.
    pub fn from_rgba(pixels: Vec<u8>, width: u32, height: u32, source_has_alpha: bool) -> (r:
        Option<PixelBuffer>)
        ensures
            match r {
                Some(b) => {
                    &&& b.wf()
                    &&& b.pixels == pixels
                    &&& b.width == width
                    &&& b.height == height
                    &&& b.layout == PixelLayout::Rgba
                    &&& b.source_has_alpha == source_has_alpha
                },
                None => pixels@.len() != width * height * 4,
            },
    {
        proof {
            assert((width as int) * (height as int) * 4 <= 0xffff_ffff * 0xffff_ffff * 4)
                by (nonlinear_arith)
                requires
                    width <= 0xffff_ffff && height <= 0xffff_ffff,
            ;
        }
        let need: u128 = (width as u128) * (height as u128) * 4;
        if pixels.len() as u128 == need {
            Some(PixelBuffer { pixels, width, height, layout: PixelLayout::Rgba, source_has_alpha })
        } else {
            None
        }
    }

    /// Whether the decoded source reported an alpha channel.
    pub fn has_alpha(&self) -> (r: bool)
        ensures
            r == self.source_has_alpha,
    {
        self.source_has_alpha
    }

    /// Drop the alpha channel: every pixel keeps its three color bytes,
    /// byte for byte. JPEG has no alpha channel, so its path encodes the
    /// result of this conversion.
    pub fn to_rgb(&self) -> (r: PixelBuffer)
        requires
            self.wf(),
            self.layout == PixelLayout::Rgba,
        ensures
            r.wf(),
            r.width == self.width,
            r.height == self.height,
            r.layout == PixelLayout::Rgb,
            r.source_has_alpha == false,
            forall|p: int|
                0 <= p < self.width * self.height ==> #[trigger] r.pixels@.subrange(
                    3 * p,
                    3 * p + 3,
                ) == self.pixels@.subrange(4 * p, 4 * p + 3),
    {
        let len = self.pixels.len();
        proof {
            assert(self.width * self.height * 4 == len);
            assert(self.width as int * self.height as int <= len && 4 * (self.width as int
                * self.height as int) == len) by (nonlinear_arith)
                requires
                    self.width as int * self.height as int * 4 == len,
            ;
        }
        let count: usize = (self.width as usize) * (self.height as usize);
        let mut out: Vec<u8> = Vec::new();
        let src = self.pixels.as_slice();
        for p in 0..count
            invariant
                count == self.width * self.height,
                self.pixels@.len() == count * 4,
                count * 4 <= usize::MAX,
                src@ == self.pixels@,
                out@.len() == 3 * p,
                forall|q: int|
                    0 <= q < p ==> #[trigger] out@.subrange(3 * q, 3 * q + 3) == self.pixels@
                        .subrange(4 * q, 4 * q + 3),
        {
            proof {
                assert(p * 4 + 4 <= count * 4) by (nonlinear_arith)
                    requires
                        p < count,
                        0 <= p,
                ;
            }
            let base: usize = p * 4;
            let ghost prev = out@;
            push_bytes(&mut out, slice_subrange(src, base, base + 3));
            proof {
                assert(out@.subrange(3 * p as int, 3 * p as int + 3) =~= self.pixels@.subrange(
                    4 * p as int,
                    4 * p as int + 3,
                ));
                assert(forall|q: int|
                    0 <= q < p ==> #[trigger] out@.subrange(3 * q, 3 * q + 3) =~= prev.subrange(
                        3 * q,
                        3 * q + 3,
                    ));
            }
        }
        let r = PixelBuffer {
            pixels: out,
            width: self.width,
            height: self.height,
            layout: PixelLayout::Rgb,
            source_has_alpha: false,
        };
        proof {
            assert(r.pixels@.len() == r.width * r.height * 3) by (nonlinear_arith)
                requires
                    r.pixels@.len() == 3 * (r.width * r.height),
            ;
        }
        r
    }
}

/// Copy the rows of a decoded plane into a tightly packed RGBA buffer,
/// discarding per-row padding: the plane's row stride may exceed
/// `width * 4` bytes, so each row contributes exactly its first
/// `width * 4` bytes.
pub fn pack_rows(plane: &[u8], stride: usize, width: u32, height: u32) -> (r: Vec<u8>)
    requires
        width * 4 <= stride,
        height > 0 ==> (height - 1) * stride + width * 4 <= plane@.len(),
        width * height * 4 <= usize::MAX,
    ensures
        r@.len() == width * height * 4,
        forall|y: int|
            0 <= y < height ==> #[trigger] r@.subrange(y * (width * 4), (y + 1) * (width * 4))
                == plane@.subrange(y * stride, y * stride + width * 4),
{
    broadcast use vstd::arithmetic::mul::group_mul_basics;

    let w4: usize = (width as usize) * 4;
    let plane_len = plane.len();
    let mut out: Vec<u8> = Vec::new();
    let h = height as usize;
    for y in 0..h
        invariant
            h == height,
            w4 == width * 4,
            w4 <= stride,
            plane_len == plane@.len(),
            height > 0 ==> (height - 1) * stride + width * 4 <= plane_len,
            width * height * 4 <= usize::MAX,
            out@.len() == y * (width * 4),
            forall|z: int|
                0 <= z < y ==> #[trigger] out@.subrange(z * (width * 4), (z + 1) * (width * 4))
                    == plane@.subrange(z * stride, z * stride + width * 4),
    {
        proof {
            assert(y * stride + w4 <= plane_len && y * (width * 4) + w4 <= width * height * 4)
                by (nonlinear_arith)
                requires
                    y < height,
                    w4 == width * 4,
                    w4 <= stride,
                    (height - 1) * stride + width * 4 <= plane_len,
                    width * height * 4 <= usize::MAX,
                    0 <= y,
                    0 <= stride,
            ;
        }
        let start: usize = y * stride;
        let ghost prev = out@;
        push_bytes(&mut out, slice_subrange(plane, start, start + w4));
        proof {
            assert((y as int + 1) * (width * 4) == y as int * (width * 4) + width * 4)
                by (nonlinear_arith);
            assert(out@.subrange(y as int * (width * 4), (y as int + 1) * (width * 4)) =~= plane@
                .subrange(y as int * stride, y as int * stride + width * 4));
            assert forall|z: int| 0 <= z < y implies #[trigger] out@.subrange(
                z * (width * 4),
                (z + 1) * (width * 4),
            ) == plane@.subrange(z * stride, z * stride + width * 4) by {
                vstd::arithmetic::mul::lemma_mul_inequality(z + 1, y as int, width * 4 as int);
                assert(z * (width * 4) >= 0 && (z + 1) * (width * 4) == z * (width * 4) + width
                    * 4) by (nonlinear_arith)
                    requires
                        0 <= z,
                ;
                assert(out@.subrange(z * (width * 4), (z + 1) * (width * 4)) =~= prev.subrange(
                    z * (width * 4),
                    (z + 1) * (width * 4),
                ));
            }
        }
    }
    proof {
        assert(height * (width * 4) == width * height * 4) by (nonlinear_arith);
    }
    out
}

} // verus!
