//! Display frames and the capture-side frame processing: decoding a raw
//! camera frame to RGBA and cutting the fixed-offset square crop out of it.
//!
//! The decode itself is done by the `image` crate; the crop and everything
//! around the decode is verified here. Dimensions are fixed for a session:
//! a processed frame always has the configured square size, whatever the
//! aspect ratio of the raw input.

use vstd::prelude::*;

verus! {

/// A fixed-resolution RGBA frame, ready for presentation: exactly four bytes
/// per pixel, row major.
#[derive(Clone, Debug, PartialEq, Eq)]
pub struct DisplayFrame {
    /// Width in pixels.
    pub width: u32,
    /// Height in pixels.
    pub height: u32,
    /// RGBA bytes, row major, `4 * width * height` of them.
    pub data: Vec<u8>,
}

impl DisplayFrame {
    /// The frame is complete: it holds exactly four bytes for each of its
    /// `width * height` pixels.
    pub open spec fn wf(self) -> bool {
        self.data@.len() == 4 * self.width * self.height
    }
}

/// What can go wrong on the capture side.
#[derive(Clone, Copy, Debug, PartialEq, Eq, Structural)]
pub enum CaptureError {
    /// The camera device could not be opened; fatal to the capture
    /// subsystem, surfaced to the operator without retry at this layer.
    DeviceUnavailable,
    /// The requested resolution, frame rate or pixel format is not offered;
    /// fatal like an unavailable device.
    FormatUnsupported,
    /// One frame could not be decoded, or came in unexpected dimensions;
    /// recoverable, the frame is dropped and the capture loop continues.
    FrameDecode,
}

/// Position of one byte of the pixel at `(x, y)`, channel `c`, in a row-major
/// RGBA buffer of the given width.
pub open spec fn rgba_index(width: int, x: int, y: int, c: int) -> int {
    4 * (y * width + x) + c
}

/// Byte positions grow with the pixel position in row-major order: a pixel
/// before `(x2, y2)` lies wholly before the bytes of `(x2, y2)`.
proof fn lemma_rgba_index_before(size: int, x1: int, y1: int, c1: int, x2: int, y2: int)
    requires
        0 <= x1 < size,
        0 <= c1 < 4,
        0 <= y1,
        0 <= x2 <= size,
        y1 < y2 || (y1 == y2 && x1 < x2),
    ensures
        rgba_index(size, x1, y1, c1) < 4 * (y2 * size + x2),
{
    assert(4 * (y1 * size + x1) + c1 < 4 * (y2 * size + x2)) by (nonlinear_arith)
        requires
            0 <= x1 < size,
            0 <= c1 < 4,
            0 <= y1,
            0 <= x2 <= size,
            y1 < y2 || (y1 == y2 && x1 < x2),
    ;
}

/// A byte position inside an image stays inside its buffer.
proof fn lemma_rgba_index_bound(width: int, height: int, x: int, y: int, c: int)
    requires
        0 <= x < width,
        0 <= y < height,
        0 <= c < 4,
    ensures
        0 <= rgba_index(width, x, y, c),
        rgba_index(width, x, y, c) < 4 * width * height,
{
    assert(0 <= 4 * (y * width + x) + c < 4 * width * height) by (nonlinear_arith)
        requires
            0 <= x < width,
            0 <= y < height,
            0 <= c < 4,
    ;
}

/// Cut a square of side `size` out of an RGBA buffer, starting at the fixed
/// offset `(off_x, off_y)`: output pixel `(x, y)` is input pixel
/// `(x + off_x, y + off_y)`, channel for channel.
pub fn crop_rgba(data: &Vec<u8>, src_w: u32, src_h: u32, off_x: u32, off_y: u32, size: u32) -> (out:
    Vec<u8>)
    requires
        data@.len() == 4 * src_w * src_h,
        off_x + size <= src_w,
        off_y + size <= src_h,
    ensures
        out@.len() == 4 * size * size,
        forall|x: int, y: int, c: int|
            0 <= x < size && 0 <= y < size && 0 <= c < 4 ==> out@[rgba_index(size as int, x, y, c)]
                == data@[rgba_index(src_w as int, x + off_x, y + off_y, c)],
{
    let _data_len: usize = data.len();
    let mut out: Vec<u8> = Vec::new();
    let mut y: u32 = 0;
    while y < size
        invariant
            data@.len() == 4 * src_w * src_h,
            data@.len() <= usize::MAX,
            off_x + size <= src_w,
            off_y + size <= src_h,
            y <= size,
            out@.len() == 4 * (y * size),
            forall|xx: int, yy: int, cc: int|
                0 <= xx < size && 0 <= yy < y && 0 <= cc < 4 ==> out@[rgba_index(
                    size as int,
                    xx,
                    yy,
                    cc,
                )] == data@[rgba_index(src_w as int, xx + off_x, yy + off_y, cc)],
        decreases size - y,
    {
        let mut x: u32 = 0;
        while x < size
            invariant
                data@.len() == 4 * src_w * src_h,
                data@.len() <= usize::MAX,
                off_x + size <= src_w,
                off_y + size <= src_h,
                y < size,
                x <= size,
                out@.len() == 4 * (y * size + x),
                forall|xx: int, yy: int, cc: int|
                    (0 <= xx < size && 0 <= yy < y && 0 <= cc < 4) || (0 <= xx < x && yy == y && 0
                        <= cc < 4) ==> out@[rgba_index(size as int, xx, yy, cc)] == data@[rgba_index(
                        src_w as int,
                        xx + off_x,
                        yy + off_y,
                        cc,
                    )],
            decreases size - x,
        {
            proof {
                lemma_rgba_index_bound(src_w as int, src_h as int, x + off_x, y + off_y, 3);
                lemma_rgba_index_bound(size as int, size as int, x as int, y as int, 3);
                assert(((y + off_y) as int) * (src_w as int) + ((x + off_x) as int) < (
                src_w as int) * (src_h as int)) by (nonlinear_arith)
                    requires
                        0 <= (x as int) + (off_x as int) < src_w as int,
                        0 <= (y as int) + (off_y as int) < src_h as int,
                ;
            }
            let sx: usize = (x + off_x) as usize;
            let sy: usize = (y + off_y) as usize;
            let base: usize = 4 * (sy * (src_w as usize) + sx);
            let ghost before = out@;
            out.push(data[base]);
            out.push(data[base + 1]);
            out.push(data[base + 2]);
            out.push(data[base + 3]);
            proof {
                assert forall|xx: int, yy: int, cc: int|
                    ((0 <= xx < size && 0 <= yy < y) || (0 <= xx < x + 1 && yy == y)) && 0 <= cc
                        < 4 implies out@[rgba_index(size as int, xx, yy, cc)] == data@[rgba_index(
                    src_w as int,
                    xx + off_x,
                    yy + off_y,
                    cc,
                )] by {
                    if yy == y && xx == x {
                        assert(rgba_index(size as int, xx, yy, cc) == before.len() + cc);
                    } else {
                        lemma_rgba_index_before(size as int, xx, yy, cc, x as int, y as int);
                        assert(out@[rgba_index(size as int, xx, yy, cc)] == before[rgba_index(
                            size as int,
                            xx,
                            yy,
                            cc,
                        )]);
                    }
                }
            }
            x = x + 1;
        }
        proof {
            assert((y + 1) * size == y * size + size) by (nonlinear_arith);
        }
        y = y + 1;
    }
    proof {
        assert(4 * (size as int * size as int) == 4 * size as int * size as int)
            by (nonlinear_arith);
    }
    out
}

/// The RGBA bytes that decoding an encoded image yields: a fixed function of
/// the encoded bytes alone, row major, four bytes per pixel.
pub uninterp spec fn rgba_pixels_of(encoded: Seq<u8>) -> Seq<u8>;

/// Whether decoding an encoded image succeeds: like the decoded bytes, a
/// fixed predicate of the encoded bytes alone.
pub uninterp spec fn decode_ok_of(encoded: Seq<u8>) -> bool;

/// Width in pixels of the decoded image.
pub uninterp spec fn rgba_width_of(encoded: Seq<u8>) -> u32;

/// Height in pixels of the decoded image.
pub uninterp spec fn rgba_height_of(encoded: Seq<u8>) -> u32;

/// Relies on image::load_from_memory and image::DynamicImage::into_rgba8:
/// whether decoding succeeds, the decoded dimensions and the decoded pixels
/// are all functions of the encoded bytes alone, and the raw buffer of the
/// decoded RGBA image holds exactly `4 * width * height` bytes. The
/// determinism assumes no format-detection or decoding hook has been
/// registered in the image crate's process-global hook registry: nothing in
/// this crate registers one, but a host program that does so voids these
/// clauses.
#[verifier::external_body]
fn decode_rgba(encoded: &Vec<u8>) -> (r: Result<(u32, u32, Vec<u8>), CaptureError>)
    ensures
        match r {
            Ok(t) => {
                &&& decode_ok_of(encoded@)
                &&& t.0 == rgba_width_of(encoded@)
                &&& t.1 == rgba_height_of(encoded@)
                &&& t.2@ == rgba_pixels_of(encoded@)
                &&& t.2@.len() == 4 * t.0 * t.1
            },
            Err(e) => !decode_ok_of(encoded@) && e == CaptureError::FrameDecode,
        },
{
    match image::load_from_memory(encoded.as_slice()) {
        Ok(img) => {
            let rgba = img.into_rgba8();
            Ok((rgba.width(), rgba.height(), rgba.into_raw()))
        }
        Err(_) => Err(CaptureError::FrameDecode),
    }
}

/// Decode one raw camera frame and cut the fixed square crop out of it: the
/// result is a complete `size` by `size` RGBA frame whose pixel `(x, y)` is
/// pixel `(x + off_x, y + off_y)` of the decoded image. It succeeds exactly
/// when the frame decodes and the decoded dimensions are the expected
/// `src_w` by `src_h`; any other frame is dropped with a recoverable error.
pub fn process_frame(
    encoded: &Vec<u8>,
    src_w: u32,
    src_h: u32,
    off_x: u32,
    off_y: u32,
    size: u32,
) -> (r: Result<DisplayFrame, CaptureError>)
    requires
        off_x + size <= src_w,
        off_y + size <= src_h,
    ensures
        r is Ok <==> decode_ok_of(encoded@) && rgba_width_of(encoded@) == src_w && rgba_height_of(
            encoded@,
        ) == src_h,
        r matches Ok(f) ==> {
            &&& f.wf()
            &&& f.width == size
            &&& f.height == size
            &&& rgba_pixels_of(encoded@).len() == 4 * src_w * src_h
            &&& forall|x: int, y: int, c: int|
                0 <= x < size && 0 <= y < size && 0 <= c < 4 ==> f.data@[rgba_index(
                    size as int,
                    x,
                    y,
                    c,
                )] == rgba_pixels_of(encoded@)[rgba_index(src_w as int, x + off_x, y + off_y, c)]
        },
        r is Err ==> r == Err::<DisplayFrame, CaptureError>(CaptureError::FrameDecode),
{
    match decode_rgba(encoded) {
        Ok((w, h, pixels)) => {
            if w == src_w && h == src_h {
                let data = crop_rgba(&pixels, src_w, src_h, off_x, off_y, size);
                Ok(DisplayFrame { width: size, height: size, data })
            } else {
                Err(CaptureError::FrameDecode)
            }
        },
        Err(e) => Err(e),
    }
}

} // verus!
