//! Resizing of raw images.
use vstd::arithmetic::div_mod::{lemma_fundamental_div_mod, lemma_fundamental_div_mod_converse};
use vstd::prelude::*;
use vstd::string::*;

use crate::frames::{ImageOf, ImageRawFrame};
use crate::payload::{bytes_as_slice, bytes_from};
use crate::text::text_eq;

verus! {

/// Bytes per pixel of a format; nothing for an unknown one.
pub open spec fn pixel_bytes(format: Option<Seq<char>>) -> Option<nat> {
    match format {
        Some(f) => if f == "RGB"@ {
            Some(3)
        } else if f == "RGBA"@ || f == "BGRA"@ || f == "ARGB"@ {
            Some(4)
        } else if f == "L"@ || f == "GRAY"@ {
            Some(1)
        } else {
            None
        },
        None => None,
    }
}

/// Where in a source image of width `sw` and height `sh` the byte at position
/// `i` of a target image of width `dw` and height `dh` is taken from: the pixel
/// nearest above and to the left, and in it the same byte.
pub open spec fn source_index(i: int, sw: int, sh: int, dw: int, dh: int, bpp: int) -> int {
    let pixel = i / bpp;
    let row = (pixel / dw) * sh / dh;
    let column = (pixel % dw) * sw / dw;
    (row * sw + column) * bpp + i % bpp
}

/// An image of width `sw` and height `sh` sampled to width `dw` and height
/// `dh`.
pub open spec fn sampled(src: Seq<u8>, sw: int, sh: int, dw: int, dh: int, bpp: int) -> Seq<u8> {
    Seq::new((dw * dh * bpp) as nat, |i: int| src[source_index(i, sw, sh, dw, dh, bpp)])
}

/// Whether pixels would have to be taken from an image that has none.
pub open spec fn lacks_pixels(
    frame: ImageOf<Seq<char>, Seq<u8>>,
    width: u32,
    height: u32,
) -> bool {
    &&& frame.size != (width, height)
    &&& pixel_bytes(frame.format) is Some
    &&& frame.image.len() == 0
    &&& frame.size.0 == 0 || frame.size.1 == 0
    &&& width > 0 && height > 0
}

/// Whether a resized image would take more bytes than can be allocated.
pub open spec fn outgrows(frame: ImageOf<Seq<char>, Seq<u8>>, width: u32, height: u32) -> bool {
    &&& frame.size != (width, height)
    &&& pixel_bytes(frame.format) is Some
    &&& frame.image.len() == frame.size.0 * frame.size.1 * pixel_bytes(frame.format)->0
    &&& width * height * pixel_bytes(frame.format)->0 > isize::MAX
}

/// The image that is shown in place of one of another size.
pub open spec fn resized(
    frame: ImageOf<Seq<char>, Seq<u8>>,
    width: u32,
    height: u32,
) -> ImageOf<Seq<char>, Seq<u8>> {
    let (sw, sh) = (frame.size.0 as int, frame.size.1 as int);
    let bpp = pixel_bytes(frame.format);
    if frame.size == (width, height) || bpp is None || frame.image.len() != sw * sh * bpp->0 {
        frame
    } else if lacks_pixels(frame, width, height) || outgrows(frame, width, height) {
        ImageOf { image: Seq::empty(), size: (width, height), format: None }
    } else {
        ImageOf {
            image: sampled(frame.image, sw, sh, width as int, height as int, bpp->0 as int),
            size: (width, height),
            format: frame.format,
        }
    }
}

/// Bytes per pixel for a given format string. Returns None for unknown formats.
pub fn bytes_per_pixel(format: Option<&str>) -> (r: Option<usize>)
    ensures
        match (
            r,
            pixel_bytes(
                match format {
                    Some(f) => Some(f@),
                    None => None,
                },
            ),
        ) {
            (Some(n), Some(m)) => n == m,
            (None, None) => true,
            _ => false,
        },
{
    match format {
        Some(f) => {
            if text_eq(f, "RGB") {
                Some(3)
            } else if text_eq(f, "RGBA") || text_eq(f, "BGRA") || text_eq(f, "ARGB") {
                Some(4)
            } else if text_eq(f, "L") || text_eq(f, "GRAY") {
                Some(1)
            } else {
                None
            }
        },
        None => None,
    }
}

proof fn lemma_scaled(a: int, n: int, m: int)
    requires
        0 <= a < n,
        0 < m,
    ensures
        0 <= a * m / n < m,
{
    assert(0 <= a * m < n * m) by (nonlinear_arith)
        requires
            0 <= a < n,
            0 < m,
    ;
    lemma_fundamental_div_mod(a * m, n);
    let q = a * m / n;
    assert(q < m) by (nonlinear_arith)
        requires
            a * m < n * m,
            a * m == n * q + (a * m) % n,
            0 <= (a * m) % n,
            0 < n,
    ;
    assert(0 <= q) by (nonlinear_arith)
        requires
            0 <= a * m,
            a * m == n * q + (a * m) % n,
            (a * m) % n < n,
            0 < n,
    ;
}

proof fn lemma_source_index(pixel: int, k: int, sw: int, sh: int, dw: int, dh: int, bpp: int)
    requires
        0 < sw,
        0 < sh,
        0 < dw,
        0 < dh,
        0 <= pixel < dw * dh,
        0 <= k < bpp,
    ensures
        0 <= pixel / dw < dh,
        0 <= pixel % dw < dw,
        0 <= (pixel / dw) * sh / dh < sh,
        0 <= (pixel % dw) * sw / dw < sw,
        ({
            let row = (pixel / dw) * sh / dh;
            let column = (pixel % dw) * sw / dw;
            &&& 0 <= row * sw + column < sw * sh
            &&& 0 <= (row * sw + column) * bpp + k < sw * sh * bpp
            &&& source_index(pixel * bpp + k, sw, sh, dw, dh, bpp) == (row * sw + column) * bpp + k
        }),
        0 <= pixel * bpp + k < dw * dh * bpp,
{
    lemma_fundamental_div_mod(pixel, dw);
    let q = pixel / dw;
    assert(q < dh) by (nonlinear_arith)
        requires
            pixel < dw * dh,
            pixel == dw * q + pixel % dw,
            0 <= pixel % dw,
            0 < dw,
    ;
    assert(0 <= q) by (nonlinear_arith)
        requires
            0 <= pixel,
            pixel == dw * q + pixel % dw,
            pixel % dw < dw,
            0 < dw,
    ;
    lemma_scaled(q, dh, sh);
    lemma_scaled(pixel % dw, dw, sw);
    let row = q * sh / dh;
    let column = (pixel % dw) * sw / dw;
    assert(0 <= row * sw + column < sw * sh) by (nonlinear_arith)
        requires
            0 <= row < sh,
            0 <= column < sw,
    ;
    let p = row * sw + column;
    assert(0 <= p * bpp + k < sw * sh * bpp) by (nonlinear_arith)
        requires
            0 <= p < sw * sh,
            0 <= k < bpp,
    ;
    assert(0 <= pixel * bpp + k < dw * dh * bpp) by (nonlinear_arith)
        requires
            0 <= pixel < dw * dh,
            0 <= k < bpp,
    ;
    lemma_fundamental_div_mod_converse(pixel * bpp + k, bpp, pixel, k);
}

/// Samples an image to another size.
fn sample(src: &[u8], sw: u32, sh: u32, dw: u32, dh: u32, bpp: usize) -> (r: Vec<u8>)
    requires
        0 < sw,
        0 < sh,
        0 < dw,
        0 < dh,
        0 < bpp <= 4,
        src@.len() == sw * sh * bpp,
        dw * dh * bpp <= usize::MAX,
    ensures
        r@ == sampled(src@, sw as int, sh as int, dw as int, dh as int, bpp as int),
{
    let ghost (w, h, tw, th, b) = (sw as int, sh as int, dw as int, dh as int, bpp as int);
    let (sw64, sh64, dw64, dh64, b64): (u64, u64, u64, u64, u64) = (
        sw as u64,
        sh as u64,
        dw as u64,
        dh as u64,
        bpp as u64,
    );
    assert(tw * th <= tw * th * b) by (nonlinear_arith)
        requires
            0 < tw,
            0 < th,
            0 < b,
    ;
    assert(dw64 * dh64 <= u64::MAX) by (nonlinear_arith)
        requires
            dw64 <= u32::MAX,
            dh64 <= u32::MAX,
    ;
    let pixels: u64 = dw64 * dh64;
    let n: usize = src.len();
    let mut out: Vec<u8> = Vec::new();
    let mut pixel: u64 = 0;
    while pixel < pixels
        invariant
            sw64 == w == sw,
            sh64 == h == sh,
            dw64 == tw == dw,
            dh64 == th == dh,
            b64 == b == bpp,
            0 < w,
            0 < h,
            0 < tw,
            0 < th,
            0 < b <= 4,
            pixels == tw * th,
            pixel <= pixels,
            n == src@.len() == w * h * b,
            out@.len() == pixel * b,
            forall|i: int|
                0 <= i < out@.len() ==> #[trigger] out@[i] == src@[source_index(
                    i,
                    w,
                    h,
                    tw,
                    th,
                    b,
                )],
        decreases pixels - pixel,
    {
        proof {
            lemma_source_index(pixel as int, 0, w, h, tw, th, b);
        }
        let dy: u64 = pixel / dw64;
        let dx: u64 = pixel % dw64;
        assert(dy * sh64 <= u64::MAX) by (nonlinear_arith)
            requires
                dy <= u32::MAX,
                sh64 <= u32::MAX,
        ;
        assert(dx * sw64 <= u64::MAX) by (nonlinear_arith)
            requires
                dx <= u32::MAX,
                sw64 <= u32::MAX,
        ;
        let row: u64 = dy * sh64 / dh64;
        let column: u64 = dx * sw64 / dw64;
        assert(w * h <= w * h * b) by (nonlinear_arith)
            requires
                0 < w,
                0 < h,
                0 < b,
        ;
        let ghost gr = (pixel as int / tw) * h / th;
        let ghost gc = (pixel as int % tw) * w / tw;
        assert(row == gr && column == gc);
        assert(0 <= gr * w) by (nonlinear_arith)
            requires
                0 <= gr,
                0 < w,
        ;
        assert(gr * w + gc <= n);
        assert((gr * w + gc) * b <= n);
        let base: usize = ((row * sw64 + column) * b64) as usize;
        let mut k: usize = 0;
        while k < bpp
            invariant
                b == bpp,
                0 < b,
                k <= bpp,
                pixel < tw * th,
                0 < w,
                0 < h,
                0 < tw,
                0 < th,
                n == src@.len() == w * h * b,
                base == ((pixel as int / tw) * h / th * w + (pixel as int % tw) * w / tw) * b,
                out@.len() == pixel * b + k,
                forall|i: int|
                    0 <= i < out@.len() ==> #[trigger] out@[i] == src@[source_index(
                        i,
                        w,
                        h,
                        tw,
                        th,
                        b,
                    )],
            decreases bpp - k,
        {
            proof {
                lemma_source_index(pixel as int, k as int, w, h, tw, th, b);
            }
            out.push(src[base + k]);
            k = k + 1;
        }
        assert((pixel + 1) * b == pixel * b + b) by (nonlinear_arith);
        pixel = pixel + 1;
    }
    proof {
        assert(out@ =~= sampled(src@, w, h, tw, th, b));
    }
    out
}

proof fn lemma_no_pixels(sw: int, sh: int, bpp: int)
    requires
        sw == 0 || sh == 0,
    ensures
        sw * sh * bpp == 0,
{
    assert(sw * sh * bpp == 0) by (nonlinear_arith)
        requires
            sw == 0 || sh == 0,
    ;
}

/// Resize an image using nearest-neighbor interpolation if dimensions don't
/// match the target.
///
/// Returns the frame unchanged if dimensions already match, if the
/// pixel format is unknown (raw bytes can't be resized without knowing the size
/// of a pixel), or if the data doesn't match the declared dimensions.
pub fn resize_image_if_needed(frame: ImageRawFrame, target_width: u32, target_height: u32) -> (r:
    ImageRawFrame)
    requires
        !lacks_pixels(frame@, target_width, target_height),
        !outgrows(frame@, target_width, target_height),
    ensures
        r@ == resized(frame@, target_width, target_height),
{
    let (src_w, src_h): (u32, u32) = frame.size;
    if src_w == target_width && src_h == target_height {
        return frame;
    }
    let format: Option<&str> = match &frame.format {
        Some(f) => Some(f.as_str()),
        None => None,
    };
    let bpp: usize = match bytes_per_pixel(format) {
        Some(bpp) => bpp,
        None => return frame,
    };
    let src: &[u8] = bytes_as_slice(&frame.image);
    assert(src_w * src_h * bpp <= u128::MAX && src_w * src_h <= u128::MAX) by (nonlinear_arith)
        requires
            src_w <= u32::MAX,
            src_h <= u32::MAX,
            bpp <= 4,
    ;
    let expected_len: u128 = (src_w as u128) * (src_h as u128) * (bpp as u128);
    if src.len() as u128 != expected_len {
        return frame;
    }
    let image: Vec<u8> = if target_width == 0 || target_height == 0 {
        let empty: Vec<u8> = Vec::new();
        proof {
            let (w, h, b) = (target_width as int, target_height as int, bpp as int);
            lemma_no_pixels(w, h, b);
            assert(empty@ =~= sampled(src@, src_w as int, src_h as int, w, h, b));
        }
        empty
    } else {
        proof {
            if src_w == 0 || src_h == 0 {
                lemma_no_pixels(src_w as int, src_h as int, bpp as int);
            }
        }
        sample(src, src_w, src_h, target_width, target_height, bpp)
    };
    ImageOf { image: bytes_from(image), size: (target_width, target_height), format: frame.format }
}

/// Whether an image has no pixels to take, or would grow too large.
fn cannot_resize(frame: &ImageRawFrame, width: u32, height: u32) -> (r: bool)
    ensures
        r == (lacks_pixels(frame@, width, height) || outgrows(frame@, width, height)),
{
    let (src_w, src_h): (u32, u32) = frame.size;
    if src_w == width && src_h == height {
        return false;
    }
    let format: Option<&str> = match &frame.format {
        Some(f) => Some(f.as_str()),
        None => None,
    };
    let bpp: usize = match bytes_per_pixel(format) {
        Some(bpp) => bpp,
        None => return false,
    };
    let len: usize = bytes_as_slice(&frame.image).len();
    assert(src_w * src_h * bpp <= u128::MAX && src_w * src_h <= u128::MAX && width * height * bpp
        <= u128::MAX && width * height <= u128::MAX) by (nonlinear_arith)
        requires
            src_w <= u32::MAX,
            src_h <= u32::MAX,
            width <= u32::MAX,
            height <= u32::MAX,
            bpp <= 4,
    ;
    proof {
        if src_w == 0 || src_h == 0 {
            lemma_no_pixels(src_w as int, src_h as int, bpp as int);
        }
    }
    if len as u128 != (src_w as u128) * (src_h as u128) * (bpp as u128) {
        return false;
    }
    ((src_w == 0 || src_h == 0) && width > 0 && height > 0) || (width as u128) * (height as u128)
        * (bpp as u128) > isize::MAX as u128
}

/// Resize an image if dimensions don't match. Where pixels would have to be
/// taken from an image that has none, or the result would be too large, gives
/// an empty image of the target's dimensions.
pub fn maybe_resize_image(frame: ImageRawFrame, target_width: u32, target_height: u32) -> (r:
    ImageRawFrame)
    ensures
        r@ == resized(frame@, target_width, target_height),
{
    if cannot_resize(&frame, target_width, target_height) {
        return ImageOf {
            image: bytes_from(Vec::new()),
            size: (target_width, target_height),
            format: None,
        };
    }
    resize_image_if_needed(frame, target_width, target_height)
}

/// A resized image has the target's dimensions, and data to match.
pub proof fn lemma_resized_dimensions(
    frame: ImageOf<Seq<char>, Seq<u8>>,
    width: u32,
    height: u32,
)
    requires
        pixel_bytes(frame.format) is Some,
        frame.image.len() == frame.size.0 * frame.size.1 * pixel_bytes(frame.format)->0,
        frame.size.0 > 0,
        frame.size.1 > 0,
        width * height * pixel_bytes(frame.format)->0 <= isize::MAX,
    ensures
        resized(frame, width, height).size == (width, height),
        resized(frame, width, height).format == frame.format,
        resized(frame, width, height).image.len() == width * height * pixel_bytes(
            frame.format,
        )->0,
{
    let (w, h, b) = (width as int, height as int, pixel_bytes(frame.format)->0 as int);
    assert(w * h * b >= 0) by (nonlinear_arith)
        requires
            w >= 0,
            h >= 0,
            b >= 0,
    ;
}

} // verus!
