//! Conversion of a captured buffer to packed RGBA.

use crate::descriptor::{BufferDescriptor, PixelFormat};
use crate::error::FrameCaptureError;
use vstd::arithmetic::div_mod::{lemma_fundamental_div_mod, lemma_fundamental_div_mod_converse};
use vstd::arithmetic::mul::lemma_mul_inequality;
use vstd::prelude::*;

verus! {

/// Whether buffers of this layout can be converted.
pub open spec fn convertible(format: PixelFormat) -> bool {
    format == PixelFormat::Rgba8888 || format == PixelFormat::Xrgb8888
}

/// Byte `channel` of the RGBA pixel that is made from the source pixel whose
/// first byte is at `at`. Channels count red, green, blue, alpha from 0.
pub open spec fn converted_channel(format: PixelFormat, src: Seq<u8>, at: int, channel: int) -> u8 {
    match format {
        PixelFormat::Rgba8888 => src[at + channel],
        PixelFormat::Xrgb8888 => if channel == 3 {
            0xFFu8
        } else {
            src[at + 2 - channel]
        },
        PixelFormat::Other(_) => 0u8,
    }
}

/// Byte `k` of the packed output: pixels follow each other row by row, four
/// bytes each, with nothing between the rows.
pub open spec fn converted_at(desc: BufferDescriptor, src: Seq<u8>, k: int) -> u8 {
    let pixel = k / 4;
    let x = pixel % (desc.width as int);
    let y = pixel / (desc.width as int);
    converted_channel(desc.format, src, y * desc.stride + 4 * x, k % 4)
}

/// The packed RGBA bytes of a buffer with the given layout and contents.
pub open spec fn converted(desc: BufferDescriptor, src: Seq<u8>) -> Seq<u8> {
    Seq::new((4 * (desc.height * desc.width)) as nat, |k: int| converted_at(desc, src, k))
}

/// The output holds the pixel of row `y` and column `x` at pixel position
/// `y * width + x`, whatever the stride of the source: the padding at the
/// end of each source row is left out.
pub proof fn converted_pixel_position(
    desc: BufferDescriptor,
    src: Seq<u8>,
    x: int,
    y: int,
    channel: int,
)
    requires
        0 <= x < desc.width,
        0 <= y < desc.height,
        0 <= channel < 4,
    ensures
        0 <= 4 * (y * desc.width + x) + channel < converted(desc, src).len(),
        converted(desc, src)[4 * (y * desc.width + x) + channel] == converted_channel(
            desc.format,
            src,
            y * desc.stride + 4 * x,
            channel,
        ),
{
    let w = desc.width as int;
    let h = desc.height as int;
    let pixel = y * w + x;
    assert(0 <= y * w) by (nonlinear_arith)
        requires
            0 <= y,
            0 <= w,
    ;
    assert((y + 1) * w <= h * w) by {
        lemma_mul_inequality(y + 1, h, w);
    }
    assert((y + 1) * w == y * w + w) by (nonlinear_arith);
    lemma_fundamental_div_mod_converse(pixel, w, y, x);
}

/// The output always holds four bytes for each pixel of the buffer.
pub proof fn converted_length(desc: BufferDescriptor, src: Seq<u8>)
    ensures
        converted(desc, src).len() == desc.width * desc.height * 4,
{
    assert(4 * (desc.height * desc.width) == desc.width * desc.height * 4) by (nonlinear_arith);
}

/// An RGBA buffer without padding converts to itself.
pub proof fn packed_rgba_is_kept(desc: BufferDescriptor, src: Seq<u8>)
    requires
        desc.format == PixelFormat::Rgba8888,
        desc.width > 0,
        desc.stride == 4 * desc.width,
        src.len() == desc.spec_byte_len(),
    ensures
        converted(desc, src) == src,
{
    let w = desc.width as int;
    let h = desc.height as int;
    assert((4 * w) * h == 4 * (h * w)) by (nonlinear_arith);
    assert forall|k: int| 0 <= k < src.len() implies converted_at(desc, src, k) == src[k] by {
        let pixel = k / 4;
        let x = pixel % w;
        let y = pixel / w;
        lemma_fundamental_div_mod(pixel, w);
        assert(y * (4 * w) == 4 * (w * y)) by (nonlinear_arith);
    }
    assert(converted(desc, src) =~= src);
}

/// A captured frame in packed RGBA: four bytes per pixel, rows one after
/// the other without padding.
pub struct CapturedImage {
    width: u32,
    height: u32,
    bytes: Vec<u8>,
}

/// A captured image as contracts see it.
pub struct ImageModel {
    pub width: nat,
    pub height: nat,
    pub bytes: Seq<u8>,
}

impl ImageModel {
    /// The bytes hold exactly four bytes per pixel.
    pub open spec fn wf(self) -> bool {
        self.bytes.len() == 4 * (self.height * self.width)
    }
}

impl View for CapturedImage {
    type V = ImageModel;

    closed spec fn view(&self) -> ImageModel {
        ImageModel {
            width: self.width as nat,
            height: self.height as nat,
            bytes: self.bytes@,
        }
    }
}

impl CapturedImage {
    /// Pixels per row.
    pub fn width(&self) -> (w: u32)
        ensures
            w == self@.width,
    {
        self.width
    }

    /// Number of rows.
    pub fn height(&self) -> (h: u32)
        ensures
            h == self@.height,
    {
        self.height
    }

    /// The pixel layout, which is RGBA for every image.
    pub fn format(&self) -> (f: PixelFormat)
        ensures
            f == PixelFormat::Rgba8888,
    {
        PixelFormat::Rgba8888
    }

    /// The pixels, four bytes each, row by row.
    pub fn bytes(&self) -> (b: &Vec<u8>)
        ensures
            b@ == self@.bytes,
    {
        &self.bytes
    }

    /// Gives up the image for its pixels.
    pub fn into_bytes(self) -> (b: Vec<u8>)
        ensures
            b@ == self@.bytes,
    {
        self.bytes
    }
}

/// Reorders one pixel from blue, green, red, alpha to red, green, blue,
/// alpha. The work is done by `rgb`'s conversion of a `Bgra` pixel into an
/// `Rgba` pixel, which moves every component to the field of the same name;
/// the contract claims just that of it.
#[verifier::external_body]
fn bgra_to_rgba(b: u8, g: u8, r: u8, a: u8) -> (px: (u8, u8, u8, u8))
    ensures
        px == (r, g, b, a),
{
    let p: rgb::Rgba<u8> = rgb::Bgra::<u8> { b, g, r, a }.into();
    (p.r, p.g, p.b, p.a)
}

/// Converts a captured buffer to packed RGBA.
///
/// The buffer must have the size that its layout asks for. An RGBA buffer
/// keeps its bytes, an XRGB buffer has the channels of each pixel reordered
/// and its alpha set to opaque; in both, the padding at the end of each row is
/// dropped. Any other layout is refused with `UnsupportedPixelFormat`.
pub fn convert(desc: &BufferDescriptor, bytes: Vec<u8>) -> (r: Result<
    CapturedImage,
    FrameCaptureError,
>)
    requires
        desc.wf(),
        bytes@.len() == desc.spec_byte_len(),
    ensures
        r.is_ok() <==> convertible(desc.format),
        r matches Err(e) ==> e == FrameCaptureError::UnsupportedPixelFormat,
        r matches Ok(image) ==> {
            &&& image@.width == desc.width
            &&& image@.height == desc.height
            &&& image@.bytes == converted(*desc, bytes@)
            &&& image@.wf()
        },
{
    let reorder = match desc.format {
        PixelFormat::Rgba8888 => false,
        PixelFormat::Xrgb8888 => true,
        PixelFormat::Other(_) => {
            return Err(FrameCaptureError::UnsupportedPixelFormat);
        },
    };
    let width: usize = desc.width as usize;
    let height: usize = desc.height as usize;
    let stride: usize = desc.stride as usize;
    if !reorder && stride == 4 * width {
        proof {
            packed_rgba_is_kept(*desc, bytes@);
        }
        return Ok(CapturedImage { width: desc.width, height: desc.height, bytes });
    }
    proof {
        assert(desc.stride * desc.height == desc.height * desc.stride) by (nonlinear_arith);
    }
    let total: usize = bytes.len();
    let mut out: Vec<u8> = Vec::new();
    let mut y: usize = 0;
    while y < height
        invariant
            desc.wf(),
            convertible(desc.format),
            reorder == (desc.format == PixelFormat::Xrgb8888),
            width == desc.width,
            height == desc.height,
            stride == desc.stride,
            total == bytes@.len(),
            total == height * stride,
            4 * width <= stride,
            y <= height,
            out@.len() == 4 * (y * width),
            forall|k: int| 0 <= k < out@.len() ==> out@[k] == converted_at(*desc, bytes@, k),
        decreases height - y,
    {
        proof {
            let rows = y as int;
            let step = stride as int;
            lemma_mul_inequality(rows + 1, height as int, step);
            assert((rows + 1) * step == rows * step + step) by (nonlinear_arith);
            assert(0 <= rows * step) by (nonlinear_arith)
                requires
                    0 <= rows,
                    0 <= step,
            ;
            assert(rows * step + step <= total);
        }
        let row_start: usize = y * stride;
        let mut x: usize = 0;
        while x < width
            invariant
                desc.wf(),
                convertible(desc.format),
                reorder == (desc.format == PixelFormat::Xrgb8888),
                width == desc.width,
                height == desc.height,
                stride == desc.stride,
                total == bytes@.len(),
                4 * width <= stride,
                y < height,
                x <= width,
                row_start == y * stride,
                row_start + stride <= total,
                out@.len() == 4 * (y * width + x),
                forall|k: int| 0 <= k < out@.len() ==> out@[k] == converted_at(*desc, bytes@, k),
            decreases width - x,
        {
            let at: usize = row_start + 4 * x;
            let ghost before = out@;
            let (p0, p1, p2, p3) = if reorder {
                let (red, green, blue, _) = bgra_to_rgba(
                    bytes[at],
                    bytes[at + 1],
                    bytes[at + 2],
                    bytes[at + 3],
                );
                (red, green, blue, 0xFFu8)
            } else {
                (bytes[at], bytes[at + 1], bytes[at + 2], bytes[at + 3])
            };
            out.push(p0);
            out.push(p1);
            out.push(p2);
            out.push(p3);
            proof {
                let base = 4 * (y * width + x);
                converted_pixel_position(*desc, bytes@, x as int, y as int, 0);
                converted_pixel_position(*desc, bytes@, x as int, y as int, 1);
                converted_pixel_position(*desc, bytes@, x as int, y as int, 2);
                converted_pixel_position(*desc, bytes@, x as int, y as int, 3);
                assert forall|k: int| 0 <= k < out@.len() implies out@[k] == converted_at(
                    *desc,
                    bytes@,
                    k,
                ) by {
                    if k < base {
                        assert(out@[k] == before[k]);
                    }
                }
            }
            x += 1;
        }
        proof {
            assert((y + 1) * width == y * width + width) by (nonlinear_arith);
        }
        y += 1;
    }
    assert(out@ =~= converted(*desc, bytes@));
    Ok(CapturedImage { width: desc.width, height: desc.height, bytes: out })
}

} // verus!
