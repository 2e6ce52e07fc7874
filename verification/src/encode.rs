//! Canvas serialization.
//!
//! Converts the canvas's premultiplied-alpha pixel buffer into straight-
//! alpha RGBA bytes and encodes it as a PNG byte stream. Encoding is the
//! one fallible step of the pipeline; its failure is converted locally to
//! an empty byte buffer rather than propagated.

use vstd::prelude::*;

verus! {

/// Alpha channel of a packed premultiplied ARGB sample.
pub open spec fn px_a(p: u32) -> u32 {
    (p >> 24) & 0xff
}

/// Red channel (premultiplied) of a packed ARGB sample.
pub open spec fn px_r(p: u32) -> u32 {
    (p >> 16) & 0xff
}

/// Green channel (premultiplied) of a packed ARGB sample.
pub open spec fn px_g(p: u32) -> u32 {
    (p >> 8) & 0xff
}

/// Blue channel (premultiplied) of a packed ARGB sample.
pub open spec fn px_b(p: u32) -> u32 {
    p & 0xff
}

/// A premultiplied channel converted back to straight alpha: scaled up by
/// 255 over the alpha with truncating integer division. A fully
/// transparent sample is passed through untouched: its channels were
/// premultiplied by zero, so no division is attempted.
pub open spec fn straighten(c: u32, a: u32) -> int {
    if a > 0 {
        (c * 255) / (a as int)
    } else {
        c as int
    }
}

/// Byte `j` of the straight-alpha RGBA encoding of sample `p`: red, green
/// and blue unpremultiplied, then the alpha itself.
pub open spec fn pixel_byte(p: u32, j: int) -> u8 {
    if j == 0 {
        straighten(px_r(p), px_a(p)) as u8
    } else if j == 1 {
        straighten(px_g(p), px_a(p)) as u8
    } else if j == 2 {
        straighten(px_b(p), px_a(p)) as u8
    } else {
        px_a(p) as u8
    }
}

/// The straight-alpha RGBA bytes of a whole premultiplied ARGB buffer:
/// four bytes per sample, in sample order.
pub open spec fn rgba_bytes(pixels: Seq<u32>) -> Seq<u8> {
    Seq::new(pixels.len() * 4, |j: int| pixel_byte(pixels[j / 4], j % 4))
}

/// Converts a premultiplied ARGB buffer to straight-alpha RGBA bytes.
pub fn unpremultiply(pixels: &Vec<u32>) -> (out: Vec<u8>)
    ensures
        out@ == rgba_bytes(pixels@),
{
    let mut out: Vec<u8> = Vec::new();
    let n = pixels.len();
    for i in 0..n
        invariant
            n == pixels.len(),
            out@ =~= rgba_bytes(pixels@.take(i as int)),
    {
        let p = pixels[i];
        proof {
            assert((p >> 24) & 0xff < 256 && (p >> 16) & 0xff < 256 && (p >> 8) & 0xff < 256 && p
                & 0xff < 256) by (bit_vector);
        }
        let a = (p >> 24) & 0xff;
        let mut r = (p >> 16) & 0xff;
        let mut g = (p >> 8) & 0xff;
        let mut b = p & 0xff;
        if a > 0 {
            r = r * 255 / a;
            g = g * 255 / a;
            b = b * 255 / a;
        }
        out.push(r as u8);
        out.push(g as u8);
        out.push(b as u8);
        out.push(a as u8);
        proof {
            let s = pixels@.take(i + 1);
            assert forall|j: int| 0 <= j < s.len() * 4 implies out@[j] == pixel_byte(
                s[j / 4],
                j % 4,
            ) by {
                if j < 4 * i {
                    assert(out@[j] == rgba_bytes(pixels@.take(i as int))[j]);
                } else {
                    assert(j / 4 == i && s[j / 4] == p);
                }
            }
            assert(out@ =~= rgba_bytes(s));
        }
    }
    proof {
        assert(pixels@.take(n as int) == pixels@);
    }
    out
}

/// Failure of the PNG encoding step.
#[derive(Clone, Copy, PartialEq, Eq, Structural, Debug)]
pub enum EncodeError {
    Encoding,
}

/// Largest canvas dimension handed to the encoder. Far beyond any canvas
/// the renderer makes, yet small enough that the encoder's internal row
/// and buffer arithmetic stays well inside its machine limits.
pub const ENCODE_DIM_MAX: u32 = 16_384;

/// The PNG byte stream the encoder produces for an RGBA image of the given
/// size: a fixed function of the dimensions and the bytes.
pub uninterp spec fn png_bytes_of(width: u32, height: u32, rgba: Seq<u8>) -> Seq<u8>;

/// Relies on the png crate's `Encoder`: written to an in-memory buffer
/// with eight-bit RGBA color and default settings, its output is a
/// function of the dimensions and the image bytes alone, and it fails
/// exactly on a zero dimension or image bytes that do not match the
/// dimensions (writes to the in-memory buffer cannot fail, and the
/// compressed stream is split into chunks of admissible length). The
/// dimension bound keeps the encoder's row-size arithmetic in range.
#[verifier::external_body]
fn encode_png(width: u32, height: u32, rgba: &Vec<u8>) -> (r: Result<Vec<u8>, EncodeError>)
    requires
        width <= ENCODE_DIM_MAX,
        height <= ENCODE_DIM_MAX,
    ensures
        r is Err <==> (width == 0 || height == 0 || rgba@.len() != 4 * width * height),
        r matches Ok(b) ==> b@ == png_bytes_of(width, height, rgba@),
{
    let mut out = Vec::new();
    let written = (|| -> Result<(), png::EncodingError> {
        let w = &mut std::io::BufWriter::new(&mut out);
        let mut encoder = png::Encoder::new(w, width, height);
        encoder.set_color(png::ColorType::Rgba);
        encoder.set_depth(png::BitDepth::Eight);
        let mut writer = encoder.write_header()?;
        writer.write_image_data(rgba)?;
        Ok(())
    })();
    match written {
        Ok(()) => Ok(out),
        Err(_) => Err(EncodeError::Encoding),
    }
}

/// A canvas the serializer encodes: both dimensions nonzero and within
/// the encoder's bound, with one sample per pixel.
pub open spec fn canvas_encodable(width: u32, height: u32, samples: nat) -> bool {
    &&& 0 < width <= ENCODE_DIM_MAX
    &&& 0 < height <= ENCODE_DIM_MAX
    &&& samples == width * height
}

/// Renders a canvas to a PNG: unpremultiplies the pixel buffer into RGBA
/// bytes and encodes them at the canvas's exact dimensions. Succeeds on
/// every encodable canvas, and only on those.
pub fn canvas_to_png(width: u32, height: u32, pixels: &Vec<u32>) -> (r: Result<
    Vec<u8>,
    EncodeError,
>)
    ensures
        r is Ok <==> canvas_encodable(width, height, pixels@.len()),
        r matches Ok(b) ==> b@ == png_bytes_of(width, height, rgba_bytes(pixels@)),
{
    if width > ENCODE_DIM_MAX || height > ENCODE_DIM_MAX {
        // Far larger than any canvas the renderer makes; the encoder is
        // not asked to take it.
        return Err(EncodeError::Encoding);
    }
    let rgba = unpremultiply(pixels);
    proof {
        assert(rgba@.len() == 4 * pixels@.len());
        assert(4 * (width * height) == 4 * width * height) by (nonlinear_arith);
    }
    encode_png(width, height, &rgba)
}

/// The fail-soft policy around encoding: a successful encode passes its
/// bytes through unchanged, and an encoding failure yields an empty byte
/// buffer, never a propagated error.
pub fn png_or_empty(r: Result<Vec<u8>, EncodeError>) -> (b: Vec<u8>)
    ensures
        r matches Ok(bytes) ==> b@ == bytes@,
        r is Err ==> b@ == Seq::<u8>::empty(),
{
    match r {
        Ok(bytes) => bytes,
        Err(_) => Vec::new(),
    }
}

/// Serializes a canvas, falling back to an empty buffer when the encoder
/// fails: every encodable canvas yields its PNG bytes, anything else the
/// empty buffer.
pub fn canvas_png_or_empty(width: u32, height: u32, pixels: &Vec<u32>) -> (b: Vec<u8>)
    ensures
        canvas_encodable(width, height, pixels@.len()) ==> b@ == png_bytes_of(
            width,
            height,
            rgba_bytes(pixels@),
        ),
        !canvas_encodable(width, height, pixels@.len()) ==> b@ == Seq::<u8>::empty(),
{
    png_or_empty(canvas_to_png(width, height, pixels))
}

} // verus!
