//! Decoding the PNG images of the about dialog into bitmap pixels.

use vstd::prelude::*;
use crate::ui::about::{bgra_pixels, spec_bgra_pixels};

verus! {

#[verifier::external_type_specification]
#[verifier::external_body]
pub struct ExPngDecodingError(png::DecodingError);

/// What the `png` crate decodes as the first frame of a PNG file: width,
/// height, bytes per row and the frame buffer (`None` when the file is
/// rejected).
pub uninterp spec fn png_first_frame(data: Seq<u8>) -> Option<(u32, u32, usize, Seq<u8>)>;

/// Decodes the first frame of a PNG file with `png::Decoder::new`,
/// `read_info`, `output_buffer_size` and `next_frame` (into a zeroed buffer
/// of the reported size). Claimed: the outcome is a function of the bytes
/// alone, named `png_first_frame`; nothing more is stated about it.
#[verifier::external_body]
fn png_decode_first_frame(data: &[u8]) -> (r: Result<(u32, u32, usize, Vec<u8>), png::DecodingError>)
    ensures
        match r {
            Ok((w, h, line, buf)) => png_first_frame(data@) == Some((w, h, line, buf@)),
            Err(_) => png_first_frame(data@) is None,
        },
{
    let mut reader = png::Decoder::new(std::io::Cursor::new(data)).read_info()?;
    let mut buf = vec![0u8; reader.output_buffer_size()];
    let info = reader.next_frame(&mut buf)?;
    Ok((info.width, info.height, info.line_size, buf))
}

/// A decoded image ready for a 32-bit bitmap.
pub struct DecodedImage {
    pub width: u32,
    pub height: u32,
    /// Row-major pixels, blue in the low byte; as many as the frame holds,
    /// at most `width * height`.
    pub pixels: Vec<u32>,
}

/// The pixels of a decoded frame: the frame's bytes (`line_size * height` of
/// them) converted four at a time, at most `width * height` pixels; `None`
/// when the frame claims more bytes than its buffer holds or its size does
/// not fit in memory.
pub open spec fn spec_frame_pixels(width: u32, height: u32, line_size: usize, buf: Seq<u8>) -> Option<Seq<u32>> {
    let used = line_size * height;
    if used > buf.len() || used > usize::MAX || width * height > usize::MAX {
        None
    } else {
        Some(spec_bgra_pixels(buf.take(used), (width * height) as nat))
    }
}

/// The bitmap pixels of a decoded frame.
pub fn frame_pixels(width: u32, height: u32, line_size: usize, buf: &[u8]) -> (r: Option<DecodedImage>)
    ensures
        match r {
            Some(img) => spec_frame_pixels(width, height, line_size, buf@) == Some(img.pixels@)
                && img.width == width && img.height == height,
            None => spec_frame_pixels(width, height, line_size, buf@) is None,
        },
{
    let used: usize = match line_size.checked_mul(height as usize) {
        Some(u) => u,
        None => return None,
    };
    if used > buf.len() {
        return None;
    }
    let count: usize = match (width as usize).checked_mul(height as usize) {
        Some(c) => c,
        None => return None,
    };
    let raw = vstd::slice::slice_subrange(buf, 0, used);
    assert(raw@ =~= buf@.take(used as int));
    let pixels = bgra_pixels(raw, count);
    Some(DecodedImage { width, height, pixels })
}

/// Decodes a PNG file into bitmap pixels; `None` when the decoder rejects
/// the file or the frame does not fit.
pub fn decode_png(data: &[u8]) -> (r: Option<DecodedImage>)
    ensures
        match png_first_frame(data@) {
            Some((w, h, line, buf)) => match r {
                Some(img) => spec_frame_pixels(w, h, line, buf) == Some(img.pixels@) && img.width == w
                    && img.height == h,
                None => spec_frame_pixels(w, h, line, buf) is None,
            },
            None => r is None,
        },
{
    match png_decode_first_frame(data) {
        Ok((w, h, line, buf)) => frame_pixels(w, h, line, buf.as_slice()),
        Err(_) => None,
    }
}

} // verus!
