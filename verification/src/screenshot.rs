//! Screenshots: a captured frame read back to memory row by row, turned
//! from the BGRA order capture produces into RGBA, and encoded as PNG or
//! JPEG by the `image` crate.

use vstd::prelude::*;

use crate::error::BrailError;
use crate::settings::{ScreenshotFormat, ScreenshotSettings};

verus! {

/// The PNG file `image` writes for an RGBA image of these dimensions
/// (`RgbaImage::write_to` with `ImageFormat::Png`).
pub uninterp spec fn png_encoding(rgba: Seq<u8>, width: u32, height: u32) -> Seq<u8>;

/// The JPEG file `image` writes for an RGBA image of these dimensions at
/// this quality, after dropping alpha with `DynamicImage::to_rgb8`
/// (`JpegEncoder::new_with_quality(..).encode_image(..)`).
pub uninterp spec fn jpeg_encoding(rgba: Seq<u8>, width: u32, height: u32, quality: u8) -> Seq<u8>;

/// `image::RgbaImage::from_raw` then `write_to(.., ImageFormat::Png)` into
/// memory. On success the bytes are the named encoding; an encoder error
/// comes back as its message. The `png` encoder refuses a zero width or
/// height and nothing else here: writing into a `Vec` cannot fail.
#[verifier::external_body]
fn png_file_bytes(rgba: Vec<u8>, width: u32, height: u32) -> (r: Result<Vec<u8>, String>)
    requires
        rgba@.len() == 4 * width * height,
    ensures
        r matches Ok(b) ==> b@ == png_encoding(rgba@, width, height),
        r is Ok <==> (width > 0 && height > 0),
{
    let img = match image::RgbaImage::from_raw(width, height, rgba) {
        Some(img) => img,
        None => return Err(String::new()),
    };
    let mut out = std::io::Cursor::new(Vec::new());
    match img.write_to(&mut out, image::ImageFormat::Png) {
        Ok(()) => Ok(out.into_inner()),
        Err(e) => Err(e.to_string()),
    }
}

/// `image::RgbaImage::from_raw`, `DynamicImage::to_rgb8`, then
/// `JpegEncoder::new_with_quality(..).encode_image(..)` into memory. The
/// encoder refuses a width or height of zero or above 65535, and nothing
/// else here: writing into a `Vec` cannot fail.
#[verifier::external_body]
fn jpeg_file_bytes(rgba: Vec<u8>, width: u32, height: u32, quality: u8) -> (r: Result<Vec<u8>, String>)
    requires
        rgba@.len() == 4 * width * height,
    ensures
        r matches Ok(b) ==> b@ == jpeg_encoding(rgba@, width, height, quality),
        r is Ok <==> (1 <= width <= 65535 && 1 <= height <= 65535),
{
    let img = match image::RgbaImage::from_raw(width, height, rgba) {
        Some(img) => img,
        None => return Err(String::new()),
    };
    let rgb = image::DynamicImage::ImageRgba8(img).to_rgb8();
    let mut out: Vec<u8> = Vec::new();
    match image::codecs::jpeg::JpegEncoder::new_with_quality(&mut out, quality).encode_image(&rgb) {
        Ok(()) => Ok(out),
        Err(e) => Err(e.to_string()),
    }
}

/// The tightly packed rows of a pitched pixel buffer: `height` rows of
/// `row_bytes` bytes, row `r` starting at `r * row_pitch`.
pub open spec fn packed_rows(mapped: Seq<u8>, row_pitch: int, row_bytes: int, height: int) -> Seq<u8> {
    Seq::new((height * row_bytes) as nat, |i: int| mapped[(i / row_bytes) * row_pitch + i % row_bytes])
}

/// BGRA pixels reordered to RGBA; a trailing partial pixel is dropped.
pub open spec fn bgra_to_rgba_spec(bgra: Seq<u8>) -> Seq<u8> {
    Seq::new(4 * (bgra.len() / 4), |i: int| {
        let k = i % 4;
        let base = i - k;
        if k == 0 {
            bgra[base + 2]
        } else if k == 2 {
            bgra[base]
        } else {
            bgra[i]
        }
    })
}

/// Whether the encoder for `format` accepts an image of these dimensions:
/// PNG any non-empty image, JPEG sides of 1 to 65535 pixels.
pub open spec fn encodable(format: ScreenshotFormat, width: u32, height: u32) -> bool {
    match format {
        ScreenshotFormat::Png => width > 0 && height > 0,
        ScreenshotFormat::Jpeg => 1 <= width <= 65535 && 1 <= height <= 65535,
    }
}

/// Captures single frames to image files.
pub struct ScreenshotCapture;

impl ScreenshotCapture {
    /// Copies a mapped texture's rows, whose pitch is often wider than the
    /// visible row because of GPU alignment, into a tightly packed BGRA
    /// buffer, so padding never skews the image.
    pub fn packed_bgra(mapped: &[u8], row_pitch: usize, width: u32, height: u32) -> (out: Vec<u8>)
        requires
            4 * width <= u32::MAX,
            height > 0 ==> (height - 1) * row_pitch + 4 * width <= mapped@.len(),
        ensures
            out@ == packed_rows(mapped@, row_pitch as int, 4 * width, height as int),
    {
        let row_bytes = (width * 4) as usize;
        let len = mapped.len();
        let mut out: Vec<u8> = Vec::new();
        let mut r: usize = 0;
        while r < height as usize
            invariant
                len == mapped@.len(),
                0 <= r <= height,
                row_bytes == 4 * width,
                height > 0 ==> (height - 1) * row_pitch + row_bytes <= mapped@.len(),
                out@.len() == r * row_bytes,
                forall|i: int| 0 <= i < out@.len() ==> #[trigger] out@[i] == mapped@[(i / row_bytes as int) * row_pitch + i % row_bytes as int],
            decreases height - r,
        {
            assert(r * row_pitch + row_bytes <= mapped@.len()) by (nonlinear_arith)
                requires
                    r < height,
                    (height - 1) * row_pitch + row_bytes <= mapped@.len(),
                    row_pitch >= 0,
            ;
            let start = r * row_pitch;
            let mut c: usize = 0;
            while c < row_bytes
                invariant
                    len == mapped@.len(),
                    0 <= c <= row_bytes,
                    r < height,
                    row_bytes == 4 * width,
                    start == r * row_pitch,
                    start + row_bytes <= mapped@.len(),
                    out@.len() == r * row_bytes + c,
                    forall|i: int| 0 <= i < out@.len() ==> #[trigger] out@[i] == mapped@[(i / row_bytes as int) * row_pitch + i % row_bytes as int],
                decreases row_bytes - c,
            {
                let ghost idx = r * row_bytes + c;
                assert(idx / (row_bytes as int) == r && idx % (row_bytes as int) == c) by (nonlinear_arith)
                    requires
                        idx == r * row_bytes + c,
                        0 <= c < row_bytes,
                        r >= 0,
                ;
                out.push(mapped[start + c]);
                c += 1;
            }
            assert(out@.len() == (r + 1) * row_bytes) by (nonlinear_arith)
                requires
                    out@.len() == r * row_bytes + row_bytes,
            ;
            r += 1;
        }
        assert(out@.len() == height * row_bytes);
        assert(out@ == packed_rows(mapped@, row_pitch as int, 4 * width, height as int));
        out
    }

    /// Reorders BGRA pixels to the RGBA order image encoders expect.
    pub fn bgra_to_rgba(bgra: &[u8]) -> (rgba: Vec<u8>)
        ensures
            rgba@ == bgra_to_rgba_spec(bgra@),
    {
        let len = bgra.len();
        let n = len / 4;
        let mut rgba: Vec<u8> = Vec::new();
        let mut p: usize = 0;
        while p < n
            invariant
                len == bgra@.len(),
                0 <= p <= n == bgra@.len() / 4,
                rgba@ == bgra_to_rgba_spec(bgra@).take(4 * p),
            decreases n - p,
        {
            let b = 4 * p;
            rgba.push(bgra[b + 2]);
            rgba.push(bgra[b + 1]);
            rgba.push(bgra[b]);
            rgba.push(bgra[b + 3]);
            assert(rgba@ == bgra_to_rgba_spec(bgra@).take(4 * p + 4));
            p += 1;
        }
        rgba
    }

    /// The image file for a BGRA frame, in the configured format. The
    /// buffer must hold at least `width * height` pixels; the encoder
    /// refuses only dimensions outside `encodable`, and that failure is
    /// reported against `output_path`.
    pub fn encode_image(
        bgra: &[u8],
        width: u32,
        height: u32,
        settings: &ScreenshotSettings,
        output_path: &str,
    ) -> (r: Result<Vec<u8>, BrailError>)
        ensures
            4 * width * height > 4 * (bgra@.len() / 4) <==> (r matches Err(BrailError::Internal(m)) && m@
                == "pixel buffer did not match the stated dimensions"@),
            r matches Ok(b) ==> b@ == (match settings.format {
                ScreenshotFormat::Png => png_encoding(bgra_to_rgba_spec(bgra@).take(4 * width * height), width, height),
                ScreenshotFormat::Jpeg => jpeg_encoding(
                    bgra_to_rgba_spec(bgra@).take(4 * width * height),
                    width,
                    height,
                    settings.jpeg_quality,
                ),
            }),
            r matches Err(BrailError::OutputFileError(p, _)) ==> p@ == output_path@,
            r is Err ==> (r matches Err(BrailError::Internal(_)) || r matches Err(BrailError::OutputFileError(_, _))),
            4 * width * height <= 4 * (bgra@.len() / 4) ==> (r is Ok <==> encodable(settings.format, width, height)),
    {
        let mut rgba = Self::bgra_to_rgba(bgra);
        assert(4 * width * height <= 4 * 0xFFFF_FFFFu64 * 0xFFFF_FFFFu64) by (nonlinear_arith)
            requires
                width <= 0xFFFF_FFFFu32,
                height <= 0xFFFF_FFFFu32,
        ;
        let need: u128 = 4 * width as u128 * height as u128;
        if need > rgba.len() as u128 {
            return Err(BrailError::Internal(String::from_str("pixel buffer did not match the stated dimensions")));
        }
        rgba.truncate(need as usize);
        let encoded = match settings.format {
            ScreenshotFormat::Png => png_file_bytes(rgba, width, height),
            ScreenshotFormat::Jpeg => jpeg_file_bytes(rgba, width, height, settings.jpeg_quality),
        };
        match encoded {
            Ok(b) => Ok(b),
            Err(e) => Err(BrailError::OutputFileError(String::from_str(output_path), e)),
        }
    }
}

} // verus!
