//! Image normalization: decode, optionally downscale so the longer edge meets
//! the configured bound, and encode as lossless WebP.
//!
//! The pixel work is done by outside codecs behind trusted wrappers; the
//! decisions — whether to resize, which target dimensions preserve the aspect
//! ratio, when the source bytes may be stored untouched — are verified here.

use fast_image_resize::images::Image;
use fast_image_resize::IntoImageView;
use fast_image_resize::PixelType;
use fast_image_resize::Resizer;
use image::codecs::webp::WebPEncoder;
use image::ImageEncoder;
use image::ImageFormat;
use image::ImageReader;
use std::io::Cursor;
use vstd::arithmetic::div_mod::lemma_div_is_ordered;
use vstd::arithmetic::div_mod::lemma_div_multiples_vanish;
use vstd::prelude::*;

verus! {

/// Error (and one non-error signal) of the normalization stage.
#[derive(Debug, Clone, Copy, PartialEq, Eq, Structural)]
pub enum ImgResizeError {
    /// The resampler rejected the raster, or the target would be degenerate.
    ResizeError,
    /// The bytes did not decode, or the raster did not encode as WebP.
    ImageWriteError,
    /// Reading the byte stream failed.
    IoError,
    /// No known image format matches the byte stream.
    FormatDeterminitionErr,
    /// Semantic signal, not a failure: the source is already a WebP within
    /// the size bound, so the caller stores the source bytes untouched.
    NoResizeNeeded,
}

impl ImgResizeError {
    /// A short description, as an error report carries it.
    pub fn message(&self) -> (r: String)
        ensures
            self is ResizeError ==> r@ == "Resize error"@,
            self is ImageWriteError ==> r@ == "Image bytes write error"@,
            self is IoError ==> r@ == "IO Error"@,
            self is FormatDeterminitionErr ==> r@ == "Cannot determine image format"@,
            self is NoResizeNeeded ==> r@ == "No resize needed"@,
    {
        match self {
            ImgResizeError::ResizeError => "Resize error".to_owned(),
            ImgResizeError::ImageWriteError => "Image bytes write error".to_owned(),
            ImgResizeError::IoError => "IO Error".to_owned(),
            ImgResizeError::FormatDeterminitionErr => "Cannot determine image format".to_owned(),
            ImgResizeError::NoResizeNeeded => "No resize needed".to_owned(),
        }
    }
}

/// What format sniffing distinguishes: the service only ever asks whether the
/// source is already WebP.
#[derive(Debug, Clone, Copy, PartialEq, Eq, Structural)]
pub enum ImageKind {
    WebP,
    Other,
}

/// What the image header reveals: the sniffed format and the raster
/// dimensions in pixels.
#[derive(Debug, Clone, Copy, PartialEq, Eq, Structural)]
pub struct ImgProbe {
    pub kind: ImageKind,
    pub width: u32,
    pub height: u32,
}

/// What sniffing a byte stream yields: `None` when no format is recognized or
/// the header is unreadable, otherwise the format and dimensions. A fixed
/// function of the bytes alone.
pub uninterp spec fn probe_of(s: Seq<u8>) -> Option<ImgProbe>;

/// Relies on `image::ImageReader`: format guessing by magic bytes and header
/// dimensions depend on the byte stream alone.
#[verifier::external_body]
fn probe_image(b: &Vec<u8>) -> (r: Option<ImgProbe>)
    ensures
        r == probe_of(b@),
{
    let reader = ImageReader::new(Cursor::new(b.as_slice())).with_guessed_format().ok()?;
    let format = reader.format()?;
    let kind = if format == ImageFormat::WebP {
        ImageKind::WebP
    } else {
        ImageKind::Other
    };
    let (width, height) = reader.into_dimensions().ok()?;
    Some(ImgProbe { kind, width, height })
}

/// Relies on `image`'s decoders and `WebPEncoder::new_lossless`: re-encoding
/// keeps the raster's own dimensions, and the encoder writes a WebP header
/// carrying them.
#[verifier::external_body]
fn reencode_webp(b: &Vec<u8>) -> (r: Result<Vec<u8>, ImgResizeError>)
    ensures
        r matches Ok(v) ==> (probe_of(b@) matches Some(p) ==> probe_of(v@) == Some(
            (ImgProbe { kind: ImageKind::WebP, width: p.width, height: p.height }),
        )),
        r matches Err(e) ==> (e is IoError || e is ImageWriteError),
{
    let reader = ImageReader::new(Cursor::new(b.as_slice())).with_guessed_format().map_err(|_| ImgResizeError::IoError)?;
    let img = reader.decode().map_err(|_| ImgResizeError::ImageWriteError)?;
    let mut out = Cursor::new(Vec::new());
    img.write_to(&mut out, ImageFormat::WebP).map_err(|_| ImgResizeError::ImageWriteError)?;
    Ok(out.into_inner())
}

/// Relies on `fast_image_resize::Resizer` and `WebPEncoder::new_lossless`:
/// the destination raster is created with exactly the requested dimensions
/// and the encoder writes them into the WebP header.
#[verifier::external_body]
fn scale_webp(b: &Vec<u8>, width: u32, height: u32) -> (r: Result<Vec<u8>, ImgResizeError>)
    requires
        width >= 1,
        height >= 1,
    ensures
        r matches Ok(v) ==> probe_of(v@) == Some(
            (ImgProbe { kind: ImageKind::WebP, width, height }),
        ),
        r matches Err(e) ==> (e is IoError || e is ImageWriteError || e is ResizeError),
{
    let reader = ImageReader::new(Cursor::new(b.as_slice())).with_guessed_format().map_err(|_| ImgResizeError::IoError)?;
    let img = reader.decode().map_err(|_| ImgResizeError::ImageWriteError)?;
    let mut dst = Image::new(width, height, img.pixel_type().unwrap_or(PixelType::U8x3));
    let mut resizer = Resizer::new();
    resizer.resize(&img, &mut dst, None).map_err(|_| ImgResizeError::ResizeError)?;
    let mut out: Vec<u8> = Vec::new();
    let encoder = WebPEncoder::new_lossless(&mut out);
    encoder.write_image(dst.buffer(), width, height, img.color().into()).map_err(|_| ImgResizeError::ImageWriteError)?;
    Ok(out)
}

/// Width of the downscale target: the aspect ratio is kept, the longer edge
/// becomes `max`, and the shorter edge is truncated to a whole pixel.
pub open spec fn target_width(w: int, h: int, max: int) -> int {
    if w >= h {
        max
    } else {
        max * w / h
    }
}

/// Height of the downscale target, the counterpart of [`target_width`].
pub open spec fn target_height(w: int, h: int, max: int) -> int {
    if w >= h {
        max * h / w
    } else {
        max
    }
}

/// For every source that exceeds the bound in some dimension, the chosen
/// target fits the bound in both dimensions and its longer edge equals the
/// bound exactly.
pub proof fn lemma_preview_edge_bound(w: int, h: int, max: int)
    requires
        max >= 1,
        w >= 1,
        h >= 1,
        w >= max || h >= max,
    ensures
        target_width(w, h, max) <= max,
        target_height(w, h, max) <= max,
        target_width(w, h, max) == max || target_height(w, h, max) == max,
{
    if w >= h {
        assert(max * h <= max * w) by (nonlinear_arith)
            requires
                h <= w,
                max >= 1,
        ;
        lemma_div_is_ordered(max * h, max * w, w);
        lemma_div_multiples_vanish(max, w);
        assert(max * w == w * max) by (nonlinear_arith);
    } else {
        assert(max * w <= max * h) by (nonlinear_arith)
            requires
                w <= h,
                max >= 1,
        ;
        lemma_div_is_ordered(max * w, max * h, h);
        lemma_div_multiples_vanish(max, h);
        assert(max * h == h * max) by (nonlinear_arith);
    }
}

/// Computes the downscale target for a source of `w` by `h` pixels.
fn target_dimensions(w: u32, h: u32, max: u32) -> (r: (u32, u32))
    requires
        max >= 1,
        w >= max || h >= max,
    ensures
        r.0 == target_width(w as int, h as int, max as int),
        r.1 == target_height(w as int, h as int, max as int),
{
    if w >= h {
        proof {
            assert((max as int) * (h as int) <= (max as int) * (w as int)) by (nonlinear_arith)
                requires
                    h <= w,
                    max >= 1,
            ;
            lemma_div_is_ordered((max as int) * (h as int), (max as int) * (w as int), w as int);
            lemma_div_multiples_vanish(max as int, w as int);
            assert((max as int) * (w as int) == (w as int) * (max as int)) by (nonlinear_arith);
            assert((max as int) * (h as int) < 0x10000000000000000) by (nonlinear_arith)
                requires
                    max <= u32::MAX,
                    h <= u32::MAX,
            ;
        }
        let shorter: u64 = (max as u64) * (h as u64) / (w as u64);
        (max, shorter as u32)
    } else {
        proof {
            assert((max as int) * (w as int) <= (max as int) * (h as int)) by (nonlinear_arith)
                requires
                    w <= h,
                    max >= 1,
            ;
            lemma_div_is_ordered((max as int) * (w as int), (max as int) * (h as int), h as int);
            lemma_div_multiples_vanish(max as int, h as int);
            assert((max as int) * (h as int) == (h as int) * (max as int)) by (nonlinear_arith);
            assert((max as int) * (w as int) < 0x10000000000000000) by (nonlinear_arith)
                requires
                    max <= u32::MAX,
                    w <= u32::MAX,
            ;
        }
        let shorter: u64 = (max as u64) * (w as u64) / (h as u64);
        (shorter as u32, max)
    }
}

/// Normalizes an image byte stream against the configured size bound.
///
/// The format is sniffed from the bytes, never taken from a header. A source
/// that fits the bound in both dimensions is re-encoded as WebP — or, when it
/// already is WebP, reported as [`ImgResizeError::NoResizeNeeded`] so the
/// caller stores the source bytes untouched. A larger source is downscaled,
/// aspect ratio kept, so that the longer edge equals the bound, and encoded
/// as lossless WebP. A target edge that would truncate to zero pixels is
/// rejected rather than resampled.
pub fn resize_fast(bytes: &Vec<u8>, biggest_size: u32) -> (r: Result<Vec<u8>, ImgResizeError>)
    requires
        biggest_size >= 1,
    ensures
        probe_of(bytes@) is None ==> r == Err::<Vec<u8>, ImgResizeError>(
            ImgResizeError::FormatDeterminitionErr,
        ),
        probe_of(bytes@) matches Some(p) ==> ({
            let small = p.width < biggest_size && p.height < biggest_size;
            let tw = target_width(p.width as int, p.height as int, biggest_size as int);
            let th = target_height(p.width as int, p.height as int, biggest_size as int);
            &&& (small && p.kind is WebP) ==> r == Err::<Vec<u8>, ImgResizeError>(
                ImgResizeError::NoResizeNeeded,
            )
            &&& (small && p.kind is Other) ==> (r matches Ok(v) ==> probe_of(v@) == Some(
                (ImgProbe { kind: ImageKind::WebP, width: p.width, height: p.height }),
            ))
            &&& (small && p.kind is Other) ==> (r matches Err(e) ==> (e is IoError
                || e is ImageWriteError))
            &&& (!small && (tw == 0 || th == 0)) ==> r == Err::<Vec<u8>, ImgResizeError>(
                ImgResizeError::ResizeError,
            )
            &&& (!small && tw >= 1 && th >= 1) ==> (r matches Ok(v) ==> (probe_of(v@)
                matches Some(q) && q.kind is WebP && q.width == tw && q.height == th))
            &&& !small ==> (r matches Err(e) ==> (e is IoError || e is ImageWriteError
                || e is ResizeError))
        }),
{
    match probe_image(bytes) {
        None => Err(ImgResizeError::FormatDeterminitionErr),
        Some(probe) => {
            if probe.width < biggest_size && probe.height < biggest_size {
                if probe.kind == ImageKind::WebP {
                    Err(ImgResizeError::NoResizeNeeded)
                } else {
                    reencode_webp(bytes)
                }
            } else {
                proof {
                    if probe.width >= 1 && probe.height >= 1 {
                        lemma_preview_edge_bound(
                            probe.width as int,
                            probe.height as int,
                            biggest_size as int,
                        );
                    }
                }
                let (tw, th) = target_dimensions(probe.width, probe.height, biggest_size);
                if tw == 0 || th == 0 {
                    Err(ImgResizeError::ResizeError)
                } else {
                    scale_webp(bytes, tw, th)
                }
            }
        },
    }
}

} // verus!
