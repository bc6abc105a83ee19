use image::{DynamicImage, ImageError, ImageReader};
use rgb::FromSlice;
use std::io::Cursor;
use vstd::prelude::*;

verus! {

#[verifier::external_type_specification]
#[verifier::external_body]
pub struct ExDynamicImage(DynamicImage);

#[verifier::external_type_specification]
#[verifier::external_body]
pub struct ExImageError(ImageError);

#[verifier::external_type_specification]
#[verifier::external_body]
pub struct ExAvifError(ravif::Error);

/// A pixel buffer: the image that `source` decodes to, resampled at most once,
/// to `width` x `height` (as decoded where those are its own dimensions).
/// Only the functions below make one.
pub(crate) struct Raster {
    width: u32,
    height: u32,
    pixels: DynamicImage,
    source: Ghost<Seq<u8>>,
}

impl Raster {
    pub(crate) closed spec fn spec_width(&self) -> u32 {
        self.width
    }

    pub(crate) closed spec fn spec_height(&self) -> u32 {
        self.height
    }

    pub(crate) closed spec fn spec_source(&self) -> Seq<u8> {
        self.source@
    }

    /// Whether the buffer is the decoded source itself, not yet resampled.
    pub(crate) open spec fn is_decoded(&self) -> bool {
        decoded_dimensions(self.spec_source()) == Some((self.spec_width(), self.spec_height()))
    }

    pub(crate) fn width(&self) -> (r: u32)
        ensures
            r == self.spec_width(),
    {
        self.width
    }

    pub(crate) fn height(&self) -> (r: u32)
        ensures
            r == self.spec_height(),
    {
        self.height
    }
}

/// The dimensions that decoding `data` yields, or `None` where the format
/// cannot be recognised or the data does not decode.
pub uninterp spec fn decoded_dimensions(data: Seq<u8>) -> Option<(u32, u32)>;

/// The dimensions of a `width` x `height` image scaled, aspect ratio kept,
/// to the largest size that fits within `max_width` x `max_height`.
pub uninterp spec fn aspect_fit(width: u32, height: u32, max_width: u32, max_height: u32) -> (u32, u32);

/// The lossy WebP file libwebp makes at `quality` from the image `source`
/// decodes to, resampled to `width` x `height` and taken as 8-bit RGBA;
/// `None` where libwebp reports an error.
pub uninterp spec fn webp_encoding(source: Seq<u8>, width: u32, height: u32, quality: u8) -> Option<
    Seq<u8>,
>;

/// The AVIF file ravif makes at `quality`, `speed` and `threads` from the
/// image `source` decodes to, resampled to `width` x `height` and taken as
/// 8-bit RGBA; `None` where ravif reports an error.
pub uninterp spec fn avif_encoding(
    source: Seq<u8>,
    width: u32,
    height: u32,
    quality: u8,
    speed: u8,
    threads: usize,
) -> Option<Seq<u8>>;

/// Relies on `image::ImageReader::with_guessed_format` and `decode`: the
/// format is sniffed from the content and the data decoded under the reader's
/// default limits, which depends on the bytes alone.
#[verifier::external_body]
pub(crate) fn decode(data: &[u8]) -> (r: Result<Raster, ImageError>)
    ensures
        match r {
            Ok(img) => decoded_dimensions(data@) == Some((img.spec_width(), img.spec_height()))
                && img.spec_source() == data@,
            Err(_) => decoded_dimensions(data@).is_none(),
        },
{
    let reader = ImageReader::new(Cursor::new(data)).with_guessed_format().map_err(ImageError::IoError)?;
    let img = reader.decode()?;
    Ok(Raster { width: img.width(), height: img.height(), pixels: img, source: Ghost(data@) })
}

/// Relies on `image::DynamicImage::resize_exact` with the Lanczos3 filter:
/// the result has exactly the given dimensions.
#[verifier::external_body]
pub(crate) fn resize_exact(img: &Raster, width: u32, height: u32) -> (r: Raster)
    requires
        img.is_decoded(),
    ensures
        r.spec_width() == width,
        r.spec_height() == height,
        r.spec_source() == img.spec_source(),
{
    let out = img.pixels.resize_exact(width, height, image::imageops::FilterType::Lanczos3);
    Raster { width: out.width(), height: out.height(), pixels: out, source: img.source }
}

/// Relies on `image::DynamicImage::resize` with the Lanczos3 filter: the
/// source is scaled, aspect ratio kept, to fit within the given bounds; each
/// dimension of the result is at least 1 (`resize_dimensions` takes the
/// maximum with 1, and equal bounds return the image as it is). Where one
/// bound is `u32::MAX` and the other and the source are within 4096, the
/// other bound is met exactly: the ratio is that bound over the source side,
/// and the rounded product gives the bound back.
#[verifier::external_body]
pub(crate) fn resize_to_fit(img: &Raster, max_width: u32, max_height: u32) -> (r: Raster)
    requires
        img.is_decoded(),
        max_width >= 1,
        max_height >= 1,
    ensures
        (r.spec_width(), r.spec_height()) == aspect_fit(
            img.spec_width(),
            img.spec_height(),
            max_width,
            max_height,
        ),
        r.spec_width() >= 1,
        r.spec_height() >= 1,
        max_height == u32::MAX && max_width <= 4096 && 1 <= img.spec_width() <= 4096 && 1
            <= img.spec_height() <= 4096 ==> r.spec_width() == max_width,
        max_width == u32::MAX && max_height <= 4096 && 1 <= img.spec_width() <= 4096 && 1
            <= img.spec_height() <= 4096 ==> r.spec_height() == max_height,
        r.spec_source() == img.spec_source(),
{
    let out = img.pixels.resize(max_width, max_height, image::imageops::FilterType::Lanczos3);
    Raster { width: out.width(), height: out.height(), pixels: out, source: img.source }
}

/// Relies on `webp::Encoder::from_image` and `encode_simple` (lossy, at the
/// given quality, libwebp's single-threaded default configuration), the
/// pixels handed over as 8-bit RGBA by `DynamicImage::to_rgba8`.
#[verifier::external_body]
pub(crate) fn encode_webp(img: &Raster, quality: u8) -> (r: Option<Vec<u8>>)
    requires
        1 <= quality <= 100,
        img.spec_width() >= 1,
        img.spec_height() >= 1,
    ensures
        match r {
            Some(out) => webp_encoding(img.spec_source(), img.spec_width(), img.spec_height(), quality) == Some(out@),
            None => webp_encoding(img.spec_source(), img.spec_width(), img.spec_height(), quality).is_none(),
        },
{
    let rgba = DynamicImage::ImageRgba8(img.pixels.to_rgba8());
    let encoder = webp::Encoder::from_image(&rgba).ok()?;
    encoder.encode_simple(false, quality.into()).ok().map(|m| m.to_vec())
}

/// Relies on `ravif::Encoder::encode_rgba`, configured by `with_quality`,
/// `with_speed` and `with_num_threads`, which assert quality in [1, 100],
/// speed in [1, 10] and a positive thread count; a fixed thread count fixes
/// the tile layout. The pixels are handed over as 8-bit RGBA through
/// `imgref::Img` (which panics on a zero width) and `rgb`.
#[verifier::external_body]
pub(crate) fn encode_avif(img: &Raster, quality: u8, speed: u8, threads: usize) -> (r: Result<
    Vec<u8>,
    ravif::Error,
>)
    requires
        1 <= quality <= 100,
        1 <= speed <= 10,
        threads >= 1,
        img.spec_width() >= 1,
        img.spec_height() >= 1,
    ensures
        match r {
            Ok(out) => avif_encoding(
                img.spec_source(),
                img.spec_width(),
                img.spec_height(),
                quality,
                speed,
                threads,
            ) == Some(out@),
            Err(_) => avif_encoding(
                img.spec_source(),
                img.spec_width(),
                img.spec_height(),
                quality,
                speed,
                threads,
            ).is_none(),
        },
{
    let rgba = img.pixels.to_rgba8();
    let (width, height) = (rgba.width() as usize, rgba.height() as usize);
    let frame = imgref::Img::new(rgba.as_raw().as_rgba(), width, height);
    let encoder = ravif::Encoder::new().with_quality(quality.into()).with_speed(speed);
    encoder.with_num_threads(Some(threads)).encode_rgba(frame).map(|e| e.avif_file)
}

} // verus!
