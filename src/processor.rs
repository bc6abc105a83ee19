use crate::codec::{
    aspect_fit, avif_encoding, decode, decoded_dimensions, encode_avif, encode_webp, resize_exact,
    resize_to_fit, webp_encoding, Raster,
};
use vstd::prelude::*;

verus! {

/// Largest accepted width or height, requested or decoded.
pub const MAX_DIMENSION: u32 = 4096;

/// Largest accepted pixel count, requested or decoded.
pub const MAX_PIXELS: u64 = 16_000_000;

/// AV1 encoder speed: favours server-side latency over compression.
pub const AVIF_SPEED: u8 = 6;

/// Threads per AV1 encode. Fixed, so that the encoder's tile layout, and with
/// it the output, does not depend on the machine's core count.
pub const AVIF_THREADS: usize = 4;

#[derive(Debug, Clone, Copy, PartialEq, Eq, Structural)]
pub enum OutputFormat {
    WebP,
    Avif,
}

/// What one conversion asks for. `quality` is a whole percentage; the intake
/// accepts numbers in [1, 100], rounding fractions half up, and the pipeline
/// clamps whatever it is given.
#[derive(Debug, Clone, Copy, PartialEq, Eq)]
pub struct ProcessOptions {
    pub quality: u32,
    pub width: Option<u32>,
    pub height: Option<u32>,
    pub format: OutputFormat,
}

#[derive(Debug, Clone, Copy, PartialEq, Eq, Structural)]
pub enum ProcessError {
    /// The requested width is zero or above `MAX_DIMENSION`.
    WidthOutOfRange { width: u32 },
    /// The requested height is zero or above `MAX_DIMENSION`.
    HeightOutOfRange { height: u32 },
    /// Both dimensions were requested and their product exceeds `MAX_PIXELS`.
    RequestedPixelsExceeded { width: u32, height: u32 },
    /// The input could not be recognised or decoded.
    Decode,
    /// The decoded source has no pixels.
    EmptySource { width: u32, height: u32 },
    /// The decoded source exceeds the dimension or pixel limits.
    SourceTooLarge { width: u32, height: u32 },
    /// The encoder failed or produced no valid container.
    Encode,
}

pub open spec fn dimension_in_range(d: u32) -> bool {
    1 <= d <= MAX_DIMENSION
}

/// The pre-decode check on the requested dimensions, in the order the
/// pipeline applies it.
pub open spec fn request_check(o: ProcessOptions) -> Result<(), ProcessError> {
    match (o.width, o.height) {
        (Some(w), _) if !dimension_in_range(w) => Err(ProcessError::WidthOutOfRange { width: w }),
        (_, Some(h)) if !dimension_in_range(h) => Err(ProcessError::HeightOutOfRange { height: h }),
        (Some(w), Some(h)) if w * h > MAX_PIXELS => Err(
            ProcessError::RequestedPixelsExceeded { width: w, height: h },
        ),
        _ => Ok(()),
    }
}

/// The check on the decoded source size: it must hold at least one pixel,
/// and no more than the limits allow (the decompression-bomb guard).
pub open spec fn source_check(width: u32, height: u32) -> Result<(), ProcessError> {
    if width == 0 || height == 0 {
        Err(ProcessError::EmptySource { width, height })
    } else if width > MAX_DIMENSION || height > MAX_DIMENSION || width * height > MAX_PIXELS {
        Err(ProcessError::SourceTooLarge { width, height })
    } else {
        Ok(())
    }
}

pub open spec fn clamped_quality(q: u32) -> u8 {
    if q < 1 {
        1
    } else if q > 100 {
        100
    } else {
        q as u8
    }
}

/// The dimensions the resize step produces from a `src_width` x
/// `src_height` source.
pub open spec fn resized_dimensions(
    src_width: u32,
    src_height: u32,
    width: Option<u32>,
    height: Option<u32>,
) -> (u32, u32) {
    match (width, height) {
        (Some(w), Some(h)) => (w, h),
        (Some(w), None) => aspect_fit(src_width, src_height, w, u32::MAX),
        (None, Some(h)) => aspect_fit(src_width, src_height, u32::MAX, h),
        (None, None) => (src_width, src_height),
    }
}

/// A RIFF container holding WebP: "RIFF", a 4-byte size, then "WEBP".
pub open spec fn is_webp_container(b: Seq<u8>) -> bool {
    &&& b.len() >= 12
    &&& b[0] == 0x52u8 && b[1] == 0x49u8 && b[2] == 0x46u8 && b[3] == 0x46u8
    &&& b[8] == 0x57u8 && b[9] == 0x45u8 && b[10] == 0x42u8 && b[11] == 0x50u8
}

/// An ISO-BMFF file whose leading box is "ftyp" with major brand "avif".
pub open spec fn is_avif_container(b: Seq<u8>) -> bool {
    &&& b.len() >= 12
    &&& b[4] == 0x66u8 && b[5] == 0x74u8 && b[6] == 0x79u8 && b[7] == 0x70u8
    &&& b[8] == 0x61u8 && b[9] == 0x76u8 && b[10] == 0x69u8 && b[11] == 0x66u8
}

pub open spec fn has_container_markers(format: OutputFormat, b: Seq<u8>) -> bool {
    match format {
        OutputFormat::WebP => is_webp_container(b),
        OutputFormat::Avif => is_avif_container(b),
    }
}

/// The dimensions the pipeline encodes at, for a source that decodes.
pub open spec fn output_dimensions(data: Seq<u8>, options: ProcessOptions) -> (u32, u32) {
    let (w, h) = decoded_dimensions(data).unwrap();
    resized_dimensions(w, h, options.width, options.height)
}

/// What the encoder for `options.format` makes of the decoded, resized
/// source at the clamped quality.
pub open spec fn encoder_output(data: Seq<u8>, options: ProcessOptions) -> Option<Seq<u8>> {
    let (w, h) = output_dimensions(data, options);
    let q = clamped_quality(options.quality);
    match options.format {
        OutputFormat::WebP => webp_encoding(data, w, h, q),
        OutputFormat::Avif => avif_encoding(data, w, h, q, AVIF_SPEED, AVIF_THREADS),
    }
}

/// The pipeline's result once the encoder has run: its output where that
/// carries the format's container markers, `Encode` otherwise.
pub open spec fn encoded_result(format: OutputFormat, encoded: Option<Seq<u8>>) -> Result<
    Seq<u8>,
    ProcessError,
> {
    match encoded {
        Some(out) => if has_container_markers(format, out) {
            Ok(out)
        } else {
            Err(ProcessError::Encode)
        },
        None => Err(ProcessError::Encode),
    }
}

/// The error the pipeline owes for `data` and `options`, or `None` where the
/// request is in bounds and the source decodes within the limits, so that
/// only the encoder decides.
pub open spec fn pipeline_rejection(data: Seq<u8>, options: ProcessOptions) -> Option<ProcessError> {
    match request_check(options) {
        Err(e) => Some(e),
        Ok(_) => match decoded_dimensions(data) {
            None => Some(ProcessError::Decode),
            Some((w, h)) => match source_check(w, h) {
                Err(e) => Some(e),
                Ok(_) => None,
            },
        },
    }
}

/// Checks the requested dimensions before any decoding work.
pub fn check_request(options: &ProcessOptions) -> (r: Result<(), ProcessError>)
    ensures
        r == request_check(*options),
{
    if let Some(w) = options.width {
        if w == 0 || w > MAX_DIMENSION {
            return Err(ProcessError::WidthOutOfRange { width: w });
        }
    }
    if let Some(h) = options.height {
        if h == 0 || h > MAX_DIMENSION {
            return Err(ProcessError::HeightOutOfRange { height: h });
        }
    }
    if let (Some(w), Some(h)) = (options.width, options.height) {
        assert(w as u64 * h as u64 <= 4096 * 4096) by (nonlinear_arith)
            requires
                w <= 4096,
                h <= 4096,
        ;
        if (w as u64) * (h as u64) > MAX_PIXELS {
            return Err(ProcessError::RequestedPixelsExceeded { width: w, height: h });
        }
    }
    Ok(())
}

/// Checks the size of a decoded source against the same limits.
pub fn check_source(width: u32, height: u32) -> (r: Result<(), ProcessError>)
    ensures
        r == source_check(width, height),
{
    if width == 0 || height == 0 {
        return Err(ProcessError::EmptySource { width, height });
    }
    if width > MAX_DIMENSION || height > MAX_DIMENSION {
        return Err(ProcessError::SourceTooLarge { width, height });
    }
    assert(width as u64 * height as u64 <= 4096 * 4096) by (nonlinear_arith)
        requires
            width <= 4096,
            height <= 4096,
    ;
    if (width as u64) * (height as u64) > MAX_PIXELS {
        return Err(ProcessError::SourceTooLarge { width, height });
    }
    Ok(())
}

/// Brings a quality into the encoders' range [1, 100].
pub fn clamp_quality(quality: u32) -> (r: u8)
    ensures
        r == clamped_quality(quality),
        1 <= r <= 100,
{
    if quality < 1 {
        1
    } else if quality > 100 {
        100
    } else {
        quality as u8
    }
}

/// Whether `bytes` opens with the container markers of `format`.
pub fn has_markers(format: OutputFormat, bytes: &[u8]) -> (r: bool)
    ensures
        r == has_container_markers(format, bytes@),
{
    if bytes.len() < 12 {
        return false;
    }
    match format {
        OutputFormat::WebP => {
            bytes[0] == 0x52u8 && bytes[1] == 0x49u8 && bytes[2] == 0x46u8 && bytes[3] == 0x46u8
                && bytes[8] == 0x57u8 && bytes[9] == 0x45u8 && bytes[10] == 0x42u8 && bytes[11]
                == 0x50u8
        },
        OutputFormat::Avif => {
            bytes[4] == 0x66u8 && bytes[5] == 0x74u8 && bytes[6] == 0x79u8 && bytes[7] == 0x70u8
                && bytes[8] == 0x61u8 && bytes[9] == 0x76u8 && bytes[10] == 0x69u8 && bytes[11]
                == 0x66u8
        },
    }
}

/// Applies the resize policy: exact when both dimensions are given, aspect
/// ratio kept when only one is, unchanged otherwise.
fn resize_for(img: Raster, width: Option<u32>, height: Option<u32>) -> (r: Raster)
    requires
        img.is_decoded(),
        1 <= img.spec_width() <= MAX_DIMENSION,
        1 <= img.spec_height() <= MAX_DIMENSION,
        width matches Some(w) ==> 1 <= w <= MAX_DIMENSION,
        height matches Some(h) ==> 1 <= h <= MAX_DIMENSION,
    ensures
        (r.spec_width(), r.spec_height()) == resized_dimensions(
            img.spec_width(),
            img.spec_height(),
            width,
            height,
        ),
        width matches Some(w) ==> r.spec_width() == w,
        height matches Some(h) ==> r.spec_height() == h,
        r.spec_width() >= 1,
        r.spec_height() >= 1,
        r.spec_source() == img.spec_source(),
{
    match (width, height) {
        (Some(w), Some(h)) => resize_exact(&img, w, h),
        (Some(w), None) => resize_to_fit(&img, w, u32::MAX),
        (None, Some(h)) => resize_to_fit(&img, u32::MAX, h),
        (None, None) => img,
    }
}

/// Takes the encoder's output, or `None` where it failed: the output is kept
/// only where it carries the container markers of `format`.
pub fn accept_encoded(format: OutputFormat, encoded: Option<Vec<u8>>) -> (r: Result<
    Vec<u8>,
    ProcessError,
>)
    ensures
        match encoded_result(
            format,
            match encoded {
                Some(v) => Some(v@),
                None => None,
            },
        ) {
            Ok(out) => r matches Ok(v) && v@ == out,
            Err(e) => r == Err::<Vec<u8>, ProcessError>(e),
        },
{
    match encoded {
        Some(out) => {
            if has_markers(format, out.as_slice()) {
                Ok(out)
            } else {
                Err(ProcessError::Encode)
            }
        },
        None => Err(ProcessError::Encode),
    }
}

/// Encodes to `format` at `quality`.
fn encode(img: &Raster, format: OutputFormat, quality: u8) -> (r: Result<Vec<u8>, ProcessError>)
    requires
        1 <= quality <= 100,
        img.spec_width() >= 1,
        img.spec_height() >= 1,
    ensures
        match encoded_result(
            format,
            match format {
                OutputFormat::WebP => webp_encoding(
                    img.spec_source(),
                    img.spec_width(),
                    img.spec_height(),
                    quality,
                ),
                OutputFormat::Avif => avif_encoding(
                    img.spec_source(),
                    img.spec_width(),
                    img.spec_height(),
                    quality,
                    AVIF_SPEED,
                    AVIF_THREADS,
                ),
            },
        ) {
            Ok(out) => r matches Ok(v) && v@ == out,
            Err(e) => r == Err::<Vec<u8>, ProcessError>(e),
        },
{
    let encoded = match format {
        OutputFormat::WebP => encode_webp(img, quality),
        OutputFormat::Avif => match encode_avif(img, quality, AVIF_SPEED, AVIF_THREADS) {
            Ok(out) => Some(out),
            Err(_) => None,
        },
    };
    accept_encoded(format, encoded)
}

/// Transcodes `bytes`: bound check on the request, decode, bound check on the
/// decoded source, resize, clamp the quality, encode.
pub fn process_image(bytes: &[u8], options: ProcessOptions) -> (r: Result<Vec<u8>, ProcessError>)
    ensures
        match pipeline_rejection(bytes@, options) {
            Some(e) => r == Err::<Vec<u8>, ProcessError>(e),
            None => match encoded_result(options.format, encoder_output(bytes@, options)) {
                Ok(out) => r matches Ok(v) && v@ == out,
                Err(e) => r == Err::<Vec<u8>, ProcessError>(e),
            },
        },
        pipeline_rejection(bytes@, options) is None ==> {
            let (w, h) = output_dimensions(bytes@, options);
            &&& options.width matches Some(rw) ==> w == rw
            &&& options.height matches Some(rh) ==> h == rh
            &&& (options.width, options.height) matches (None, None) ==> (w, h)
                == decoded_dimensions(bytes@).unwrap()
        },
{
    check_request(&options)?;
    let img = match decode(bytes) {
        Ok(img) => img,
        Err(_) => return Err(ProcessError::Decode),
    };
    check_source(img.width(), img.height())?;
    let img = resize_for(img, options.width, options.height);
    let quality = clamp_quality(options.quality);
    encode(&img, options.format, quality)
}

/// Requesting both dimensions within the limits passes the pre-decode check
/// and resizes the source to exactly those dimensions, whatever its size.
pub proof fn lemma_both_dimensions_exact(options: ProcessOptions, src_width: u32, src_height: u32)
    requires
        options.width matches Some(w) && 1 <= w <= MAX_DIMENSION,
        options.height matches Some(h) && 1 <= h <= MAX_DIMENSION,
        options.width.unwrap() * options.height.unwrap() <= MAX_PIXELS,
    ensures
        request_check(options) == Ok::<(), ProcessError>(()),
        resized_dimensions(src_width, src_height, options.width, options.height) == (
            options.width.unwrap(),
            options.height.unwrap(),
        ),
{
}

/// A quality in [1, 100] reaches the encoder unchanged and within the range
/// the encoders accept; it alone never makes the pipeline fail.
pub proof fn lemma_valid_quality_unchanged(quality: u32)
    requires
        1 <= quality <= 100,
    ensures
        clamped_quality(quality) == quality,
        1 <= clamped_quality(quality) <= 100,
{
}

/// A source that decodes to more pixels than the limit is refused, however
/// small its encoded form, even when the request itself is in bounds.
pub proof fn lemma_oversized_source_refused(data: Seq<u8>, options: ProcessOptions)
    requires
        request_check(options) is Ok,
        decoded_dimensions(data) matches Some((w, h)) && w * h > MAX_PIXELS,
    ensures
        pipeline_rejection(data, options) == Some(
            ProcessError::SourceTooLarge {
                width: decoded_dimensions(data).unwrap().0,
                height: decoded_dimensions(data).unwrap().1,
            },
        ),
{
    let (w, h) = decoded_dimensions(data).unwrap();
    assert(w != 0 && h != 0) by (nonlinear_arith)
        requires
            w * h > MAX_PIXELS,
    ;
}

} // verus!
