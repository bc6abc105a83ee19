use crate::decimal::{
    all_digits, decimal_value, digits_value, is_negative, locate_number, number_parts, parse_u64,
    NumberError,
};
use crate::processor::{request_check, OutputFormat, ProcessError, ProcessOptions, MAX_DIMENSION, MAX_PIXELS};
use vstd::prelude::*;

verus! {

/// Quality used when the request names none.
pub const DEFAULT_QUALITY: u32 = 80;

#[derive(Debug, Clone, Copy, PartialEq, Eq, Structural)]
pub enum Axis {
    Width,
    Height,
}

/// Why a request's fields were refused; every one is a client error.
#[derive(Debug, Clone, Copy, PartialEq, Eq, Structural)]
pub enum IntakeError {
    /// The `file` field's body could not be read.
    FileUnreadable,
    /// The fields ended without a `file` field.
    MissingFile,
    QualityNotNumber,
    QualityOutOfRange,
    DimensionZero(Axis),
    DimensionTooLarge(Axis),
    DimensionNotInteger(Axis),
    /// Both dimensions were given and their product exceeds `MAX_PIXELS`.
    TooManyPixels,
}

/// The role of a field, by its name.
#[derive(Debug, Clone, Copy, PartialEq, Eq, Structural)]
pub enum FieldKind {
    File,
    Quality,
    Dimension(Axis),
    Format,
    Other,
}

pub open spec fn field_kind(name: Seq<u8>) -> FieldKind {
    if name == seq![0x66u8, 0x69u8, 0x6cu8, 0x65u8] {
        FieldKind::File
    } else if name == seq![0x71u8, 0x75u8, 0x61u8, 0x6cu8, 0x69u8, 0x74u8, 0x79u8] {
        FieldKind::Quality
    } else if name == seq![0x77u8, 0x69u8, 0x64u8, 0x74u8, 0x68u8] {
        FieldKind::Dimension(Axis::Width)
    } else if name == seq![0x68u8, 0x65u8, 0x69u8, 0x67u8, 0x68u8, 0x74u8] {
        FieldKind::Dimension(Axis::Height)
    } else if name == seq![0x66u8, 0x6fu8, 0x72u8, 0x6du8, 0x61u8, 0x74u8] {
        FieldKind::Format
    } else {
        FieldKind::Other
    }
}

pub open spec fn ascii_lower(c: u8) -> u8 {
    if 0x41u8 <= c <= 0x5au8 {
        (c + 0x20u8) as u8
    } else {
        c
    }
}

pub open spec fn lowered(value: Seq<u8>) -> Seq<u8> {
    value.map_values(|c: u8| ascii_lower(c))
}

/// "avif" in any letter case selects AVIF; every other value, the empty one
/// included, selects WebP.
pub open spec fn format_field(value: Seq<u8>) -> OutputFormat {
    if lowered(value) == seq![0x61u8, 0x76u8, 0x69u8, 0x66u8] {
        OutputFormat::Avif
    } else {
        OutputFormat::WebP
    }
}

pub open spec fn all_zero(d: Seq<u8>) -> bool {
    forall|i: int| 0 <= i < d.len() ==> #[trigger] d[i] == 0x30u8
}

/// Whether a number with these whole and fraction digits, and this sign, lies
/// in [1, 100]: the fraction is below one, so the whole part decides, but for
/// 100 itself, which allows only a zero fraction.
pub open spec fn percent_in_range(negative: bool, whole: Seq<u8>, fraction: Seq<u8>) -> bool {
    let w = digits_value(whole);
    !negative && 1 <= w && (w < 100 || (w == 100 && all_zero(fraction)))
}

/// The number rounded half up to a whole percentage: one more than the whole
/// part where the first fraction digit is 5 or more.
pub open spec fn rounded_percent(whole: Seq<u8>, fraction: Seq<u8>) -> nat {
    if fraction.len() > 0 && fraction[0] >= 0x35u8 {
        digits_value(whole) + 1
    } else {
        digits_value(whole)
    }
}

/// A number in [1, 100], read exactly, then rounded to a whole percentage.
pub open spec fn quality_field(value: Seq<u8>) -> Result<u32, IntakeError> {
    match number_parts(value) {
        None => Err(IntakeError::QualityNotNumber),
        Some((whole, fraction)) => if percent_in_range(is_negative(value), whole, fraction) {
            Ok(rounded_percent(whole, fraction) as u32)
        } else {
            Err(IntakeError::QualityOutOfRange)
        },
    }
}

pub open spec fn dimension_field(value: Seq<u8>, axis: Axis) -> Result<u32, IntakeError> {
    match decimal_value(value) {
        None => Err(IntakeError::DimensionNotInteger(axis)),
        Some(d) => if d == 0 {
            Err(IntakeError::DimensionZero(axis))
        } else if d > MAX_DIMENSION {
            Err(IntakeError::DimensionTooLarge(axis))
        } else {
            Ok(d as u32)
        },
    }
}

/// The options after a readable text field of kind `kind` with `value`.
pub open spec fn apply_field(o: ProcessOptions, kind: FieldKind, value: Seq<u8>) -> Result<
    ProcessOptions,
    IntakeError,
> {
    match kind {
        FieldKind::Quality => match quality_field(value) {
            Ok(q) => Ok(ProcessOptions { quality: q, ..o }),
            Err(e) => Err(e),
        },
        FieldKind::Dimension(axis) => match dimension_field(value, axis) {
            Ok(d) => Ok(
                match axis {
                    Axis::Width => ProcessOptions { width: Some(d), ..o },
                    Axis::Height => ProcessOptions { height: Some(d), ..o },
                },
            ),
            Err(e) => Err(e),
        },
        FieldKind::Format => Ok(ProcessOptions { format: format_field(value), ..o }),
        _ => Ok(o),
    }
}

/// The bounds every field check enforces on its own.
pub open spec fn intake_valid(o: ProcessOptions) -> bool {
    &&& 1 <= o.quality <= 100
    &&& (o.width matches Some(w) ==> 1 <= w <= MAX_DIMENSION)
    &&& (o.height matches Some(h) ==> 1 <= h <= MAX_DIMENSION)
}

/// Whether the requested dimensions, taken together, stay within `MAX_PIXELS`.
pub open spec fn pixel_count_ok(o: ProcessOptions) -> bool {
    (o.width, o.height) matches (Some(w), Some(h)) ==> w * h <= MAX_PIXELS
}

pub open spec fn default_options() -> ProcessOptions {
    ProcessOptions { quality: DEFAULT_QUALITY, width: None, height: None, format: OutputFormat::WebP }
}

fn same_bytes(a: &[u8], b: &[u8]) -> (r: bool)
    ensures
        r == (a@ == b@),
{
    if a.len() != b.len() {
        return false;
    }
    let mut i: usize = 0;
    while i < a.len()
        invariant
            a@.len() == b@.len(),
            i <= a@.len(),
            forall|k: int| 0 <= k < i ==> a@[k] == b@[k],
        decreases a@.len() - i,
    {
        if a[i] != b[i] {
            return false;
        }
        i += 1;
    }
    assert(a@ =~= b@);
    true
}

/// Classifies a field by its name; names are matched exactly.
pub fn classify_field(name: &[u8]) -> (r: FieldKind)
    ensures
        r == field_kind(name@),
{
    let file: [u8; 4] = [0x66u8, 0x69u8, 0x6cu8, 0x65u8];
    let quality: [u8; 7] = [0x71u8, 0x75u8, 0x61u8, 0x6cu8, 0x69u8, 0x74u8, 0x79u8];
    let width: [u8; 5] = [0x77u8, 0x69u8, 0x64u8, 0x74u8, 0x68u8];
    let height: [u8; 6] = [0x68u8, 0x65u8, 0x69u8, 0x67u8, 0x68u8, 0x74u8];
    let format: [u8; 6] = [0x66u8, 0x6fu8, 0x72u8, 0x6du8, 0x61u8, 0x74u8];
    if same_bytes(name, file.as_slice()) {
        FieldKind::File
    } else if same_bytes(name, quality.as_slice()) {
        FieldKind::Quality
    } else if same_bytes(name, width.as_slice()) {
        FieldKind::Dimension(Axis::Width)
    } else if same_bytes(name, height.as_slice()) {
        FieldKind::Dimension(Axis::Height)
    } else if same_bytes(name, format.as_slice()) {
        FieldKind::Format
    } else {
        FieldKind::Other
    }
}

fn to_ascii_lower(c: u8) -> (r: u8)
    ensures
        r == ascii_lower(c),
{
    if 0x41u8 <= c && c <= 0x5au8 {
        c + 0x20u8
    } else {
        c
    }
}

/// Reads a `format` value.
pub fn parse_format(value: &[u8]) -> (r: OutputFormat)
    ensures
        r == format_field(value@),
{
    let ghost lowered = lowered(value@);
    let ghost avif = seq![0x61u8, 0x76u8, 0x69u8, 0x66u8];
    if value.len() == 4 && to_ascii_lower(value[0]) == 0x61u8 && to_ascii_lower(value[1]) == 0x76u8
        && to_ascii_lower(value[2]) == 0x69u8 && to_ascii_lower(value[3]) == 0x66u8 {
        assert(lowered =~= avif);
        OutputFormat::Avif
    } else {
        assert(lowered.len() == value@.len());
        if value.len() == 4 {
            assert(lowered[0] == ascii_lower(value@[0]));
            assert(lowered[1] == ascii_lower(value@[1]));
            assert(lowered[2] == ascii_lower(value@[2]));
            assert(lowered[3] == ascii_lower(value@[3]));
            assert(avif[0] == 0x61u8 && avif[1] == 0x76u8 && avif[2] == 0x69u8 && avif[3] == 0x66u8);
        }
        assert(lowered != avif);
        OutputFormat::WebP
    }
}

/// Reads a `quality` value: a decimal number such as "80" or "72.5", with an
/// optional sign, in [1, 100], rounded half up to a whole percentage.
pub fn parse_quality(value: &[u8]) -> (r: Result<u32, IntakeError>)
    ensures
        r == quality_field(value@),
{
    let located = locate_number(value);
    let (start, dot, frac) = match located {
        None => return Err(IntakeError::QualityNotNumber),
        Some(parts) => parts,
    };
    let ghost whole = value@.subrange(start as int, dot as int);
    let ghost fraction = value@.subrange(frac as int, value@.len() as int);
    assert(number_parts(value@) is Some);
    assert(number_parts(value@) == Some((whole, fraction)));
    if value.len() > 0 && value[0] == 0x2du8 {
        return Err(IntakeError::QualityOutOfRange);
    }
    if dot == start {
        assert(whole =~= Seq::<u8>::empty());
        return Err(IntakeError::QualityOutOfRange);
    }
    assert(decimal_value(whole) == Some(digits_value(whole))) by {
        assert(all_digits(whole));
        assert(crate::decimal::is_digit(whole[0]));
        assert(crate::decimal::unsigned_part(whole) == whole);
    }
    let w = match parse_u64(&value[start..dot]) {
        Ok(w) => w,
        Err(_) => return Err(IntakeError::QualityOutOfRange),
    };
    if w < 1 || w > 100 {
        return Err(IntakeError::QualityOutOfRange);
    }
    let mut zero = true;
    let mut i: usize = frac;
    while i < value.len()
        invariant
            frac <= i <= value@.len(),
            fraction == value@.subrange(frac as int, value@.len() as int),
            zero == (forall|j: int| frac <= j < i ==> #[trigger] value@[j] == 0x30u8),
        decreases value@.len() - i,
    {
        if value[i] != 0x30u8 {
            zero = false;
        }
        i += 1;
    }
    assert(zero == all_zero(fraction)) by {
        if !zero {
            let j = choose|j: int| frac <= j < value@.len() && value@[j] != 0x30u8;
            assert(fraction[j - frac] == value@[j]);
        } else {
            assert forall|k: int| 0 <= k < fraction.len() implies #[trigger] fraction[k] == 0x30u8 by {
                assert(fraction[k] == value@[k + frac]);
            }
        }
    }
    if w == 100 && !zero {
        return Err(IntakeError::QualityOutOfRange);
    }
    if frac < value.len() && value[frac] >= 0x35u8 {
        assert(fraction[0] == value@[frac as int]);
        Ok(w as u32 + 1)
    } else {
        if frac < value.len() {
            assert(fraction[0] == value@[frac as int]);
        }
        Ok(w as u32)
    }
}

/// Reads a `width` or `height` value: a decimal integer in [1, MAX_DIMENSION].
pub fn parse_dimension(value: &[u8], axis: Axis) -> (r: Result<u32, IntakeError>)
    ensures
        r == dimension_field(value@, axis),
{
    match parse_u64(value) {
        Ok(d) => if d == 0 {
            Err(IntakeError::DimensionZero(axis))
        } else if d > MAX_DIMENSION as u64 {
            Err(IntakeError::DimensionTooLarge(axis))
        } else {
            Ok(d as u32)
        },
        Err(NumberError::Overflow) => Err(IntakeError::DimensionTooLarge(axis)),
        Err(NumberError::Invalid) => Err(IntakeError::DimensionNotInteger(axis)),
    }
}

/// Collects a request's multipart fields, in the order the client sent them,
/// into validated options and the uploaded bytes.
pub struct IntakeParser {
    pub file: Option<Vec<u8>>,
    pub options: ProcessOptions,
}

impl IntakeParser {
    pub fn new() -> (r: IntakeParser)
        ensures
            r.file is None,
            r.options == default_options(),
            intake_valid(r.options),
    {
        IntakeParser {
            file: None,
            options: ProcessOptions {
                quality: DEFAULT_QUALITY,
                width: None,
                height: None,
                format: OutputFormat::WebP,
            },
        }
    }

    /// Takes the next field. `data` is its body, or `None` where reading it
    /// failed: fatal for `file`, ignored for the other fields. A later field
    /// of a name replaces an earlier one; unknown names are ignored. On an
    /// error nothing changes and the request is to be refused.
    pub fn accept_field(&mut self, name: &[u8], data: Option<Vec<u8>>) -> (r: Result<
        (),
        IntakeError,
    >)
        ensures
            field_kind(name@) == FieldKind::File ==> match data {
                Some(bytes) => r is Ok && final(self).file == Some(bytes) && final(self).options
                    == old(self).options,
                None => r == Err::<(), IntakeError>(IntakeError::FileUnreadable) && *final(self)
                    == *old(self),
            },
            field_kind(name@) != FieldKind::File ==> match data {
                None => r is Ok && *final(self) == *old(self),
                Some(value) => match apply_field(old(self).options, field_kind(name@), value@) {
                    Ok(o) => r is Ok && final(self).options == o && final(self).file == old(
                        self,
                    ).file,
                    Err(e) => r == Err::<(), IntakeError>(e) && *final(self) == *old(self),
                },
            },
            intake_valid(old(self).options) ==> intake_valid(final(self).options),
    {
        let kind = classify_field(name);
        match kind {
            FieldKind::File => match data {
                Some(bytes) => {
                    self.file = Some(bytes);
                    Ok(())
                },
                None => Err(IntakeError::FileUnreadable),
            },
            _ => match data {
                None => Ok(()),
                Some(value) => {
                    match kind {
                        FieldKind::Quality => {
                            self.options.quality = parse_quality(value.as_slice())?;
                        },
                        FieldKind::Dimension(axis) => {
                            let d = parse_dimension(value.as_slice(), axis)?;
                            match axis {
                                Axis::Width => self.options.width = Some(d),
                                Axis::Height => self.options.height = Some(d),
                            }
                        },
                        FieldKind::Format => {
                            self.options.format = parse_format(value.as_slice());
                        },
                        _ => {},
                    }
                    Ok(())
                },
            },
        }
    }

    /// Ends the field stream: the options and the file; `MissingFile` where
    /// no file came, else `TooManyPixels` where both dimensions were given and
    /// together exceed the pixel limit.
    pub fn finish(self) -> (r: Result<(ProcessOptions, Vec<u8>), IntakeError>)
        ensures
            match self.file {
                None => r == Err::<(ProcessOptions, Vec<u8>), IntakeError>(IntakeError::MissingFile),
                Some(bytes) => if pixel_count_ok(self.options) {
                    r == Ok::<(ProcessOptions, Vec<u8>), IntakeError>((self.options, bytes))
                } else {
                    r == Err::<(ProcessOptions, Vec<u8>), IntakeError>(IntakeError::TooManyPixels)
                },
            },
    {
        let bytes = match self.file {
            Some(bytes) => bytes,
            None => return Err(IntakeError::MissingFile),
        };
        if let (Some(w), Some(h)) = (self.options.width, self.options.height) {
            assert(w as u64 * h as u64 <= 0xffff_fffe_0000_0001u64) by (nonlinear_arith)
                requires
                    w <= 0xffff_ffffu32,
                    h <= 0xffff_ffffu32,
            ;
            if (w as u64) * (h as u64) > MAX_PIXELS {
                return Err(IntakeError::TooManyPixels);
            }
        }
        Ok((self.options, bytes))
    }
}

/// The text sent back with each intake error; the dimension limit is stated
/// where it was exceeded.
pub open spec fn intake_message(e: IntakeError) -> Seq<char> {
    match e {
        IntakeError::FileUnreadable => "Failed to read uploaded file"@,
        IntakeError::MissingFile => "Missing file field"@,
        IntakeError::QualityNotNumber => "quality must be a number"@,
        IntakeError::QualityOutOfRange => "quality must be between 1 and 100"@,
        IntakeError::DimensionZero(Axis::Width) => "width must be greater than 0"@,
        IntakeError::DimensionZero(Axis::Height) => "height must be greater than 0"@,
        IntakeError::DimensionTooLarge(Axis::Width) => "width must not exceed 4096"@,
        IntakeError::DimensionTooLarge(Axis::Height) => "height must not exceed 4096"@,
        IntakeError::DimensionNotInteger(Axis::Width) => "width must be a positive integer"@,
        IntakeError::DimensionNotInteger(Axis::Height) => "height must be a positive integer"@,
        IntakeError::TooManyPixels => "width x height must not exceed 16000000 pixels"@,
    }
}

impl IntakeError {
    pub fn message(&self) -> (r: &'static str)
        ensures
            r@ == intake_message(*self),
    {
        match self {
            IntakeError::FileUnreadable => "Failed to read uploaded file",
            IntakeError::MissingFile => "Missing file field",
            IntakeError::QualityNotNumber => "quality must be a number",
            IntakeError::QualityOutOfRange => "quality must be between 1 and 100",
            IntakeError::DimensionZero(Axis::Width) => "width must be greater than 0",
            IntakeError::DimensionZero(Axis::Height) => "height must be greater than 0",
            IntakeError::DimensionTooLarge(Axis::Width) => "width must not exceed 4096",
            IntakeError::DimensionTooLarge(Axis::Height) => "height must not exceed 4096",
            IntakeError::DimensionNotInteger(Axis::Width) => "width must be a positive integer",
            IntakeError::DimensionNotInteger(Axis::Height) => "height must be a positive integer",
            IntakeError::TooManyPixels => "width x height must not exceed 16000000 pixels",
        }
    }

    pub open spec fn status_code(&self) -> u16 {
        400
    }

    /// Every intake error is answered with 400.
    pub fn status(&self) -> (r: u16)
        ensures
            r == self.status_code(),
    {
        400
    }
}

/// A quality that is a number outside [1, 100] is refused with a 400.
pub proof fn lemma_quality_out_of_range_refused(value: Seq<u8>)
    requires
        number_parts(value) matches Some((whole, fraction)) && !percent_in_range(
            is_negative(value),
            whole,
            fraction,
        ),
    ensures
        quality_field(value) == Err::<u32, IntakeError>(IntakeError::QualityOutOfRange),
        forall|o: ProcessOptions| #[trigger]
            apply_field(o, FieldKind::Quality, value) == Err::<ProcessOptions, IntakeError>(
                IntakeError::QualityOutOfRange,
            ),
        IntakeError::QualityOutOfRange.status_code() == 400,
{
}

/// A width or height of zero is refused with a 400.
pub proof fn lemma_zero_dimension_refused(value: Seq<u8>, axis: Axis)
    requires
        decimal_value(value) == Some(0nat),
    ensures
        dimension_field(value, axis) == Err::<u32, IntakeError>(IntakeError::DimensionZero(axis)),
        IntakeError::DimensionZero(axis).status_code() == 400,
{
}

/// A width or height above the limit is refused with a 400 whose message
/// states the limit.
pub proof fn lemma_oversized_dimension_refused(value: Seq<u8>, axis: Axis)
    requires
        decimal_value(value) matches Some(d) && d > MAX_DIMENSION,
    ensures
        dimension_field(value, axis) == Err::<u32, IntakeError>(
            IntakeError::DimensionTooLarge(axis),
        ),
        IntakeError::DimensionTooLarge(axis).status_code() == 400,
        ({
            let m = intake_message(IntakeError::DimensionTooLarge(axis));
            m.subrange(m.len() - 4, m.len() as int) == "4096"@
        }),
{
    reveal_strlit("width must not exceed 4096");
    reveal_strlit("height must not exceed 4096");
    reveal_strlit("4096");
    let m = intake_message(IntakeError::DimensionTooLarge(axis));
    assert(m.subrange(m.len() - 4, m.len() as int) =~= "4096"@);
}

/// Every field check keeps the options within their bounds, so a parser that
/// starts from `IntakeParser::new` only ever hands over valid options.
pub proof fn lemma_fields_keep_options_valid(o: ProcessOptions, kind: FieldKind, value: Seq<u8>)
    requires
        intake_valid(o),
    ensures
        intake_valid(default_options()),
        apply_field(o, kind, value) matches Ok(next) ==> intake_valid(next),
{
}

/// Options the intake hands over never violate a bound: they pass the
/// pipeline's pre-decode check, so no out-of-bounds request reaches decoding.
pub proof fn lemma_accepted_options_pass_request_check(o: ProcessOptions)
    requires
        intake_valid(o),
        pixel_count_ok(o),
    ensures
        request_check(o) == Ok::<(), ProcessError>(()),
{
}

} // verus!
