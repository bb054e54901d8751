//! The in-memory image value and the operations on it.
//!
//! A raster decoded by the collaborator is opaque; the library carries it
//! inside [`Image`] together with the plain metadata the protocol reads
//! (width, height, color model). Every call into the collaborator is a
//! trusted wrapper whose contract states what the collaborator's source
//! documents; everything around those calls is verified.

use vstd::prelude::*;

use crate::bridge::ImageFormatEnum;
use crate::codes::{code_of_failure, spec_code_of_failure, FailureKind, ImageErrorCode};

verus! {

/// The collaborator's decoded raster, opaque to the verified core.
#[verifier::external_type_specification]
#[verifier::external_body]
pub struct ExDynamicImage(image::DynamicImage);

/// The collaborator's error value, opaque to the verified core.
#[verifier::external_type_specification]
#[verifier::external_body]
pub struct ExImageError(image::ImageError);

/// The color model of an image, as the boundary distinguishes it.
#[derive(Clone, Copy, Debug, PartialEq, Eq, Structural)]
pub enum ColorKind {
    L,
    La,
    Rgb,
    Rgba,
}

/// The wire tag of a color model: 0 = L, 1 = La, 2 = Rgb, 3 = Rgba.
pub open spec fn spec_color_tag(c: ColorKind) -> u8 {
    match c {
        ColorKind::L => 0,
        ColorKind::La => 1,
        ColorKind::Rgb => 2,
        ColorKind::Rgba => 3,
    }
}

/// The wire tag of a color model: 0 = L, 1 = La, 2 = Rgb, 3 = Rgba.
pub fn color_tag(c: ColorKind) -> (t: u8)
    ensures
        t == spec_color_tag(c),
{
    match c {
        ColorKind::L => 0,
        ColorKind::La => 1,
        ColorKind::Rgb => 2,
        ColorKind::Rgba => 3,
    }
}

/// The abstract value of an [`Image`]: the metadata the protocol reasons
/// about. The pixel contents stay with the collaborator.
#[derive(Clone, Copy, Debug, PartialEq, Eq, Structural)]
pub struct ImageMeta {
    pub width: u32,
    pub height: u32,
    pub color: ColorKind,
}

/// Fixed-size record describing an image, copied by value to the caller; it
/// has no lifetime of its own and needs no release.
#[derive(Clone, Copy, Debug, PartialEq, Eq, Structural)]
pub struct ImageMetadata {
    pub width: u32,
    pub height: u32,
    pub color_type: u8,
}

/// An in-memory decoded image: the collaborator's raster plus the recorded
/// metadata that the boundary protocol works with.
pub struct Image {
    payload: image::DynamicImage,
    width: u32,
    height: u32,
    color: ColorKind,
}

impl View for Image {
    type V = ImageMeta;

    closed spec fn view(&self) -> ImageMeta {
        ImageMeta { width: self.width, height: self.height, color: self.color }
    }
}

impl Image {
    /// Width in pixels, as recorded when the raster entered the library.
    pub fn width(&self) -> (w: u32)
        ensures
            w == self@.width,
    {
        self.width
    }

    /// Height in pixels, as recorded when the raster entered the library.
    pub fn height(&self) -> (h: u32)
        ensures
            h == self@.height,
    {
        self.height
    }

    /// Color model, as recorded when the raster entered the library.
    pub fn color(&self) -> (c: ColorKind)
        ensures
            c == self@.color,
    {
        self.color
    }

    /// The collaborator's raster itself, for callers that hand it back to
    /// the collaborator (saving to disk, operations the core does not carry).
    pub fn payload(&self) -> &image::DynamicImage {
        &self.payload
    }

    /// Bring an externally produced raster into the library's modeled form.
    ///
    /// Relies on `image::DynamicImage::width`, `::height` and `::color` to
    /// record the raster's true metadata.
    #[verifier::external_body]
    pub fn from_dynamic(payload: image::DynamicImage) -> Image {
        let width = payload.width();
        let height = payload.height();
        let color = match payload.color() {
            image::ColorType::L8 | image::ColorType::L16 => ColorKind::L,
            image::ColorType::La8 | image::ColorType::La16 => ColorKind::La,
            image::ColorType::Rgb8 | image::ColorType::Rgb16 | image::ColorType::Rgb32F => ColorKind::Rgb,
            _ => ColorKind::Rgba,
        };
        Image { payload, width, height, color }
    }
}

/// Classify a collaborator failure into the library's closed categories.
///
/// Relies on `image::ImageError`: its `Decoding`, `Encoding`, `IoError`,
/// `Limits` and `Unsupported` variants are the categories the taxonomy
/// claims; anything else is left unclassified.
#[verifier::external_body]
pub(crate) fn classify_error(err: &image::ImageError) -> FailureKind {
    match err {
        image::ImageError::Decoding(_) => FailureKind::Decoding,
        image::ImageError::Encoding(_) => FailureKind::Encoding,
        image::ImageError::IoError(_) => FailureKind::Io,
        image::ImageError::Limits(_) => FailureKind::Limits,
        image::ImageError::Unsupported(_) => FailureKind::Unsupported,
        _ => FailureKind::Other,
    }
}

/// Convert a collaborator error to its boundary status code. Never `Success`:
/// an error value always reports a failure.
pub fn error_to_code(err: &image::ImageError) -> (c: ImageErrorCode)
    ensures
        c != ImageErrorCode::Success,
        exists|k: FailureKind| c == spec_code_of_failure(k),
{
    let kind = classify_error(err);
    code_of_failure(kind)
}

/// The outcome of decoding a byte value with format auto-detection: the
/// decoded image's metadata, or `None` if the bytes do not decode. Decoding
/// depends on the byte value alone, so the outcome has a name even though
/// only the collaborator can compute it.
pub uninterp spec fn spec_decoded(data: Seq<u8>) -> Option<ImageMeta>;

/// The outcome of decoding a byte value strictly as the given boundary
/// format (no auto-detection): the decoded image's metadata, or `None`.
pub uninterp spec fn spec_decoded_as(data: Seq<u8>, format: ImageFormatEnum) -> Option<ImageMeta>;

/// Relies on `image::load_from_memory`: decoding is a pure function of the
/// byte value (the format is guessed from the leading magic bytes), an
/// empty buffer never decodes, and a failure comes back as an error value.
/// `Image::from_dynamic` and `classify_error` package the outcome.
#[verifier::external_body]
fn decode_memory(data: &[u8]) -> (r: Result<Image, FailureKind>)
    ensures
        r is Ok <==> spec_decoded(data@) is Some,
        r is Ok ==> r.unwrap()@ == spec_decoded(data@).unwrap(),
        data@.len() == 0 ==> r is Err,
{
    match image::load_from_memory(data) {
        Result::Ok(payload) => Result::Ok(Image::from_dynamic(payload)),
        Result::Err(e) => Result::Err(classify_error(&e)),
    }
}

/// Relies on `image::load_from_memory_with_format`: decoding is a pure
/// function of the byte value and the format — no auto-detection is
/// attempted — an empty buffer never decodes, and a failure comes back as
/// an error value. `to_image_format`, `Image::from_dynamic` and
/// `classify_error` convert at the edges.
#[verifier::external_body]
fn decode_memory_as(data: &[u8], format: ImageFormatEnum) -> (r: Result<Image, FailureKind>)
    ensures
        r is Ok <==> spec_decoded_as(data@, format) is Some,
        r is Ok ==> r.unwrap()@ == spec_decoded_as(data@, format).unwrap(),
        data@.len() == 0 ==> r is Err,
{
    match image::load_from_memory_with_format(data, format.to_image_format()) {
        Result::Ok(payload) => Result::Ok(Image::from_dynamic(payload)),
        Result::Err(e) => Result::Err(classify_error(&e)),
    }
}

/// Decode an image from a memory buffer, guessing its format.
///
/// Succeeds exactly when the byte value decodes, and then carries exactly
/// the decoded metadata; on failure the error is one of the library's
/// closed categories.
pub fn load_image_from_memory(data: &[u8]) -> (r: Result<Image, FailureKind>)
    ensures
        r is Ok <==> spec_decoded(data@) is Some,
        r is Ok ==> r.unwrap()@ == spec_decoded(data@).unwrap(),
        data@.len() == 0 ==> r is Err,
{
    decode_memory(data)
}

/// Decode an image from a memory buffer strictly as a specific boundary
/// format.
///
/// Succeeds exactly when the byte value decodes as that format, and then
/// carries exactly the decoded metadata.
pub fn load_image_from_memory_with_format(data: &[u8], format: ImageFormatEnum) -> (r: Result<
    Image,
    FailureKind,
>)
    ensures
        r is Ok <==> spec_decoded_as(data@, format) is Some,
        r is Ok ==> r.unwrap()@ == spec_decoded_as(data@, format).unwrap(),
        data@.len() == 0 ==> r is Err,
{
    decode_memory_as(data, format)
}

/// Relies on `image::DynamicImage::write_to`: encodes the raster into an
/// in-memory buffer in the given format.
#[verifier::external_body]
fn encode_payload(img: &Image, format: image::ImageFormat) -> Result<Vec<u8>, image::ImageError> {
    let mut buffer = Vec::new();
    match img.payload.write_to(&mut std::io::Cursor::new(&mut buffer), format) {
        Result::Ok(()) => Result::Ok(buffer),
        Result::Err(e) => Result::Err(e),
    }
}

/// Encode an image into a fresh byte buffer in the given format.
///
/// A successful encode always hands back a nonempty buffer: an encoder that
/// produced no bytes is reported as an encoding failure.
pub fn encode_image(img: &Image, format: image::ImageFormat) -> (r: Result<Vec<u8>, FailureKind>)
    ensures
        r is Ok ==> r.unwrap()@.len() > 0,
{
    match encode_payload(img, format) {
        Result::Ok(buffer) => {
            if buffer.len() > 0 {
                Result::Ok(buffer)
            } else {
                Result::Err(FailureKind::Encoding)
            }
        },
        Result::Err(e) => Result::Err(classify_error(&e)),
    }
}

/// The eight-byte signature that opens every PNG stream.
pub open spec fn png_signature() -> Seq<u8> {
    seq![0x89u8, 0x50u8, 0x4eu8, 0x47u8, 0x0du8, 0x0au8, 0x1au8, 0x0au8]
}

/// Whether a buffer begins with the PNG signature.
pub open spec fn has_png_signature(data: Seq<u8>) -> bool {
    data.len() >= 8 && data.subrange(0, 8) == png_signature()
}

/// The outcome of format detection on a byte value, narrowed to the
/// boundary's closed set: the recognized boundary format, or `None` when
/// the magic bytes match nothing or match a format outside the set.
/// Detection scans the byte value alone, so the outcome has a name.
pub uninterp spec fn spec_detect(data: Seq<u8>) -> Option<ImageFormatEnum>;

/// Relies on `image::guess_format`: detection reads only the buffer's
/// leading magic bytes — a pure function of the byte value — its sole
/// failure is "unrecognized", an empty buffer is never recognized, and a
/// buffer that starts with the PNG signature (the first entry of its magic
/// table) is recognized as PNG. `ImageFormatEnum::from_image_format`
/// narrows the recognized format to the boundary's closed set.
#[verifier::external_body]
fn guess_format_memory(data: &[u8]) -> (r: Option<ImageFormatEnum>)
    ensures
        r == spec_detect(data@),
        data@.len() == 0 ==> r is None,
        has_png_signature(data@) ==> r == Option::Some(ImageFormatEnum::Png),
{
    match image::guess_format(data) {
        Result::Ok(f) => ImageFormatEnum::from_image_format(f),
        Result::Err(_) => Option::None,
    }
}

/// Guess the boundary format of a byte buffer from its magic bytes.
///
/// Succeeds exactly when detection hits the boundary's closed set, and then
/// returns exactly the detected format; an unrecognized buffer and a
/// recognized format outside the set are both reported as `Unsupported`.
pub fn guess_image_format(data: &[u8]) -> (r: Result<ImageFormatEnum, FailureKind>)
    ensures
        r is Ok <==> spec_detect(data@) is Some,
        r is Ok ==> r.unwrap() == spec_detect(data@).unwrap(),
        spec_detect(data@) is None ==> (r == Result::<ImageFormatEnum, FailureKind>::Err(
            FailureKind::Unsupported,
        )),
        has_png_signature(data@) ==> (r == Result::<ImageFormatEnum, FailureKind>::Ok(
            ImageFormatEnum::Png,
        )),
{
    match guess_format_memory(data) {
        Option::Some(f) => Result::Ok(f),
        Option::None => Result::Err(FailureKind::Unsupported),
    }
}

/// Copy an image's metadata into the fixed-size record handed to callers.
pub fn get_metadata(img: &Image) -> (m: ImageMetadata)
    ensures
        m.width == img@.width,
        m.height == img@.height,
        m.color_type == spec_color_tag(img@.color),
{
    ImageMetadata {
        width: img.width(),
        height: img.height(),
        color_type: color_tag(img.color()),
    }
}

/// The extent of a cropped axis: the requested length, clamped to what lies
/// between the (clamped) offset and the image's edge.
pub open spec fn spec_crop_extent(full: int, offset: int, want: int) -> int {
    let off = if offset <= full {
        offset
    } else {
        full
    };
    let avail = full - off;
    if want <= avail {
        want
    } else {
        avail
    }
}

/// The dimensions of an aspect-preserving fit of a `w × h` image into
/// `bound_w × bound_h` bounds, as the collaborator computes them: a pure
/// function of the four integers, named because its rounding arithmetic is
/// the collaborator's own.
pub uninterp spec fn spec_fit_dims(w: u32, h: u32, bound_w: u32, bound_h: u32) -> (u32, u32);

/// Relies on `image::DynamicImage::resize`: bounds equal to the current
/// dimensions return a copy unchanged; otherwise the result has exactly the
/// dimensions of the collaborator's aspect-preserving fit (the same pure
/// function of image size and bounds on every call), which for nonzero
/// image and bounds lies within the bounds with at least one pixel on each
/// axis. The color model is kept in every case.
#[verifier::external_body]
pub fn resize_image(img: &Image, width: u32, height: u32, filter: image::imageops::FilterType) -> (
    r: Image)
    ensures
        r@.color == img@.color,
        img@.width == width && img@.height == height ==> r@.width == width && r@.height == height,
        !(img@.width == width && img@.height == height) ==> r@.width == spec_fit_dims(
            img@.width,
            img@.height,
            width,
            height,
        ).0 && r@.height == spec_fit_dims(img@.width, img@.height, width, height).1,
        img@.width >= 1 && img@.height >= 1 && width >= 1 && height >= 1 ==> 1 <= r@.width
            <= width && 1 <= r@.height <= height,
{
    let p = img.payload.resize(width, height, filter);
    Image { width: p.width(), height: p.height(), color: img.color, payload: p }
}

/// Relies on `image::DynamicImage::resize_exact`: the result has exactly the
/// requested dimensions and the input's color model.
#[verifier::external_body]
pub fn resize_exact(img: &Image, width: u32, height: u32, filter: image::imageops::FilterType) -> (
    r: Image)
    ensures
        r@.width == width,
        r@.height == height,
        r@.color == img@.color,
{
    let p = img.payload.resize_exact(width, height, filter);
    Image { width: p.width(), height: p.height(), color: img.color, payload: p }
}

/// Whether covering a `w × h` image's aspect ratio over `bound_w × bound_h`
/// bounds stays clear of the collaborator's dimension cap: the scaled size
/// on each axis, `max(bound, other bound scaled by the aspect ratio)`,
/// stays below the cap, so no clamping occurs.
pub open spec fn spec_fill_in_range(w: int, h: int, bound_w: int, bound_h: int) -> bool {
    w * bound_h <= h * 0xFFFF_FFFE && h * bound_w <= w * 0xFFFF_FFFE
}

/// Relies on `image::DynamicImage::resize_to_fill`: the raster is scaled to
/// cover the requested bounds and then cropped back to them, so the result
/// never exceeds the bounds, and whenever the scaled size stays clear of
/// the collaborator's dimension cap the result is exactly the bounds. The
/// color model is kept. A zero-sized source is excluded: the collaborator's
/// arithmetic underflows on it; the zero bounds excluded with it would make
/// an empty result anyway.
#[verifier::external_body]
pub fn resize_to_fit(img: &Image, width: u32, height: u32, filter: image::imageops::FilterType) -> (
    r: Image)
    requires
        img@.width >= 1,
        img@.height >= 1,
        width >= 1,
        height >= 1,
    ensures
        r@.color == img@.color,
        r@.width <= width,
        r@.height <= height,
        spec_fill_in_range(
            img@.width as int,
            img@.height as int,
            width as int,
            height as int,
        ) ==> r@.width == width && r@.height == height,
{
    let p = img.payload.resize_to_fill(width, height, filter);
    Image { width: p.width(), height: p.height(), color: img.color, payload: p }
}

/// Relies on `image::DynamicImage::crop_imm`: the cut-out is clamped to the
/// image's bounds, so each axis has exactly the clamped extent, and the
/// color model is kept.
#[verifier::external_body]
pub fn crop_image(img: &Image, x: u32, y: u32, width: u32, height: u32) -> (r: Image)
    ensures
        r@.width == spec_crop_extent(img@.width as int, x as int, width as int),
        r@.height == spec_crop_extent(img@.height as int, y as int, height as int),
        r@.color == img@.color,
{
    let p = img.payload.crop_imm(x, y, width, height);
    Image { width: p.width(), height: p.height(), color: img.color, payload: p }
}

/// Relies on `image::DynamicImage::rotate90`: a quarter turn swaps the two
/// axes and keeps the color model.
#[verifier::external_body]
pub fn rotate_90(img: &Image) -> (r: Image)
    ensures
        r@.width == img@.height,
        r@.height == img@.width,
        r@.color == img@.color,
{
    let p = img.payload.rotate90();
    Image { width: p.width(), height: p.height(), color: img.color, payload: p }
}

/// Relies on `image::DynamicImage::rotate180`: a half turn keeps dimensions
/// and color model.
#[verifier::external_body]
pub fn rotate_180(img: &Image) -> (r: Image)
    ensures
        r@ == img@,
{
    let p = img.payload.rotate180();
    Image { width: p.width(), height: p.height(), color: img.color, payload: p }
}

/// Relies on `image::DynamicImage::rotate270`: a quarter turn swaps the two
/// axes and keeps the color model.
#[verifier::external_body]
pub fn rotate_270(img: &Image) -> (r: Image)
    ensures
        r@.width == img@.height,
        r@.height == img@.width,
        r@.color == img@.color,
{
    let p = img.payload.rotate270();
    Image { width: p.width(), height: p.height(), color: img.color, payload: p }
}

/// Relies on `image::DynamicImage::fliph`: mirroring keeps dimensions and
/// color model.
#[verifier::external_body]
pub fn flip_horizontal(img: &Image) -> (r: Image)
    ensures
        r@ == img@,
{
    let p = img.payload.fliph();
    Image { width: p.width(), height: p.height(), color: img.color, payload: p }
}

/// Relies on `image::DynamicImage::flipv`: mirroring keeps dimensions and
/// color model.
#[verifier::external_body]
pub fn flip_vertical(img: &Image) -> (r: Image)
    ensures
        r@ == img@,
{
    let p = img.payload.flipv();
    Image { width: p.width(), height: p.height(), color: img.color, payload: p }
}

/// Relies on `image::DynamicImage::brighten`: a per-pixel adjustment that
/// keeps dimensions and color model.
#[verifier::external_body]
pub fn adjust_brightness(img: &Image, value: i32) -> (r: Image)
    ensures
        r@ == img@,
{
    let p = img.payload.brighten(value);
    Image { width: p.width(), height: p.height(), color: img.color, payload: p }
}

/// Relies on `image::DynamicImage::to_luma8`: the conversion keeps the
/// dimensions and yields an eight-bit grayscale raster.
#[verifier::external_body]
pub fn grayscale(img: &Image) -> (r: Image)
    ensures
        r@.width == img@.width,
        r@.height == img@.height,
        r@.color == ColorKind::L,
{
    let p = image::DynamicImage::ImageLuma8(img.payload.to_luma8());
    Image { width: p.width(), height: p.height(), color: ColorKind::L, payload: p }
}

/// Relies on `image::DynamicImage::invert`: the in-place channel inversion
/// touches pixel values only, never dimensions or color model.
#[verifier::external_body]
pub fn invert(img: &mut Image)
    ensures
        final(img)@ == old(img)@,
{
    img.payload.invert();
}

} // verus!
