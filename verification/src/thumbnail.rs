use crate::thumbnail::ImageColor as L;
use image::ColorType as C;
use image::ExtendedColorType as E;
use vstd::prelude::*;

verus! {

/// Width in pixels of the thumbnail an upload stores.
pub const THUMBNAIL_WIDTH: u32 = 480;
/// Height in pixels of the thumbnail an upload stores.
pub const THUMBNAIL_HEIGHT: u32 = 360;

#[verifier::external_type_specification]
#[verifier::external_body]
pub struct ExDynamicImage(image::DynamicImage);

#[verifier::external_type_specification]
#[verifier::external_body]
pub struct ExPixelType(fast_image_resize::PixelType);

#[verifier::external_type_specification]
#[verifier::external_body]
pub struct ExResizer(fast_image_resize::Resizer);

#[verifier::external_type_specification]
#[verifier::external_body]
pub struct ExResizeImage<'a>(fast_image_resize::images::Image<'a>);

/// The colour layouts of a decoded image (those of `image::ColorType`).
#[derive(Debug, Clone, Copy, PartialEq, Eq)]
pub enum ImageColor {
    L8,
    La8,
    Rgb8,
    Rgba8,
    L16,
    La16,
    Rgb16,
    Rgba16,
    Rgb32F,
    Rgba32F,
}

/// Bytes per pixel of a colour layout, as `image::ColorType::bytes_per_pixel`
/// gives them.
pub open spec fn pixel_bytes(c: ImageColor) -> nat {
    match c {
        ImageColor::L8 => 1,
        ImageColor::L16 | ImageColor::La8 => 2,
        ImageColor::Rgb8 => 3,
        ImageColor::Rgba8 | ImageColor::La16 => 4,
        ImageColor::Rgb16 => 6,
        ImageColor::Rgba16 => 8,
        ImageColor::Rgb32F => 12,
        ImageColor::Rgba32F => 16,
    }
}

/// Bytes per pixel of a colour layout.
pub fn bytes_per_pixel(c: ImageColor) -> (r: u8)
    ensures
        r as nat == pixel_bytes(c),
{
    match c {
        ImageColor::L8 => 1,
        ImageColor::L16 | ImageColor::La8 => 2,
        ImageColor::Rgb8 => 3,
        ImageColor::Rgba8 | ImageColor::La16 => 4,
        ImageColor::Rgb16 => 6,
        ImageColor::Rgba16 => 8,
        ImageColor::Rgb32F => 12,
        ImageColor::Rgba32F => 16,
    }
}

/// Whether a layout has 8-bit channels.
pub open spec fn is_eight_bit(c: ImageColor) -> bool {
    c is L8 || c is La8 || c is Rgb8 || c is Rgba8
}

/// Whether a layout has 16-bit channels.
pub open spec fn is_sixteen_bit(c: ImageColor) -> bool {
    c is L16 || c is La16 || c is Rgb16 || c is Rgba16
}

/// Whether a layout has 32-bit float channels.
pub open spec fn is_float(c: ImageColor) -> bool {
    c is Rgb32F || c is Rgba32F
}

/// A name for what `image::codecs::png::PngEncoder::write_image` gives for
/// the given pixels, size and colour layout: the PNG bytes, or nothing when
/// it reports an error. The bytes are only stated for 8-bit layouts; for
/// 16-bit layouts the encoder first puts the native-endian samples in big
/// endian, so only whether it succeeds is stated.
pub uninterp spec fn png_encoding(pixels: Seq<u8>, width: u32, height: u32, color: ImageColor) -> Option<
    Seq<u8>,
>;

/// Calls `image::ImageReader::with_guessed_format` on a reader over the
/// bytes, then `image::ImageReader::decode`. The two calls share one wrapper
/// because the reader between them has a type whose bounds (`Read + Seek`)
/// cannot be declared here. Nothing is stated of the image, nor of when
/// either call fails: both consult format and decoder hooks that any code in
/// the process may register, so the same bytes need not decode alike.
#[verifier::external_body]
fn decode_image(data: Vec<u8>) -> Option<image::DynamicImage> {
    match image::ImageReader::new(std::io::Cursor::new(data)).with_guessed_format() {
        Ok(reader) => reader.decode().ok(),
        Err(_) => None,
    }
}

/// Calls `image::DynamicImage::color` and tells its variants apart. Nothing
/// is stated of which layout an image has; a layout that `ImageColor` does
/// not list gives `None`.
#[verifier::external_body]
fn color_of(src: &image::DynamicImage) -> Option<ImageColor> {
    match src.color() {
        C::L8 => Some(L::L8), C::La8 => Some(L::La8), C::Rgb8 => Some(L::Rgb8),
        C::Rgba8 => Some(L::Rgba8), C::L16 => Some(L::L16), C::La16 => Some(L::La16),
        C::Rgb16 => Some(L::Rgb16), C::Rgba16 => Some(L::Rgba16),
        C::Rgb32F => Some(L::Rgb32F), C::Rgba32F => Some(L::Rgba32F), _ => None,
    }
}

/// Calls `fast_image_resize::IntoImageView::pixel_type` on a decoded image.
/// Nothing is stated of the result.
#[verifier::external_body]
fn pixel_type_of(src: &image::DynamicImage) -> Option<fast_image_resize::PixelType> {
    fast_image_resize::IntoImageView::pixel_type(src)
}

/// An image for the resizer to fill, with the width, height and pixel type
/// it was made with.
pub struct ResizeTarget {
    pub image: fast_image_resize::images::Image<'static>,
    pub width: u32,
    pub height: u32,
    pub pixel_type: fast_image_resize::PixelType,
}

/// Calls `fast_image_resize::images::Image::new`, an empty image of the
/// given size and pixel type, and reads back its `width`, `height` and
/// `pixel_type`; the source stores exactly the arguments, which is what is
/// stated. Nothing is stated of the pixel bytes.
#[verifier::external_body]
fn new_image(width: u32, height: u32, pixel_type: fast_image_resize::PixelType) -> (r: ResizeTarget)
    ensures
        r.width == width,
        r.height == height,
        r.pixel_type == pixel_type,
{
    let image = fast_image_resize::images::Image::new(width, height, pixel_type);
    ResizeTarget { width: image.width(), height: image.height(), pixel_type: image.pixel_type(), image }
}

/// Calls `fast_image_resize::Resizer::new`.
#[verifier::external_body]
fn new_resizer() -> fast_image_resize::Resizer {
    fast_image_resize::Resizer::new()
}

/// Calls `fast_image_resize::Resizer::resize` with default options, and
/// tells whether it succeeded. Nothing is stated of the pixels written.
#[verifier::external_body]
fn resize_image(
    resizer: &mut fast_image_resize::Resizer,
    src: &image::DynamicImage,
    dst: &mut fast_image_resize::images::Image<'static>,
) -> bool {
    resizer.resize(src, dst, None).is_ok()
}

/// Calls `fast_image_resize::images::Image::buffer`: the image's pixel bytes.
/// Nothing is stated of them.
#[verifier::external_body]
fn image_buffer<'a>(img: &'a fast_image_resize::images::Image<'static>) -> &'a [u8] {
    img.buffer()
}

/// Calls `image::ImageEncoder::write_image` of a `PngEncoder` that writes to
/// a vector. For 8-bit layouts its result is named `png_encoding` of its
/// arguments; for 16-bit layouts only whether it succeeds is; float layouts
/// are refused (the encoder's source answers them with an unsupported-colour
/// error). The encoder panics unless the buffer holds exactly
/// `width * height` pixels of the layout, so that is required.
#[verifier::external_body]
fn encode_png(pixels: &[u8], width: u32, height: u32, color: ImageColor) -> (r: Option<Vec<u8>>)
    requires
        pixels@.len() == width as nat * height as nat * pixel_bytes(color),
    ensures
        is_eight_bit(color) ==> match r {
            Some(png) => png_encoding(pixels@, width, height, color) == Some(png@),
            None => png_encoding(pixels@, width, height, color) is None,
        },
        is_sixteen_bit(color) ==> (r is Some <==> png_encoding(pixels@, width, height, color) is Some),
        is_float(color) ==> r is None,
{
    let extended = match color {
        ImageColor::L8 => E::L8, ImageColor::La8 => E::La8, ImageColor::Rgb8 => E::Rgb8,
        ImageColor::Rgba8 => E::Rgba8, ImageColor::L16 => E::L16, ImageColor::La16 => E::La16,
        ImageColor::Rgb16 => E::Rgb16, ImageColor::Rgba16 => E::Rgba16,
        ImageColor::Rgb32F => E::Rgb32F, ImageColor::Rgba32F => E::Rgba32F,
    };
    let mut out: Vec<u8> = Vec::new();
    let encoder = image::codecs::png::PngEncoder::new(&mut out);
    match image::ImageEncoder::write_image(encoder, pixels, width, height, extended) {
        Ok(()) => Some(out),
        Err(_) => None,
    }
}

/// The step at which making a thumbnail stopped.
#[derive(Debug, Clone, Copy, PartialEq, Eq)]
pub enum ThumbnailError {
    /// The bytes did not decode as an image in the format guessed from them.
    Decode,
    /// The image's pixel type cannot be resized.
    PixelType,
    /// Resizing failed.
    Resize,
    /// The image's colour layout is not one of `ImageColor`.
    Color,
    /// The resized pixels do not fill the thumbnail in the image's layout.
    BufferSize,
    /// PNG encoding failed.
    Encode,
}

/// The number of bytes that a 480 x 360 buffer in a layout holds.
pub open spec fn thumbnail_bytes(color: ImageColor) -> nat {
    THUMBNAIL_WIDTH as nat * THUMBNAIL_HEIGHT as nat * pixel_bytes(color)
}

/// The PNG file of a resized thumbnail, given its pixel buffer and colour
/// layout: a buffer that does not hold 480 x 360 pixels of the layout gives
/// `BufferSize`; otherwise the PNG encoding of the buffer in that layout, or
/// `Encode` when the encoder fails. Float layouts are always refused; for
/// 16-bit layouts only whether encoding succeeds is named.
pub fn encode_thumbnail(pixels: &[u8], color: ImageColor) -> (r: Result<Vec<u8>, ThumbnailError>)
    ensures
        (pixels@.len() != thumbnail_bytes(color)) <==> r == Err::<Vec<u8>, ThumbnailError>(
            ThumbnailError::BufferSize,
        ),
        pixels@.len() == thumbnail_bytes(color) ==> {
            &&& r is Ok || r == Err::<Vec<u8>, ThumbnailError>(ThumbnailError::Encode)
            &&& is_float(color) ==> r == Err::<Vec<u8>, ThumbnailError>(ThumbnailError::Encode)
            &&& is_eight_bit(color) ==> match png_encoding(pixels@, THUMBNAIL_WIDTH, THUMBNAIL_HEIGHT, color) {
                Some(png) => r matches Ok(out) && out@ == png,
                None => r == Err::<Vec<u8>, ThumbnailError>(ThumbnailError::Encode),
            }
            &&& is_sixteen_bit(color) ==> (r is Ok <==> png_encoding(
                pixels@,
                THUMBNAIL_WIDTH,
                THUMBNAIL_HEIGHT,
                color,
            ) is Some)
        },
{
    let width = THUMBNAIL_WIDTH as usize;
    let height = THUMBNAIL_HEIGHT as usize;
    assert(width == 480 && height == 360);
    let pixel_count: usize = width * height;
    let bytes = bytes_per_pixel(color);
    assert(bytes <= 16);
    let expected: usize = pixel_count * bytes as usize;
    if pixels.len() != expected {
        return Err(ThumbnailError::BufferSize);
    }
    match encode_png(pixels, THUMBNAIL_WIDTH, THUMBNAIL_HEIGHT, color) {
        Some(png) => Ok(png),
        None => Err(ThumbnailError::Encode),
    }
}

/// A decoded upload, with its colour layout and its pixel type for the
/// resizer as the outside crates report them (`None` where a crate does not
/// list the image's kind).
pub struct DecodedImage {
    pub image: image::DynamicImage,
    pub color: Option<ImageColor>,
    pub pixel_type: Option<fast_image_resize::PixelType>,
}

/// A decoded image with its colour layout and its pixel type read off it.
/// Which layout and pixel type come back is the outside crates'.
pub fn describe_image(image: image::DynamicImage) -> (d: DecodedImage)
    ensures
        d.image == image,
{
    let color = color_of(&image);
    let pixel_type = pixel_type_of(&image);
    DecodedImage { image, color, pixel_type }
}

/// Resizes a decoded image into a new 480 x 360 image of its own pixel type
/// with the resizer's defaults. An image without a pixel type gives
/// `PixelType`; a failed resize gives `Resize`.
pub fn resize_to_thumbnail(src: &DecodedImage) -> (r: Result<ResizeTarget, ThumbnailError>)
    ensures
        (r == Err::<ResizeTarget, ThumbnailError>(ThumbnailError::PixelType)) <==> src.pixel_type is None,
        r is Ok || r == Err::<ResizeTarget, ThumbnailError>(ThumbnailError::PixelType) || r == Err::<
            ResizeTarget,
            ThumbnailError,
        >(ThumbnailError::Resize),
        r matches Ok(t) ==> t.width == THUMBNAIL_WIDTH && t.height == THUMBNAIL_HEIGHT && src.pixel_type
            == Some(t.pixel_type),
{
    let pixel_type = match src.pixel_type {
        Some(pt) => pt,
        None => return Err(ThumbnailError::PixelType),
    };
    let mut dst = new_image(THUMBNAIL_WIDTH, THUMBNAIL_HEIGHT, pixel_type);
    let mut resizer = new_resizer();
    if !resize_image(&mut resizer, &src.image, &mut dst.image) {
        return Err(ThumbnailError::Resize);
    }
    Ok(dst)
}

/// The PNG thumbnail of a decoded image: resized by `resize_to_thumbnail`,
/// then the resized buffer encoded by `encode_thumbnail` in the decoded
/// image's own colour layout. A layout that `ImageColor` does not list gives
/// `Color` (after the resize, as the steps run in that order). What the
/// resized pixels are is the resizer's.
pub fn thumbnail_of(src: &DecodedImage) -> (r: Result<Vec<u8>, ThumbnailError>)
    ensures
        r != Err::<Vec<u8>, ThumbnailError>(ThumbnailError::Decode),
        (r == Err::<Vec<u8>, ThumbnailError>(ThumbnailError::PixelType)) <==> src.pixel_type is None,
        r == Err::<Vec<u8>, ThumbnailError>(ThumbnailError::Resize) ==> src.pixel_type is Some,
        r == Err::<Vec<u8>, ThumbnailError>(ThumbnailError::Color) ==> src.pixel_type is Some
            && src.color is None,
        src.color is None ==> r is Err,
        r matches Ok(png) ==> (src.color matches Some(c) && !is_float(c) && exists|pixels: Seq<u8>|
            pixels.len() == thumbnail_bytes(c)
                && #[trigger] png_encoding(pixels, THUMBNAIL_WIDTH, THUMBNAIL_HEIGHT, c) is Some
                && (is_eight_bit(c) ==> png_encoding(pixels, THUMBNAIL_WIDTH, THUMBNAIL_HEIGHT, c)
                == Some(png@))),
        r == Err::<Vec<u8>, ThumbnailError>(ThumbnailError::Encode) ==> (src.color matches Some(c)
            && exists|pixels: Seq<u8>|
            pixels.len() == thumbnail_bytes(c) && (is_float(c)
                || #[trigger] png_encoding(pixels, THUMBNAIL_WIDTH, THUMBNAIL_HEIGHT, c) is None)),
{
    let dst = match resize_to_thumbnail(src) {
        Ok(t) => t,
        Err(e) => return Err(e),
    };
    let color = match src.color {
        Some(c) => c,
        None => return Err(ThumbnailError::Color),
    };
    let pixels = image_buffer(&dst.image);
    encode_thumbnail(pixels, color)
}

/// The PNG thumbnail of an uploaded image: decoded in the format guessed
/// from its bytes (bytes that do not decode give `Decode`), then made by
/// `thumbnail_of`. Decoding is the `image` crate's, and may go through hooks
/// registered in the process, so what is stated is what holds of every
/// outcome: a thumbnail is the PNG encoding, in a non-float layout, of a
/// 480 x 360 buffer in that layout.
pub fn thumbnail_png(data: Vec<u8>) -> (r: Result<Vec<u8>, ThumbnailError>)
    ensures
        r matches Ok(png) ==> exists|pixels: Seq<u8>, color: ImageColor|
            pixels.len() == thumbnail_bytes(color) && !is_float(color)
                && #[trigger] png_encoding(pixels, THUMBNAIL_WIDTH, THUMBNAIL_HEIGHT, color) is Some
                && (is_eight_bit(color) ==> png_encoding(pixels, THUMBNAIL_WIDTH, THUMBNAIL_HEIGHT, color)
                == Some(png@)),
        r == Err::<Vec<u8>, ThumbnailError>(ThumbnailError::Encode) ==> exists|pixels: Seq<u8>, color: ImageColor|
            pixels.len() == thumbnail_bytes(color) && (is_float(color)
                || #[trigger] png_encoding(pixels, THUMBNAIL_WIDTH, THUMBNAIL_HEIGHT, color) is None),
{
    match decode_image(data) {
        Some(image) => thumbnail_of(&describe_image(image)),
        None => Err(ThumbnailError::Decode),
    }
}

} // verus!
