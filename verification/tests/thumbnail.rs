use blog_api::thumbnail::{
    bytes_per_pixel, describe_image, encode_thumbnail, resize_to_thumbnail, thumbnail_of, thumbnail_png,
    DecodedImage, ImageColor, ThumbnailError,
};

fn png_of(img: image::DynamicImage) -> Vec<u8> {
    let mut out = std::io::Cursor::new(Vec::new());
    img.write_to(&mut out, image::ImageFormat::Png).unwrap();
    out.into_inner()
}

#[test]
fn thumbnail_is_480_by_360_png() {
    let src = image::DynamicImage::ImageRgb8(image::RgbImage::from_pixel(64, 32, image::Rgb([200, 10, 10])));
    let input = png_of(src);
    let png = thumbnail_png(input.clone()).unwrap();
    assert_ne!(png, input);
    assert_eq!(&png[..8], &[0x89, b'P', b'N', b'G', 0x0d, 0x0a, 0x1a, 0x0a]);
    let back = image::load_from_memory(&png).unwrap();
    assert_eq!(back.width(), 480);
    assert_eq!(back.height(), 360);
    assert_eq!(back.color(), image::ColorType::Rgb8);
    let px = back.to_rgb8().get_pixel(100, 100).0;
    assert_eq!(px, [200, 10, 10]);
}

#[test]
fn thumbnail_keeps_alpha_layout() {
    let src = image::DynamicImage::ImageRgba8(image::RgbaImage::from_pixel(10, 10, image::Rgba([1, 2, 3, 4])));
    let png = thumbnail_png(png_of(src)).unwrap();
    let back = image::load_from_memory(&png).unwrap();
    assert_eq!(back.color(), image::ColorType::Rgba8);
    assert_eq!((back.width(), back.height()), (480, 360));
}

#[test]
fn thumbnail_rejects_non_image_bytes() {
    assert_eq!(thumbnail_png(b"not an image at all".to_vec()), Err(ThumbnailError::Decode));
    assert_eq!(thumbnail_png(Vec::new()), Err(ThumbnailError::Decode));
}

#[test]
fn bytes_per_pixel_of_layouts() {
    assert_eq!(bytes_per_pixel(ImageColor::L8), 1);
    assert_eq!(bytes_per_pixel(ImageColor::La8), 2);
    assert_eq!(bytes_per_pixel(ImageColor::Rgb8), 3);
    assert_eq!(bytes_per_pixel(ImageColor::Rgba16), 8);
    assert_eq!(bytes_per_pixel(ImageColor::Rgba32F), 16);
}

#[test]
fn thumbnail_keeps_sixteen_bit_layout() {
    let src = image::DynamicImage::ImageLuma16(image::ImageBuffer::from_pixel(8, 8, image::Luma([40000u16])));
    let png = thumbnail_png(png_of(src)).unwrap();
    let back = image::load_from_memory(&png).unwrap();
    assert_eq!(back.color(), image::ColorType::L16);
    assert_eq!((back.width(), back.height()), (480, 360));
    assert_eq!(back.to_luma16().get_pixel(3, 3).0, [40000u16]);
}

#[test]
fn thumbnail_of_float_layout_is_not_encoded() {
    let src = image::DynamicImage::ImageRgb32F(image::ImageBuffer::from_pixel(4, 4, image::Rgb([0.5f32, 0.25, 1.0])));
    let mut out = std::io::Cursor::new(Vec::new());
    src.write_to(&mut out, image::ImageFormat::Tiff).unwrap();
    let bytes = out.into_inner();
    assert_eq!(thumbnail_png(bytes), Err(ThumbnailError::Encode));
}

#[test]
fn encode_thumbnail_checks_buffer_size() {
    let short = vec![0u8; 480 * 360 * 3 - 1];
    assert_eq!(encode_thumbnail(&short, ImageColor::Rgb8), Err(ThumbnailError::BufferSize));
    let long = vec![0u8; 480 * 360 * 4];
    assert_eq!(encode_thumbnail(&long, ImageColor::Rgb8), Err(ThumbnailError::BufferSize));
}

#[test]
fn encode_thumbnail_encodes_given_pixels() {
    let mut pixels = vec![0u8; 480 * 360 * 2];
    for (i, b) in pixels.iter_mut().enumerate() {
        *b = (i % 251) as u8;
    }
    let png = encode_thumbnail(&pixels, ImageColor::La8).unwrap();
    let back = image::load_from_memory(&png).unwrap();
    assert_eq!(back.color(), image::ColorType::La8);
    assert_eq!((back.width(), back.height()), (480, 360));
    assert_eq!(back.as_bytes(), &pixels[..]);
}

#[test]
fn encode_thumbnail_refuses_float_layouts() {
    let pixels = vec![0u8; 480 * 360 * 12];
    assert_eq!(encode_thumbnail(&pixels, ImageColor::Rgb32F), Err(ThumbnailError::Encode));
}

fn rgb_image() -> image::DynamicImage {
    image::DynamicImage::ImageRgb8(image::RgbImage::from_pixel(20, 10, image::Rgb([9, 8, 7])))
}

#[test]
fn describe_image_reads_layout_and_pixel_type() {
    let d = describe_image(rgb_image());
    assert_eq!(d.color, Some(ImageColor::Rgb8));
    assert_eq!(d.pixel_type, Some(fast_image_resize::PixelType::U8x3));
}

#[test]
fn resize_target_is_480_by_360_of_source_pixel_type() {
    let d = describe_image(rgb_image());
    let t = resize_to_thumbnail(&d).ok().unwrap();
    assert_eq!((t.width, t.height), (480, 360));
    assert_eq!(t.pixel_type, fast_image_resize::PixelType::U8x3);
    assert_eq!(t.image.buffer().len(), 480 * 360 * 3);
    assert_eq!(&t.image.buffer()[..3], &[9, 8, 7]);
}

#[test]
fn resize_without_pixel_type_is_refused() {
    let d = DecodedImage { image: rgb_image(), color: Some(ImageColor::Rgb8), pixel_type: None };
    assert!(matches!(resize_to_thumbnail(&d), Err(ThumbnailError::PixelType)));
    assert_eq!(thumbnail_of(&d), Err(ThumbnailError::PixelType));
}

#[test]
fn thumbnail_of_unlisted_layout_is_refused() {
    let d = DecodedImage { image: rgb_image(), color: None, pixel_type: Some(fast_image_resize::PixelType::U8x3) };
    assert_eq!(thumbnail_of(&d), Err(ThumbnailError::Color));
}

#[test]
fn thumbnail_of_mismatched_pixel_type_fails_resize() {
    let d = DecodedImage { image: rgb_image(), color: Some(ImageColor::Rgb8), pixel_type: Some(fast_image_resize::PixelType::U8) };
    assert_eq!(thumbnail_of(&d), Err(ThumbnailError::Resize));
}

#[test]
fn thumbnail_of_encodes_in_decoded_layout() {
    let png = thumbnail_of(&describe_image(rgb_image())).unwrap();
    let back = image::load_from_memory(&png).unwrap();
    assert_eq!(back.color(), image::ColorType::Rgb8);
    assert_eq!((back.width(), back.height()), (480, 360));
}
