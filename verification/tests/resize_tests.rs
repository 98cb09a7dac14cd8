use media_service::http_endpoints::parse_size_param;
use media_service::http_endpoints::preview_decision;
use media_service::http_endpoints::render_resized;
use media_service::http_endpoints::PreviewDecision;
use media_service::image_resize::resize_fast;
use media_service::image_resize::ImgResizeError;
use media_service::obj_storage_client::StoredData;

fn raster(w: u32, h: u32) -> image::DynamicImage {
    image::DynamicImage::ImageRgb8(image::RgbImage::from_pixel(w, h, image::Rgb([10, 120, 200])))
}

fn encoded(w: u32, h: u32, format: image::ImageFormat) -> Vec<u8> {
    let mut out = std::io::Cursor::new(Vec::new());
    raster(w, h).write_to(&mut out, format).unwrap();
    out.into_inner()
}

#[test]
fn test_no_need_to_resize() {
    let bytes = encoded(100, 80, image::ImageFormat::WebP);
    let result = resize_fast(&bytes, 400);

    match result {
        Err(ImgResizeError::NoResizeNeeded) => (),
        _ => panic!("Expected: {}", ImgResizeError::NoResizeNeeded.message()),
    }
}

#[test]
fn test_no_resize_just_recompression_to_webp() {
    let bytes = encoded(100, 80, image::ImageFormat::Png);
    let result = resize_fast(&bytes, 400).unwrap();

    let new_format = image::guess_format(&result).unwrap();
    assert_eq!(new_format, image::ImageFormat::WebP);
    let img = image::load_from_memory(&result).unwrap();
    assert_eq!((img.width(), img.height()), (100, 80));
}

#[test]
fn wide_image_lands_on_the_edge_bound() {
    let bytes = encoded(600, 400, image::ImageFormat::Png);
    let result = resize_fast(&bytes, 400).unwrap();
    let img = image::load_from_memory(&result).unwrap();
    // 400 * 400 / 600, truncated.
    assert_eq!((img.width(), img.height()), (400, 266));
    assert_eq!(image::guess_format(&result).unwrap(), image::ImageFormat::WebP);
}

#[test]
fn tall_image_lands_on_the_edge_bound() {
    let bytes = encoded(200, 1000, image::ImageFormat::Png);
    let result = resize_fast(&bytes, 400).unwrap();
    let img = image::load_from_memory(&result).unwrap();
    // 400 * 200 / 1000, truncated.
    assert_eq!((img.width(), img.height()), (80, 400));
}

#[test]
fn undetectable_bytes_are_reported_as_such() {
    let bytes = vec![0u8, 1, 2, 3, 4, 5, 6, 7];
    assert_eq!(resize_fast(&bytes, 400), Err(ImgResizeError::FormatDeterminitionErr));
}

#[test]
fn resize_error_messages_are_stable() {
    assert_eq!(ImgResizeError::ResizeError.message(), "Resize error");
    assert_eq!(ImgResizeError::ImageWriteError.message(), "Image bytes write error");
    assert_eq!(ImgResizeError::IoError.message(), "IO Error");
    assert_eq!(ImgResizeError::FormatDeterminitionErr.message(), "Cannot determine image format");
    assert_eq!(ImgResizeError::NoResizeNeeded.message(), "No resize needed");
}

#[test]
fn size_param_is_validated_against_the_cap() {
    assert_eq!(parse_size_param(Some("200")), Some(200));
    assert_eq!(parse_size_param(Some("399")), Some(399));
    assert_eq!(parse_size_param(Some("400")), None);
    assert_eq!(parse_size_param(Some("10000")), None);
    assert_eq!(parse_size_param(Some("0")), None);
    assert_eq!(parse_size_param(Some("12a")), None);
    assert_eq!(parse_size_param(Some("")), None);
    assert_eq!(parse_size_param(Some("99999999999999999999")), None);
    assert_eq!(parse_size_param(None), None);
}

#[test]
fn preview_decision_covers_the_three_ways() {
    assert_eq!(preview_decision(false, Some(200)), PreviewDecision::NotFound);
    assert_eq!(preview_decision(false, None), PreviewDecision::NotFound);
    assert_eq!(preview_decision(true, None), PreviewDecision::StreamStored);
    assert_eq!(preview_decision(true, Some(200)), PreviewDecision::ResizeStored { size: 200 });
}

#[test]
fn oversized_size_request_streams_the_stored_bytes() {
    // `size=10000` is beyond the cap, so it counts as absent and the stored
    // bytes are streamed unchanged.
    let size = parse_size_param(Some("10000"));
    assert_eq!(preview_decision(true, size), PreviewDecision::StreamStored);
}

#[test]
fn on_the_fly_resize_halves_a_stored_preview() {
    let stored = StoredData {
        bytes: encoded(400, 300, image::ImageFormat::WebP),
        mime: "image/webp".to_string(),
    };
    let out = render_resized(stored, 200).expect("a stored preview must resize");
    assert_eq!(out.mime, "image/webp");
    assert_eq!(image::guess_format(&out.bytes).unwrap(), image::ImageFormat::WebP);
    let img = image::load_from_memory(&out.bytes).unwrap();
    // 200 * 300 / 400, truncated.
    assert_eq!((img.width(), img.height()), (200, 150));
}

#[test]
fn small_stored_webp_is_served_as_stored() {
    let bytes = encoded(100, 80, image::ImageFormat::WebP);
    let stored = StoredData { bytes: bytes.clone(), mime: "image/webp".to_string() };
    let out = render_resized(stored, 200).expect("a small webp is served as stored");
    assert_eq!(out.bytes, bytes);
    assert_eq!(out.mime, "image/webp");
}

#[test]
fn unreadable_stored_bytes_fail_the_resize() {
    let stored = StoredData { bytes: vec![9u8; 16], mime: "image/webp".to_string() };
    assert!(render_resized(stored, 200).is_none());
}
