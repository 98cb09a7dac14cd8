use media_service::asset_processing::process_fetched;
use media_service::asset_processing::task_queue_capacity;
use media_service::asset_processing::ResultsBuffer;
use media_service::asset_processing::SEND_BACK_BUFFER_SIZE;
use media_service::configs::AssetProcessorCfg;
use media_service::configs::DasCfg;
use media_service::das_client::DlOutcome;
use media_service::das_client::UrlDlResult;
use media_service::download::DlError;
use media_service::media_type::Mime;
use media_service::string_util::keccak256_hash_bs58str;

fn asset_cfg() -> AssetProcessorCfg {
    AssetProcessorCfg { resize_to: 400, file_max_size_bytes: 10_000_000 }
}

fn png_bytes(w: u32, h: u32) -> Vec<u8> {
    let img = image::DynamicImage::ImageRgb8(image::RgbImage::from_pixel(w, h, image::Rgb([
        10, 120, 200,
    ])));
    let mut out = std::io::Cursor::new(Vec::new());
    img.write_to(&mut out, image::ImageFormat::Png).unwrap();
    out.into_inner()
}

fn webp_bytes(w: u32, h: u32) -> Vec<u8> {
    let img = image::DynamicImage::ImageRgb8(image::RgbImage::from_pixel(w, h, image::Rgb([
        10, 120, 200,
    ])));
    let mut out = std::io::Cursor::new(Vec::new());
    img.write_to(&mut out, image::ImageFormat::WebP).unwrap();
    out.into_inner()
}

#[test]
fn happy_image_is_stored_resized_under_the_derived_key() {
    let url = "https://x/cat.png";
    let body = png_bytes(600, 400);
    let act = process_fetched(
        url.to_string(),
        Ok((body, Mime::from_mime_str("image/png"))),
        &asset_cfg(),
    );
    let op = act.store.expect("a 600x400 image must be stored");
    let expected_key = format!("media/{}", keccak256_hash_bs58str(url));
    assert_eq!(op.key, expected_key);
    assert_eq!(op.content_type, "image/png");
    assert_eq!(image::guess_format(&op.bytes).unwrap(), image::ImageFormat::WebP);
    let stored = image::load_from_memory(&op.bytes).unwrap();
    assert_eq!(stored.width().max(stored.height()), 400);
    assert_eq!(act.result.url, url);
    assert_eq!(
        act.result.outcome,
        DlOutcome::Success { mime: "image/png".to_string(), size: 400 }
    );
}

#[test]
fn failed_fetch_stores_nothing_and_echoes_the_error() {
    let act = process_fetched(
        "https://x/big.bin".to_string(),
        Err(DlError::FileTooLarge(999_999_999)),
        &asset_cfg(),
    );
    assert!(act.store.is_none());
    assert_eq!(act.result.url, "https://x/big.bin");
    assert_eq!(act.result.outcome, DlOutcome::Fail { err: DlError::FileTooLarge(999_999_999) });
}

#[test]
fn non_image_is_unsupported_and_never_written() {
    let act = process_fetched(
        "https://x/doc.pdf".to_string(),
        Ok((b"%PDF-1.4 ...".to_vec(), Mime::from_mime_str("application/pdf"))),
        &asset_cfg(),
    );
    assert!(act.store.is_none());
    assert_eq!(
        act.result.outcome,
        DlOutcome::Fail { err: DlError::UnsupportedFormat("application/pdf".to_string()) }
    );
}

#[test]
fn undecodable_image_bytes_are_corrupted_asset() {
    let act = process_fetched(
        "https://x/noise.png".to_string(),
        Ok((vec![1, 2, 3, 4, 5], Mime::from_mime_str("image/png"))),
        &asset_cfg(),
    );
    assert!(act.store.is_none());
    match act.result.outcome {
        DlOutcome::Fail { err: DlError::CorruptedAsset(msg) } => {
            assert_eq!(msg, "Cannot determine image format");
        },
        other => panic!("expected a corrupted-asset failure, got {:?}", other),
    }
}

#[test]
fn small_webp_is_stored_byte_for_byte() {
    let body = webp_bytes(120, 80);
    let act = process_fetched(
        "https://x/small.webp".to_string(),
        Ok((body.clone(), Mime::from_mime_str("image/webp"))),
        &asset_cfg(),
    );
    let op = act.store.expect("a small webp must be stored");
    assert_eq!(op.bytes, body);
    assert_eq!(op.content_type, "image/webp");
    assert_eq!(
        act.result.outcome,
        DlOutcome::Success { mime: "image/webp".to_string(), size: 400 }
    );
}

#[test]
fn queue_capacity_is_workers_times_batch() {
    let cfg = DasCfg {
        enabled: true,
        grpc_address: "http://localhost:50051".to_string(),
        fetch_batch_size: 10,
        number_of_workers: 16,
    };
    assert_eq!(task_queue_capacity(&cfg), 160);
}

fn result_for(url: &str) -> UrlDlResult {
    UrlDlResult { url: url.to_string(), outcome: DlOutcome::Fail { err: DlError::ServerError } }
}

#[test]
fn reporter_flushes_exactly_at_the_buffer_size() {
    let mut buffer = ResultsBuffer::new();
    for i in 0..SEND_BACK_BUFFER_SIZE - 1 {
        let flushed = buffer.push(result_for(&format!("https://x/{}", i)));
        assert!(flushed.is_none());
    }
    let batch = buffer.push(result_for("https://x/last")).expect("the hundredth push flushes");
    assert_eq!(batch.len(), SEND_BACK_BUFFER_SIZE);
    assert_eq!(batch[0].url, "https://x/0");
    assert_eq!(batch[SEND_BACK_BUFFER_SIZE - 1].url, "https://x/last");
    assert!(buffer.close().is_none());
}

#[test]
fn reporter_close_hands_out_the_remainder_in_order() {
    // Three upstream 503 failures: three reports are buffered and the final
    // flush delivers them in insertion order.
    let mut buffer = ResultsBuffer::new();
    assert!(buffer.push(result_for("https://x/1")).is_none());
    assert!(buffer.push(result_for("https://x/2")).is_none());
    assert!(buffer.push(result_for("https://x/3")).is_none());
    let rest = buffer.close().expect("a non-empty buffer flushes on close");
    assert_eq!(rest.len(), 3);
    assert_eq!(rest[0].url, "https://x/1");
    assert_eq!(rest[1].url, "https://x/2");
    assert_eq!(rest[2].url, "https://x/3");
    for r in rest {
        assert_eq!(r.outcome, DlOutcome::Fail { err: DlError::ServerError });
    }
}

#[test]
fn empty_reporter_close_sends_nothing() {
    let buffer = ResultsBuffer::new();
    assert!(buffer.close().is_none());
}
