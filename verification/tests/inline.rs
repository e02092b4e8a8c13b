use randobooru::inline::{
    blend, check_image_content_type, compress_to_jpeg, flatten_for_jpeg, flatten_pixel, fits_inline,
    http_failure, inline_image_result, is_json_content, non_json_failure,
};

#[test]
fn flattens_transparency_onto_white() {
    assert_eq!(blend(0, 0), 255);
    assert_eq!(blend(10, 255), 10);
    assert_eq!(blend(0, 128), 127);
    assert_eq!(flatten_pixel([255, 0, 0, 255]), [255, 0, 0]);
    assert_eq!(flatten_for_jpeg(&vec![0, 0, 0, 0, 1, 2, 3, 255]), vec![255, 255, 255, 1, 2, 3]);
}

#[test]
fn checks_image_content_types() {
    assert_eq!(check_image_content_type("demo", "image/png"), Ok(()));
    assert_eq!(check_image_content_type("demo", "<missing>"), Ok(()));
    assert_eq!(
        check_image_content_type("demo", "text/html"),
        Err("image request for demo returned non-image content-type=text/html".to_string())
    );
    assert!(fits_inline(10));
    let r = inline_image_result("https://x/a/pic?x=1", "image/png", vec![1, 2], Some(12));
    assert_eq!(r.filename, "pic.jpg");
    assert!(r.compressed);
    assert_eq!(r.compression_time, Some("12ms".to_string()));
    let r = inline_image_result("https://x/a/pic", "image/png", vec![1], None);
    assert_eq!(r.filename, "pic.png");
    assert_eq!(r.compression_time, None);
}

#[test]
fn recompression_reports_undecodable_images() {
    assert_eq!(
        compress_to_jpeg(&vec![1, 2, 3]),
        Err("failed to decode oversized image for JPEG compression".to_string())
    );
}

#[test]
fn describes_failed_requests() {
    assert!(is_json_content("application/json; charset=utf-8"));
    assert!(!is_json_content("text/html"));
    assert_eq!(
        http_failure("posts", "demo", "404 Not Found", "text/html", "nope"),
        "posts request failed for demo with HTTP 404 Not Found content-type=text/html: nope"
    );
    assert_eq!(
        non_json_failure("count", "demo", "text/html", &"x".repeat(600)).len(),
        "count request for demo returned non-JSON content-type=text/html: ".len() + 500
    );
}
