//! Images attached inline: the content-type check, the flattening of
//! transparency onto white, and the JPEG recompression of images too large
//! to attach; plus the texts of failed HTTP requests.
use vstd::prelude::*;
use crate::booru::{ImageResult, InlineImageResult, INLINE_IMAGE_MAX_BYTES};
use crate::images::{infer_filename, infer_filename_spec};
use crate::num::{dec, u64_to_string};
use crate::text::{cat2, cat3, cat4, cat5, chars_of, copy_string, has_prefix, string_of, str_eq};

verus! {

// ---------------------------------------------------------------------------
// Flattening
// ---------------------------------------------------------------------------

/// A color channel blended onto white with the given opacity.
pub open spec fn blend_spec(channel: u8, alpha: u8) -> u8 {
    ((channel * alpha + 255 * (255 - alpha)) / 255) as u8
}

pub fn blend(channel: u8, alpha: u8) -> (r: u8)
    ensures
        r == blend_spec(channel, alpha),
{
    let c = channel as u32;
    let a = alpha as u32;
    assert(c * a <= 255 * 255) by (nonlinear_arith)
        requires
            c <= 255,
            a <= 255,
    ;
    assert((c * a + 255 * (255 - a)) / 255 <= 255) by (nonlinear_arith)
        requires
            c <= 255,
            a <= 255,
    ;
    ((c * a + 255 * (255 - a)) / 255) as u8
}

/// An RGBA pixel flattened onto white: each color channel blended by the alpha.
pub fn flatten_pixel(pixel: [u8; 4]) -> (r: [u8; 3])
    ensures
        r@ == seq![
            blend_spec(pixel@[0], pixel@[3]),
            blend_spec(pixel@[1], pixel@[3]),
            blend_spec(pixel@[2], pixel@[3]),
        ],
{
    let r = [blend(pixel[0], pixel[3]), blend(pixel[1], pixel[3]), blend(pixel[2], pixel[3])];
    assert(r@ =~= seq![
        blend_spec(pixel@[0], pixel@[3]),
        blend_spec(pixel@[1], pixel@[3]),
        blend_spec(pixel@[2], pixel@[3]),
    ]);
    r
}

/// RGBA bytes flattened to RGB bytes, pixel by pixel.
pub open spec fn flatten_spec(rgba: Seq<u8>) -> Seq<u8> {
    Seq::new(
        (rgba.len() / 4 * 3) as nat,
        |i: int| blend_spec(rgba[(i / 3) * 4 + i % 3], rgba[(i / 3) * 4 + 3]),
    )
}

pub fn flatten_for_jpeg(rgba: &Vec<u8>) -> (r: Vec<u8>)
    requires
        rgba@.len() % 4 == 0,
    ensures
        r@ == flatten_spec(rgba@),
{
    let len = rgba.len();
    let n = len / 4;
    let mut out: Vec<u8> = Vec::new();
    let mut p: usize = 0;
    while p < n
        invariant
            n == rgba@.len() / 4,
            len == rgba@.len(),
            rgba@.len() % 4 == 0,
            p <= n,
            out@ == flatten_spec(rgba@).take(3 * p),
        decreases n - p,
    {
        assert(4 * p + 4 <= len) by (nonlinear_arith)
            requires
                p < n,
                n == len / 4,
                len % 4 == 0,
        ;
        let base = 4 * p;
        let px = flatten_pixel([rgba[base], rgba[base + 1], rgba[base + 2], rgba[base + 3]]);
        out.push(px[0]);
        out.push(px[1]);
        out.push(px[2]);
        assert(((3 * p) as int) / 3 == p && ((3 * p + 1) as int) / 3 == p && ((3 * p + 2) as int) / 3 == p);
        assert(((3 * p) as int) % 3 == 0 && ((3 * p + 1) as int) % 3 == 1 && ((3 * p + 2) as int) % 3 == 2);
        assert(out@ =~= flatten_spec(rgba@).take(3 * p + 3));
        p = p + 1;
    }
    assert(flatten_spec(rgba@).take(3 * n) =~= flatten_spec(rgba@));
    out
}

// ---------------------------------------------------------------------------
// JPEG recompression
// ---------------------------------------------------------------------------

/// What the `image` crate decodes from bytes: width, height and RGBA bytes.
pub uninterp spec fn decoded_rgba(bytes: Seq<u8>) -> Option<(u32, u32, Seq<u8>)>;

/// What the `image` crate's JPEG encoder writes for RGB bytes at a quality.
pub uninterp spec fn jpeg_bytes(width: u32, height: u32, rgb: Seq<u8>, quality: u8) -> Option<Seq<u8>>;

/// `image::load_from_memory` then `to_rgba8`: the decoded image's width,
/// height and RGBA bytes (four per pixel); `None` when it does not decode.
#[verifier::external_body]
fn decode_rgba(bytes: &Vec<u8>) -> (r: Option<(u32, u32, Vec<u8>)>)
    ensures
        match r {
            Some((w, h, px)) => decoded_rgba(bytes@) == Some((w, h, px@)) && px@.len() == w * h * 4,
            None => decoded_rgba(bytes@) is None,
        },
{
    match image::load_from_memory(bytes.as_slice()) {
        Ok(img) => {
            let rgba = img.to_rgba8();
            let (w, h) = rgba.dimensions();
            Some((w, h, rgba.into_raw()))
        },
        Err(_) => None,
    }
}

/// `image::codecs::jpeg::JpegEncoder::new_with_quality(..).encode(..)` of
/// RGB bytes (three per pixel); `None` when encoding fails.
#[verifier::external_body]
fn encode_jpeg(width: u32, height: u32, rgb: &Vec<u8>, quality: u8) -> (r: Option<Vec<u8>>)
    requires
        rgb@.len() == width * height * 3,
    ensures
        match r {
            Some(b) => jpeg_bytes(width, height, rgb@, quality) == Some(b@),
            None => jpeg_bytes(width, height, rgb@, quality) is None,
        },
{
    let mut out = Vec::new();
    let mut encoder = image::codecs::jpeg::JpegEncoder::new_with_quality(&mut out, quality);
    match encoder.encode(rgb.as_slice(), width, height, image::ExtendedColorType::Rgb8) {
        Ok(()) => Some(out),
        Err(_) => None,
    }
}

/// The qualities tried, best first.
pub open spec fn qualities() -> Seq<u8> {
    seq![90u8, 80u8, 70u8, 60u8, 50u8, 40u8, 30u8, 20u8]
}

/// The result of trying the qualities from the `k`-th on: the first encoding
/// that fits, else the last one; an error when one fails.
pub open spec fn try_qualities(w: u32, h: u32, rgb: Seq<u8>, k: int, last: Seq<u8>) -> Result<Seq<u8>, Seq<char>>
    decreases 8 - k,
{
    if k < 0 || k >= 8 {
        Ok(last)
    } else {
        match jpeg_bytes(w, h, rgb, qualities()[k]) {
            None => Err("failed to encode JPEG image"@),
            Some(b) => if b.len() <= INLINE_IMAGE_MAX_BYTES {
                Ok(b)
            } else {
                try_qualities(w, h, rgb, k + 1, b)
            },
        }
    }
}

pub open spec fn compress_spec(bytes: Seq<u8>) -> Result<Seq<u8>, Seq<char>> {
    match decoded_rgba(bytes) {
        None => Err("failed to decode oversized image for JPEG compression"@),
        Some((w, h, px)) => try_qualities(w, h, flatten_spec(px), 0, Seq::empty()),
    }
}

/// Recompresses an image as JPEG, transparency flattened onto white: the
/// best quality that fits the attachment limit, else the lowest tried.
pub fn compress_to_jpeg(bytes: &Vec<u8>) -> (r: Result<Vec<u8>, String>)
    ensures
        match r {
            Ok(b) => compress_spec(bytes@) == Ok::<Seq<u8>, Seq<char>>(b@),
            Err(e) => compress_spec(bytes@) == Err::<Seq<u8>, Seq<char>>(e@),
        },
{
    let (w, h, px) = match decode_rgba(bytes) {
        Some(d) => d,
        None => return Err(String::from_str("failed to decode oversized image for JPEG compression")),
    };
    assert((w * h * 4) % 4 == 0) by (nonlinear_arith);
    let rgb = flatten_for_jpeg(&px);
    assert(px@.len() / 4 * 3 == w * h * 3) by (nonlinear_arith)
        requires
            px@.len() == w * h * 4,
    ;
    let qs: [u8; 8] = [90, 80, 70, 60, 50, 40, 30, 20];
    assert(qs@ =~= qualities());
    let mut last: Vec<u8> = Vec::new();
    assert(compress_spec(bytes@) == try_qualities(w, h, rgb@, 0, last@));
    let mut k: usize = 0;
    while k < 8
        invariant
            k <= 8,
            qs@ == qualities(),
            rgb@.len() == w * h * 3,
            compress_spec(bytes@) == try_qualities(w, h, rgb@, k as int, last@),
        decreases 8 - k,
    {
        assert(qs@[k as int] == qualities()[k as int]);
        let encoded = match encode_jpeg(w, h, &rgb, qs[k]) {
            Some(b) => b,
            None => return Err(String::from_str("failed to encode JPEG image")),
        };
        if encoded.len() <= INLINE_IMAGE_MAX_BYTES {
            return Ok(encoded);
        }
        last = encoded;
        k = k + 1;
    }
    Ok(last)
}

// ---------------------------------------------------------------------------
// Inline attachments
// ---------------------------------------------------------------------------

/// The content type of a response, `<missing>` when it has none.
pub open spec fn content_type_ok(content_type: Seq<char>) -> bool {
    content_type == "<missing>"@ || crate::text::has_prefix(content_type, "image/"@)
        || crate::text::has_prefix(content_type, "application/octet-stream"@)
}

/// Refuses an image answer whose content type is neither an image nor
/// octet-stream (a missing one passes).
pub fn check_image_content_type(booru_name: &str, content_type: &str) -> (r: Result<(), String>)
    ensures
        match r {
            Ok(()) => content_type_ok(content_type@),
            Err(e) => !content_type_ok(content_type@) && e@ == "image request for "@ + booru_name@
                + " returned non-image content-type="@ + content_type@,
        },
{
    let v = chars_of(content_type);
    let ok = str_eq(content_type, "<missing>") || crate::text::starts_with(&v, &chars_of("image/"))
        || crate::text::starts_with(&v, &chars_of("application/octet-stream"));
    if ok {
        Ok(())
    } else {
        Err(cat4("image request for ", booru_name, " returned non-image content-type=", content_type))
    }
}

/// The attachment for a downloaded image: as it is when it fits the limit
/// (`compressed_ms` none), else the recompressed data with the time it took.
pub fn inline_image_result(url: &str, content_type: &str, data: Vec<u8>, compressed_ms: Option<u64>) -> (r:
    InlineImageResult)
    ensures
        r.filename@ == infer_filename_spec(url@, content_type@, compressed_ms is Some),
        r.data@ == data@,
        r.compressed == compressed_ms is Some,
        crate::outside::opt_string_view(r.compression_time) == match compressed_ms {
            Some(ms) => Some(dec(ms as nat) + "ms"@),
            None => None,
        },
{
    let compressed = compressed_ms.is_some();
    InlineImageResult {
        filename: infer_filename(url, content_type, compressed),
        data,
        compressed,
        compression_time: match compressed_ms {
            Some(ms) => Some(cat2(u64_to_string(ms).as_str(), "ms")),
            None => None,
        },
    }
}

/// Whether a downloaded image is attached as it is.
pub fn fits_inline(len: usize) -> (r: bool)
    ensures
        r == (len <= INLINE_IMAGE_MAX_BYTES),
{
    len <= INLINE_IMAGE_MAX_BYTES
}

// ---------------------------------------------------------------------------
// Failed requests
// ---------------------------------------------------------------------------

/// The first 500 characters of a response body.
pub open spec fn body_excerpt(body: Seq<char>) -> Seq<char> {
    if body.len() <= 500 {
        body
    } else {
        body.take(500)
    }
}

fn excerpt(body: &str) -> (r: String)
    ensures
        r@ == body_excerpt(body@),
{
    let v = chars_of(body);
    if v.len() <= 500 {
        copy_string(body)
    } else {
        let t = crate::text::subvec(&v, 0, 500);
        assert(v@.subrange(0, 500) =~= v@.take(500));
        string_of(&t)
    }
}

/// `{kind} request failed for {booru} with HTTP {status} content-type={type}: {body}`.
pub fn http_failure(kind: &str, booru_name: &str, status: &str, content_type: &str, body: &str) -> (r: String)
    ensures
        r@ == kind@ + " request failed for "@ + booru_name@ + " with HTTP "@ + status@ + " content-type="@
            + content_type@ + ": "@ + body_excerpt(body@),
{
    let a = cat5(kind, " request failed for ", booru_name, " with HTTP ", status);
    cat4(a.as_str(), " content-type=", content_type, cat2(": ", excerpt(body).as_str()).as_str())
}

/// Whether a response holds JSON by its content type.
pub fn is_json_content(content_type: &str) -> (r: bool)
    ensures
        r == crate::text::find_sub(content_type@, "application/json"@) is Some,
{
    let v = chars_of(content_type);
    let p = chars_of("application/json");
    crate::text::find_text(&v, &p).is_some()
}

/// `{kind} request for {booru} returned non-JSON content-type={type}: {body}`.
pub fn non_json_failure(kind: &str, booru_name: &str, content_type: &str, body: &str) -> (r: String)
    ensures
        r@ == kind@ + " request for "@ + booru_name@ + " returned non-JSON content-type="@ + content_type@
            + ": "@ + body_excerpt(body@),
{
    let a = cat5(kind, " request for ", booru_name, " returned non-JSON content-type=", content_type);
    cat3(a.as_str(), ": ", excerpt(body).as_str())
}

/// `{what} {kind} ... from {booru}`: the context of a request that failed.
pub fn request_context(what: &str, kind: &str, middle: &str, booru_name: &str) -> (r: String)
    ensures
        r@ == what@ + " "@ + kind@ + middle@ + booru_name@,
{
    cat3(cat3(what, " ", kind).as_str(), middle, booru_name)
}

} // verus!
