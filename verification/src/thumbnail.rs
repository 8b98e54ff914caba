//! JPEG thumbnails of grayscale display images, encoded by the `image` crate.
use vstd::prelude::*;

use crate::text::concat2;
use image::ImageEncoder;

verus! {

/// The JPEG stream `image`'s `JpegEncoder` writes for an 8-bit grayscale
/// image of the given size and pixels at the given quality.
pub uninterp spec fn gray_jpeg_bytes(width: u32, height: u32, pixels: Seq<u8>, quality: u8) -> Seq<u8>;

/// The quality the thumbnails are encoded with.
pub const THUMBNAIL_JPEG_QUALITY: u8 = 85;

/// A size the JPEG encoder accepts: both sides between 1 and 65535.
pub open spec fn jpeg_size_ok(width: u32, height: u32) -> bool {
    1 <= width <= 65535 && 1 <= height <= 65535
}

/// `image::codecs::jpeg::JpegEncoder::new_with_quality(..).write_image(..)` with
/// `ExtendedColorType::L8`, writing into a `Vec<u8>`. Claimed: it fails exactly
/// when a side is 0 or above 65535 (the encoder's size check; writing into a
/// vector does not fail), and otherwise gives the named stream. The text of a
/// failure is the encoder error's `Display` text and is not stated.
#[verifier::external_body]
fn encode_gray_jpeg(width: u32, height: u32, pixels: &Vec<u8>, quality: u8) -> (r: Result<Vec<u8>, String>)
    requires
        pixels@.len() == width as int * height as int,
    ensures
        match r {
            Ok(bytes) => jpeg_size_ok(width, height) && bytes@ == gray_jpeg_bytes(width, height, pixels@, quality),
            Err(_) => !jpeg_size_ok(width, height),
        },
{
    let mut out: Vec<u8> = Vec::new();
    let mut cursor = std::io::Cursor::new(&mut out);
    let encoder = image::codecs::jpeg::JpegEncoder::new_with_quality(&mut cursor, quality);
    match encoder.write_image(pixels, width, height, image::ExtendedColorType::L8) {
        Ok(()) => Ok(out),
        Err(e) => Err(e.to_string()),
    }
}

/// JPEG encoding of a stretched grayscale thumbnail: refused when the pixels
/// do not fill the image, otherwise the encoder's stream or its failure.
/// More pixels than the image holds are not accepted: the whole buffer would
/// reach the encoder, whose buffer-length assertion then fails.
pub fn encode_thumbnail_jpeg(width: u32, height: u32, pixels: Vec<u8>) -> (r: Result<Vec<u8>, String>)
    requires
        pixels@.len() <= width as int * height as int,
    ensures
        match r {
            Ok(bytes) => pixels@.len() == width as int * height as int && jpeg_size_ok(width, height)
                && bytes@ == gray_jpeg_bytes(width, height, pixels@, THUMBNAIL_JPEG_QUALITY),
            Err(m) => if pixels@.len() < width as int * height as int {
                m@ == "Failed to create grayscale image"@
            } else {
                !jpeg_size_ok(width, height) && crate::text::has_prefix(m@, "JPEG encoding failed: "@)
            },
        },
{
    proof {
        assert((width as u64) * (height as u64) <= 0xffff_ffff_ffff_ffffu64) by (nonlinear_arith)
            requires
                width <= 0xffff_ffffu32,
                height <= 0xffff_ffffu32,
        ;
    }
    let needed = (width as u64) * (height as u64);
    if (pixels.len() as u64) < needed {
        return Err(String::from_str("Failed to create grayscale image"));
    }
    match encode_gray_jpeg(width, height, &pixels, THUMBNAIL_JPEG_QUALITY) {
        Ok(bytes) => Ok(bytes),
        Err(e) => {
            let m = concat2("JPEG encoding failed: ", e.as_str());
            proof {
                assert(m@.subrange(0, "JPEG encoding failed: "@.len() as int) =~= "JPEG encoding failed: "@);
            }
            Err(m)
        },
    }
}

} // verus!
