//! The window icon: RGBA pixels decoded from an image file's bytes.

use vstd::prelude::*;

verus! {

/// What `image::load_from_memory` decodes from `bytes`, taken as 8-bit
/// RGBA pixels with the width and height: `None` where decoding fails or
/// gives another pixel format.
pub uninterp spec fn decoded_rgba8(bytes: Seq<u8>) -> Option<(Seq<u8>, u32, u32)>;

/// Decodes image bytes by `image::load_from_memory`, which guesses the
/// format and reports malformed input as an error; keeps the image only
/// where it is 8-bit RGBA (`DynamicImage::as_rgba8`), with its raw pixels,
/// `width` and `height`. The result is named, not described.
#[verifier::external_body]
fn decode_rgba8(bytes: &[u8]) -> (r: Option<(Vec<u8>, u32, u32)>)
    ensures
        match r {
            Some((px, w, h)) => decoded_rgba8(bytes@) == Some((px@, w, h)),
            None => decoded_rgba8(bytes@) is None,
        },
{
    match image::load_from_memory(bytes) {
        Ok(img) => img.as_rgba8().map(|b| (b.as_raw().clone(), img.width(), img.height())),
        Err(_) => None,
    }
}

/// An icon's RGBA pixels, row by row, and its size.
pub struct IconPixels {
    pub rgba: Vec<u8>,
    pub width: u32,
    pub height: u32,
}

/// The icon in an image file's bytes, if they decode to 8-bit RGBA pixels.
pub fn load_icon(bytes: &[u8]) -> (icon: Option<IconPixels>)
    ensures
        match icon {
            Some(i) => decoded_rgba8(bytes@) == Some((i.rgba@, i.width, i.height)),
            None => decoded_rgba8(bytes@) is None,
        },
{
    match decode_rgba8(bytes) {
        Some((rgba, width, height)) => Some(IconPixels { rgba, width, height }),
        None => None,
    }
}

} // verus!
