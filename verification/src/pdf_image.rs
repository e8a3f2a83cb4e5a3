//! The image a PDF wrapper embeds: a JPEG file as it is, any other image
//! decoded to 8-bit RGB and compressed with zlib.

use vstd::prelude::*;
use image::GenericImageView;
use std::io::Write;
use crate::text::{chars_of, concat, string_of};

verus! {

/// What `image::load_from_memory` gives for the bytes: the decoded image's
/// width, height and 8-bit RGB pixels (`to_rgb8`), or the text of the error.
pub uninterp spec fn decoded_image(bytes: Seq<u8>) -> Result<(u32, u32, Seq<u8>), Seq<char>>;

/// What a zlib encoder at the best compression level gives for the bytes:
/// the compressed bytes, or the text of its error.
pub uninterp spec fn zlib_best(data: Seq<u8>) -> Result<Seq<u8>, Seq<char>>;

/// An image decoded to 8-bit RGB.
pub struct DecodedImage {
    pub width: u32,
    pub height: u32,
    pub rgb8: Vec<u8>,
}

/// `image::load_from_memory`, then the image's dimensions and its 8-bit
/// RGB pixels; an error as its text.  The result is named by `decoded_image`.
#[verifier::external_body]
fn decode_image(bytes: &[u8]) -> (res: Result<DecodedImage, String>)
    ensures
        match res {
            Ok(d) => decoded_image(bytes@) == Ok::<(u32, u32, Seq<u8>), Seq<char>>(
                (d.width, d.height, d.rgb8@),
            ),
            Err(e) => decoded_image(bytes@) == Err::<(u32, u32, Seq<u8>), Seq<char>>(e@),
        },
{
    match image::load_from_memory(bytes) {
        Ok(img) => {
            let (width, height) = img.dimensions();
            Ok(DecodedImage { width, height, rgb8: img.to_rgb8().into_raw() })
        },
        Err(e) => Err(e.to_string()),
    }
}

/// `flate2::write::ZlibEncoder` at `Compression::best()` writing into a
/// vector, then `finish`: the compressed bytes, or the text of the encoder's
/// error.  The outcome is named by `zlib_best`.
#[verifier::external_body]
fn zlib_compress(data: &[u8]) -> (res: Result<Vec<u8>, String>)
    ensures
        match res {
            Ok(v) => zlib_best(data@) == Ok::<Seq<u8>, Seq<char>>(v@),
            Err(e) => zlib_best(data@) == Err::<Seq<u8>, Seq<char>>(e@),
        },
{
    let mut enc = flate2::write::ZlibEncoder::new(Vec::new(), flate2::Compression::best());
    match enc.write_all(data) {
        Ok(()) => {},
        Err(e) => {
            return Err(e.to_string());
        },
    }
    enc.finish().map_err(|e| e.to_string())
}

/// The image stream of a PDF wrapper.
pub struct PdfImage {
    /// The stream's bytes.
    pub data: Vec<u8>,
    /// `true` for a zlib stream (FlateDecode), `false` for a JPEG one (DCTDecode).
    pub flate: bool,
    pub width: u32,
    pub height: u32,
}

/// The image stream for an image file's bytes: a JPEG is embedded as it
/// is, any other image as its RGB pixels compressed with zlib; the
/// dimensions are those of the decoded image.  An image that does not
/// decode is an error naming the decoder's error; a failed compression is
/// an error naming the encoder's error.
pub fn pdf_image(bytes: Vec<u8>, is_jpeg: bool) -> (res: Result<PdfImage, String>)
    ensures
        match decoded_image(bytes@) {
            Err(e) => res matches Err(m) && m@ == "Failed to decode image: "@ + e,
            Ok((w, h, px)) => if is_jpeg {
                res matches Ok(img) && img.data@ == bytes@ && !img.flate && img.width == w
                    && img.height == h
            } else {
                match zlib_best(px) {
                    Ok(c) => res matches Ok(img) && img.data@ == c && img.flate && img.width == w
                        && img.height == h,
                    Err(e) => res matches Err(m) && m@ == "Compression error: "@ + e,
                }
            },
        },
{
    let d = match decode_image(bytes.as_slice()) {
        Ok(d) => d,
        Err(e) => {
            let head = chars_of("Failed to decode image: ");
            let ec = chars_of(e.as_str());
            let m = concat(&head, &ec);
            return Err(string_of(&m));
        },
    };
    if is_jpeg {
        Ok(PdfImage { data: bytes, flate: false, width: d.width, height: d.height })
    } else {
        match zlib_compress(d.rgb8.as_slice()) {
            Ok(c) => Ok(PdfImage { data: c, flate: true, width: d.width, height: d.height }),
            Err(e) => {
                let head = chars_of("Compression error: ");
                let ec = chars_of(e.as_str());
                let m = concat(&head, &ec);
                Err(string_of(&m))
            },
        }
    }
}

} // verus!
