//! Turning a raw RGB frame into a JPEG payload and a data URL.

use vstd::prelude::*;
use crate::error::InspectionError;
use crate::text::{owned, push_text};

verus! {

#[verifier::external_type_specification]
#[verifier::external_body]
pub struct ExImageError(image::ImageError);

/// The JPEG file that the `image` crate writes for an interleaved RGB buffer
/// of the given width and height, both at least 1, or `None` where its
/// encoder reports an error.
pub uninterp spec fn jpeg_encoding(width: u32, height: u32, rgb: Seq<u8>) -> Option<Seq<u8>>;

/// The text that the `base64` crate gives for `bytes` with its standard
/// alphabet and padding.
pub uninterp spec fn base64_standard(bytes: Seq<u8>) -> Seq<char>;

/// Calls `image::RgbImage::from_raw` and `image::DynamicImage::write_to`
/// with the JPEG format, writing into memory. `from_raw` computes three
/// times the width times the height in the machine word, in that order, and
/// gives nothing where that overflows or exceeds the length of the buffer;
/// the encoder stops the program on a buffer that is longer than that. So a
/// frame of at least one pixel with exactly three bytes per pixel is
/// required: three times the width then fits whatever the word size, and the
/// result is never `None`. The contract names the encoder's output and says
/// nothing else of it.
#[verifier::external_body]
pub(crate) fn jpeg_from_rgb(width: u32, height: u32, rgb: Vec<u8>) -> (r: Option<
    Result<Vec<u8>, image::ImageError>,
>)
    requires
        width >= 1,
        height >= 1,
        rgb.len() == 3 * width * height,
    ensures
        r is Some,
        match r {
            Some(Ok(bytes)) => jpeg_encoding(width, height, rgb@) == Some(bytes@),
            _ => jpeg_encoding(width, height, rgb@) is None,
        },
{
    let picture = image::DynamicImage::ImageRgb8(image::RgbImage::from_raw(width, height, rgb)?);
    let mut bytes: Vec<u8> = Vec::new();
    let written = picture.write_to(&mut std::io::Cursor::new(&mut bytes), image::ImageFormat::Jpeg);
    Some(written.map(|_| bytes))
}

/// Calls `encode` of `base64::engine::general_purpose::STANDARD`, which
/// allocates the whole text at once and stops the program where its length
/// cannot be allocated, that is above the largest signed machine word; such
/// inputs are left out. The text has four characters for every three bytes
/// begun, as the crate's `encoded_len` computes it.
#[verifier::external_body]
pub(crate) fn base64_text(bytes: &Vec<u8>) -> (text: String)
    requires
        bytes.len() / 3 * 4 + 4 <= isize::MAX,
    ensures
        text@ == base64_standard(bytes@),
        text@.len() == (bytes.len() + 2) / 3 * 4,
{
    base64::Engine::encode(&base64::engine::general_purpose::STANDARD, bytes)
}

/// An encoded still image.
#[derive(Debug, Clone, PartialEq, Eq)]
pub struct CapturedImage {
    /// The JPEG file.
    pub bytes: Vec<u8>,
    pub width: u32,
    pub height: u32,
    /// The number of bytes of the JPEG file.
    pub size: usize,
}

impl CapturedImage {
    /// The recorded size is the length of the payload.
    pub open spec fn wf(&self) -> bool {
        self.size == self.bytes.len()
    }
}

/// Whether a buffer of `len` bytes holds exactly three bytes for each pixel
/// of a `width` by `height` image.
pub open spec fn is_rgb_frame(width: u32, height: u32, len: int) -> bool {
    len == 3 * width * height
}

/// Whether a buffer of `len` bytes holds exactly three bytes for each pixel.
pub fn frame_fits(width: u32, height: u32, len: usize) -> (b: bool)
    ensures
        b == is_rgb_frame(width, height, len as int),
{
    assert(0 <= (width as int) * (height as int) <= 0xffff_ffff * 0xffff_ffff) by (nonlinear_arith)
        requires
            0 <= width <= 0xffff_ffff,
            0 <= height <= 0xffff_ffff,
    ;
    assert(3 * width * height == 3 * ((width as int) * (height as int))) by (nonlinear_arith);
    let pixels: u64 = (width as u64) * (height as u64);
    let needed: u128 = 3 * (pixels as u128);
    (len as u128) == needed
}

/// What the encoder's answer means for the acquisition: no answer is a
/// frame that is no RGB image, an error is a failed encoding.
pub fn captured_from<E>(width: u32, height: u32, encoded: Option<Result<Vec<u8>, E>>) -> (r:
    Result<CapturedImage, InspectionError>)
    ensures
        match encoded {
            None => r == Err::<CapturedImage, InspectionError>(InspectionError::DecodeFailed),
            Some(Err(_)) => r == Err::<CapturedImage, InspectionError>(
                InspectionError::EncodeFailed,
            ),
            Some(Ok(bytes)) => r matches Ok(image) && image.bytes == bytes && image.width
                == width && image.height == height && image.wf(),
        },
{
    match encoded {
        None => Err(InspectionError::DecodeFailed),
        Some(Err(_)) => Err(InspectionError::EncodeFailed),
        Some(Ok(bytes)) => {
            let size = bytes.len();
            Ok(CapturedImage { bytes, width, height, size })
        },
    }
}

/// Whether a frame of this width and height has at least one pixel.
pub open spec fn has_pixels(width: u32, height: u32) -> bool {
    width >= 1 && height >= 1
}

/// Encodes a raw frame as JPEG. A buffer that does not hold three bytes for
/// each pixel is no frame of that size and gives `DecodeFailed`. A frame
/// without a pixel cannot be encoded and gives `EncodeFailed` without the
/// encoder being asked; so does an error of the encoder.
pub fn encode_frame(width: u32, height: u32, rgb: Vec<u8>) -> (r: Result<
    CapturedImage,
    InspectionError,
>)
    ensures
        match r {
            Ok(image) => is_rgb_frame(width, height, rgb.len() as int) && has_pixels(width, height)
                && jpeg_encoding(width, height, rgb@) == Some(image.bytes@) && image.width
                == width && image.height == height && image.wf(),
            Err(e) => if !is_rgb_frame(width, height, rgb.len() as int) {
                e == InspectionError::DecodeFailed
            } else if !has_pixels(width, height) {
                e == InspectionError::EncodeFailed
            } else {
                e == InspectionError::EncodeFailed && jpeg_encoding(width, height, rgb@) is None
            },
        },
{
    if !frame_fits(width, height, rgb.len()) {
        return Err(InspectionError::DecodeFailed);
    }
    if width == 0 || height == 0 {
        return Err(InspectionError::EncodeFailed);
    }
    let encoded = jpeg_from_rgb(width, height, rgb);
    captured_from(width, height, encoded)
}

/// The prefix of a data URL that carries a JPEG file.
pub open spec fn data_url_prefix() -> Seq<char> {
    "data:image/jpeg;base64,"@
}

/// The data URL made of an encoded text.
pub fn data_url_of(encoded: &str) -> (url: String)
    ensures
        url@ == data_url_prefix() + encoded@,
{
    let mut url = owned("data:image/jpeg;base64,");
    push_text(&mut url, encoded);
    url
}

/// Whether the base64 text of `len` bytes can be held: its length, four
/// characters for every three bytes begun, is at most the largest signed
/// machine word.
pub open spec fn base64_fits(len: int) -> bool {
    len / 3 * 4 + 4 <= isize::MAX
}

/// The data URL of a JPEG payload, or `EncodeFailed` where the payload is
/// too long for its text to be held.
pub fn data_url(jpeg: &Vec<u8>) -> (r: Result<String, InspectionError>)
    ensures
        match r {
            Ok(url) => base64_fits(jpeg.len() as int) && url@ == data_url_prefix()
                + base64_standard(jpeg@),
            Err(e) => e == InspectionError::EncodeFailed && !base64_fits(jpeg.len() as int),
        },
{
    if jpeg.len() / 3 > (isize::MAX as usize - 4) / 4 {
        return Err(InspectionError::EncodeFailed);
    }
    let text = base64_text(jpeg);
    Ok(data_url_of(text.as_str()))
}

} // verus!
