//! Decoding of encoded image bytes into a [`Bitmap`], through a
//! general-purpose decoder with format auto-detection.

use vstd::prelude::*;
use crate::bitmap::{Bitmap, BitmapView};

verus! {

/// Decoding failed: the bytes are not a recognizable, well-formed encoded
/// image.
#[derive(Debug, Clone, Copy, PartialEq, Eq)]
pub enum DecodeError {
    InvalidImage,
}

/// What the decoder makes of a byte buffer: `Some` bitmap exactly when the
/// bytes are a decodable encoded image, `None` otherwise. Decoding is a
/// function of the bytes alone, so the result bears a name rather than a
/// page-long description of every supported format.
pub uninterp spec fn decode_spec(bytes: Seq<u8>) -> Option<BitmapView>;

/// Relies on `image::ImageReader` (format auto-detection over the byte
/// buffer, then decoding) and `image::DynamicImage::to_rgba8`, whose RGBA8
/// buffer holds exactly `width * height * 4` bytes.
#[verifier::external_body]
pub(crate) fn decode_rgba(bytes: &Vec<u8>) -> (r: Result<Bitmap, DecodeError>)
    ensures
        match r {
            Ok(bm) => decode_spec(bytes@) == Some(bm@) && bm.wf(),
            Err(_) => decode_spec(bytes@) is None,
        },
{
    let reader = match image::ImageReader::new(std::io::Cursor::new(bytes.as_slice()))
        .with_guessed_format()
    {
        Ok(rd) => rd,
        Err(_) => return Err(DecodeError::InvalidImage),
    };
    match reader.decode() {
        Ok(img) => {
            let width = img.width();
            let height = img.height();
            let pixels = img.to_rgba8().into_raw();
            Ok(Bitmap::new(width, height, pixels))
        }
        Err(_) => Err(DecodeError::InvalidImage),
    }
}

} // verus!
