use vstd::prelude::*;

use crate::error::MdvewError;
use crate::geometry::MAX_DISPLAY_COLS;

verus! {

#[verifier::external_type_specification]
#[verifier::external_body]
pub struct ExDynamicImage(image::DynamicImage);

/// Whether a byte string is a decodable image in one of the guessable
/// formats: a pure function of the bytes alone.
pub uninterp spec fn image_decodable(bytes: Seq<u8>) -> bool;

/// Relies on image's `load_from_memory`: guesses the format from the bytes
/// and decodes them, succeeding exactly on decodable input.
#[verifier::external_body]
fn decode_image(bytes: &[u8]) -> (r: Result<image::DynamicImage, String>)
    ensures
        r is Ok <==> image_decodable(bytes@),
{
    match image::load_from_memory(bytes) {
        Ok(img) => Ok(img),
        Err(e) => Err(e.to_string()),
    }
}

/// Prepares a captured screenshot for inline terminal display: decodes the
/// raw bytes into a pixel buffer and fixes the display width at the reported
/// terminal width, capped at the constant bound. The caller renders the
/// buffer at that width.
pub fn prepare_terminal_image(bytes: &[u8], term_cols: u16) -> (r: Result<
    (image::DynamicImage, u16),
    MdvewError,
>)
    ensures
        r is Ok <==> image_decodable(bytes@),
        r matches Ok(p) ==> p.1 == if term_cols <= MAX_DISPLAY_COLS {
            term_cols
        } else {
            MAX_DISPLAY_COLS
        },
        r matches Err(e) ==> e is ImageDecode,
{
    match decode_image(bytes) {
        Ok(img) => {
            let width = crate::geometry::terminal_display_width(term_cols);
            Ok((img, width))
        },
        Err(m) => Err(MdvewError::ImageDecode { message: m }),
    }
}

} // verus!
