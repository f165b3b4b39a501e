//! QR code bitmaps, as the `qrcode_generator` crate draws them.

use qrcode_generator::QRCodeError;
use qrcode_generator::QrCodeEcc;
use vstd::prelude::*;

verus! {

/// The width and height, in pixels, of every QR bitmap that the image data
/// set asks for.
pub const QR_SIZE: usize = 128;

/// How much of a QR code may be damaged and still be read.
#[derive(Clone, Copy, Debug, PartialEq, Eq)]
pub enum ErrorCorrection {
    Low,
    Medium,
    Quartile,
    High,
}

/// Why `qrcode_generator` could not draw a code. Nothing here looks inside.
#[verifier::external_type_specification]
#[verifier::external_body]
pub struct ExQRCodeError(QRCodeError);

/// The grey-scale bitmap, row by row, that `qrcode_generator::to_image`
/// draws for a payload at an error-correction level and a side length; `None`
/// where it draws none.
pub uninterp spec fn qr_image(payload: Seq<char>, ecc: ErrorCorrection, size: usize) -> Option<
    Seq<u8>,
>;

/// Calls `qrcode_generator::to_image`.
///
/// Trusted: the outcome depends on the three arguments alone, so it is the
/// value that [`qr_image`] names; and a bitmap that comes back holds one byte
/// for each pixel of a `size` by `size` square. A square with more pixels
/// than a vector can hold is left out: the crate would panic on it.
#[verifier::external_body]
pub(crate) fn to_image(payload: &str, ecc: ErrorCorrection, size: usize) -> (image: Result<
    Vec<u8>,
    QRCodeError,
>)
    requires
        size * size <= isize::MAX,
    ensures
        match image {
            Ok(pixels) => qr_image(payload@, ecc, size) == Some(pixels@) && pixels@.len() == size
                * size,
            Err(_) => qr_image(payload@, ecc, size) is None,
        },
{
    let level = match ecc {
        ErrorCorrection::Low => QrCodeEcc::Low,
        ErrorCorrection::Medium => QrCodeEcc::Medium,
        ErrorCorrection::Quartile => QrCodeEcc::Quartile,
        ErrorCorrection::High => QrCodeEcc::High,
    };
    qrcode_generator::to_image(payload, level, size)
}

} // verus!
