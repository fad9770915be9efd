//! The code that a login shows, as a picture made of characters.

use crate::error::Error;
use vstd::prelude::*;
use vstd::string::*;

verus! {

/// The picture of the QR code for `data`, as the `qrcode` crate draws it
/// at version 11 with the highest error correction, two modules to a
/// character, dark on light reversed; `None` where `data` does not fit.
pub uninterp spec fn qr_picture(data: Seq<char>) -> Option<Seq<char>>;

/// Why `qrcode` could not make a code.
#[verifier::external_type_specification]
#[verifier::external_body]
pub struct ExQrError(qrcode::types::QrError);

/// `QrCode::with_version` of `qrcode` with version 11 and level H, then
/// `render::<Dense1x2>` with the two colours exchanged and `build`. The
/// first fails where the data does not fit; the rest cannot fail. The
/// outcome depends on the data alone, which is all that is claimed here.
#[verifier::external_body]
fn draw_qr(data: &str) -> (picture: Result<String, qrcode::types::QrError>)
    ensures
        match picture {
            Ok(p) => qr_picture(data@) == Some(p@),
            Err(_) => qr_picture(data@) is None,
        },
{
    match qrcode::QrCode::with_version(data, qrcode::Version::Normal(11), qrcode::EcLevel::H) {
        Ok(code) => Ok(
            code.render::<qrcode::render::unicode::Dense1x2>().dark_color(
                qrcode::render::unicode::Dense1x2::Light,
            ).light_color(qrcode::render::unicode::Dense1x2::Dark).build(),
        ),
        Err(e) => Err(e),
    }
}

/// The picture of the QR code for `code_data`. Data that does not fit the
/// code is an error of the terminal interface.
pub fn encode(code_data: &str) -> (picture: Result<String, Error>)
    ensures
        match qr_picture(code_data@) {
            Some(p) => picture matches Ok(text) && text@ == p,
            None => picture matches Err(Error::TuiError(m)) && m@ == "QR code generation failed"@,
        },
{
    match draw_qr(code_data) {
        Ok(p) => Ok(p),
        Err(_) => Err(Error::TuiError(String::from_str("QR code generation failed"))),
    }
}

} // verus!
