//! QR rendering: the text is encoded as a QR symbol and drawn as SVG
//! markup by the qrcode crate.

use vstd::prelude::*;
use qrcode::render::svg;

verus! {

/// Whether the UTF-8 bytes of `text` fit in a QR symbol, as
/// `qrcode::QrCode::new` decides.
pub uninterp spec fn qr_fits(text: Seq<char>) -> bool;

/// The SVG markup that qrcode draws for `text` with the given minimum size
/// and colours.
pub uninterp spec fn qr_svg(
    text: Seq<char>,
    min_width: u32,
    min_height: u32,
    dark: Seq<char>,
    light: Seq<char>,
) -> Seq<char>;

/// The text with which qrcode's SVG markup always begins: an XML declaration
/// and the opening of the `svg` element.
pub open spec fn svg_opening() -> Seq<char> {
    "<?xml version=\"1.0\" standalone=\"yes\"?><svg"@
}

pub open spec fn begins_with(s: Seq<char>, p: Seq<char>) -> bool {
    p.len() <= s.len() && s.subrange(0, p.len() as int) == p
}

#[verifier::external_type_specification]
#[verifier::external_body]
pub struct ExQrError(qrcode::types::QrError);

/// Relies on `qrcode::QrCode::new`, which fails only where the data does not
/// fit in a symbol, and on its SVG renderer (`Renderer::min_dimensions`,
/// `dark_color`, `light_color`, `build`), whose canvas opens with an XML
/// declaration and an `svg` element. Both depend on their arguments alone.
#[verifier::external_body]
fn encode_svg(text: &str, min_width: u32, min_height: u32, dark: &str, light: &str) -> (r: Result<
    String,
    qrcode::types::QrError,
>)
    requires
        min_width <= 65535,
        min_height <= 65535,
    ensures
        r is Ok <==> qr_fits(text@),
        r matches Ok(s) ==> s@ == qr_svg(text@, min_width, min_height, dark@, light@),
        r matches Ok(s) ==> begins_with(s@, svg_opening()),
{
    let code = qrcode::QrCode::new(text.as_bytes())?;
    Ok(code.render::<svg::Color>()
        .min_dimensions(min_width, min_height)
        .dark_color(svg::Color(dark))
        .light_color(svg::Color(light))
        .build())
}

/// Why no markup could be drawn.
#[derive(Clone, Copy, Debug, PartialEq, Eq, Structural)]
pub enum RenderError {
    /// The text does not fit in a QR symbol.
    DataTooLong,
}

/// The smallest width and height, in device-independent units, of the
/// drawn symbol.
pub const MIN_SIZE: u32 = 200;

pub open spec fn dark_color() -> Seq<char> {
    "#000000"@
}

pub open spec fn light_color() -> Seq<char> {
    "#ffffff"@
}

/// The markup that the service returns for `text`: at least 200 by 200
/// units, black on white.
pub open spec fn markup_of(text: Seq<char>) -> Seq<char> {
    qr_svg(text, MIN_SIZE, MIN_SIZE, dark_color(), light_color())
}

/// Draws `text`, any text at all, as a QR symbol in SVG markup; fails when
/// it is too long for a symbol.
pub fn render_qr(text: &str) -> (r: Result<String, RenderError>)
    ensures
        match r {
            Ok(s) => qr_fits(text@) && s@ == markup_of(text@) && begins_with(s@, svg_opening()),
            Err(e) => !qr_fits(text@) && e == RenderError::DataTooLong,
        },
{
    match encode_svg(text, MIN_SIZE, MIN_SIZE, "#000000", "#ffffff") {
        Ok(s) => Ok(s),
        Err(_) => Err(RenderError::DataTooLong),
    }
}

} // verus!
