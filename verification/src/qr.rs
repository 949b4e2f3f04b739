use vstd::prelude::*;

use crate::report::CcError;

verus! {

#[verifier::external_type_specification]
#[verifier::external_body]
pub struct ExQrCode(qrcode::QrCode);

#[verifier::external_type_specification]
#[verifier::external_body]
pub struct ExQrError(qrcode::types::QrError);

/// The module grid of a QR code, row by row, a dark module as `true`: what
/// `qrcode::QrCode::to_colors` holds, cut into rows of `width` modules.
pub uninterp spec fn qr_modules(c: qrcode::QrCode) -> Seq<Seq<bool>>;

/// The module grid that the encoder produces at error-correction level H for
/// a payload. The encoder is deterministic, so the grid is a function of the
/// payload alone.
pub uninterp spec fn qr_modules_h(payload: Seq<char>) -> Seq<Seq<bool>>;

/// Whether the encoder accepts a payload at error-correction level H: it
/// refuses exactly the payloads whose encoding fits no version-40 code at
/// that level, a property of the payload alone.
pub uninterp spec fn qr_fits_h(payload: Seq<char>) -> bool;

/// The SVG document that the renderer produces for a module grid, a minimum
/// pixel dimension and a dark and a light color. The renderer is a pure
/// text builder, so the document is a function of these four alone.
pub uninterp spec fn qr_svg(modules: Seq<Seq<bool>>, min_size: nat, dark: Seq<char>, light: Seq<char>) -> Seq<char>;

/// The side length, in pixels, of the bounding square that an SVG document
/// declares in its markup: a function of the document text alone.
pub uninterp spec fn qr_svg_dim(doc: Seq<char>) -> nat;

/// The renderer pads the requested dimension up to whole modules; dimensions
/// beyond this bound are clamped before rendering, keeping the pixel
/// arithmetic inside `u32`.
pub const MAX_RENDER_DIM: u32 = 16384;

/// Relies on `qrcode::QrCode::with_error_correction_level` at `EcLevel::H`
/// on the payload's bytes: the encoder is deterministic, succeeds exactly
/// when its encoding of the data fits some version at level H, and
/// determines the module grid from the data alone.
#[verifier::external_body]
fn qr_encode_h(payload: &str) -> (r: Result<qrcode::QrCode, qrcode::types::QrError>)
    ensures
        r is Ok <==> qr_fits_h(payload@),
        r matches Ok(c) ==> qr_modules(c) == qr_modules_h(payload@),
{
    qrcode::QrCode::with_error_correction_level(payload.as_bytes(), qrcode::EcLevel::H)
}

/// Relies on `qrcode::render::Renderer::build` over `svg::Color`: a pure
/// text builder whose output is a function of the module grid, the minimum
/// dimensions and the two colors. `min_dimensions` rounds each module up to
/// a whole number of pixels, so the document's bounding square is at least
/// the requested size. The dimension bound keeps the renderer's `u32` size
/// arithmetic from overflowing.
#[verifier::external_body]
fn qr_render_svg_raw(code: &qrcode::QrCode, size: u32, dark: &str, light: &str) -> (r: String)
    requires
        size <= MAX_RENDER_DIM,
    ensures
        r@ == qr_svg(qr_modules(*code), size as nat, dark@, light@),
        qr_svg_dim(r@) >= size,
{
    code.render::<qrcode::render::svg::Color>()
        .min_dimensions(size, size)
        .dark_color(qrcode::render::svg::Color(dark))
        .light_color(qrcode::render::svg::Color(light))
        .build()
}

/// Relies on `qrcode::QrCode::to_colors` and `width`: the module grid, row
/// by row, with a dark module as `true`.
#[verifier::external_body]
pub fn qr_modules_vec(code: &qrcode::QrCode) -> (r: Vec<Vec<bool>>)
    ensures
        r@.map_values(|row: Vec<bool>| row@) == qr_modules(*code),
{
    let width = code.width();
    code.to_colors()
        .chunks(width)
        .map(|row| row.iter().map(|c| matches!(c, qrcode::Color::Dark)).collect())
        .collect()
}

/// Generates the QR code for the payload at the fixed error-correction
/// level H.
///
/// Succeeds exactly when the payload fits a code at that level; the module
/// grid of a successful result is determined by the payload alone, so two
/// calls on the same payload yield identical grids.
pub fn generate(payload: &str) -> (r: Result<qrcode::QrCode, CcError>)
    ensures
        r is Ok <==> qr_fits_h(payload@),
        r matches Ok(c) ==> qr_modules(c) == qr_modules_h(payload@),
        r matches Err(e) ==> e == CcError::Encoding,
{
    match qr_encode_h(payload) {
        Ok(c) => Ok(c),
        Err(_) => Err(CcError::Encoding),
    }
}

/// Renders the QR code as an SVG document whose bounding square is at least
/// `min_size` pixels on a side (padded up to whole modules), drawing dark
/// modules in `dark` on a `light` background. The two colors pass through
/// unvalidated, as opaque tokens for the SVG consumer.
///
/// A `min_size` beyond `MAX_RENDER_DIM` is clamped to it first.
pub fn render_svg(code: &qrcode::QrCode, min_size: u32, dark: &str, light: &str) -> (r: String)
    ensures
        r@ == qr_svg(qr_modules(*code), spec_render_dim(min_size) as nat, dark@, light@),
        qr_svg_dim(r@) >= spec_render_dim(min_size),
{
    let dim = if min_size > MAX_RENDER_DIM {
        MAX_RENDER_DIM
    } else {
        min_size
    };
    qr_render_svg_raw(code, dim, dark, light)
}

/// The dimension actually handed to the renderer: the requested one, clamped
/// to `MAX_RENDER_DIM`.
pub open spec fn spec_render_dim(min_size: u32) -> u32 {
    if min_size > MAX_RENDER_DIM {
        MAX_RENDER_DIM
    } else {
        min_size
    }
}

/// Encoding is deterministic: module grids obtained for one and the same
/// payload are identical, bit for bit.
pub proof fn lemma_generate_deterministic(payload: Seq<char>, m1: Seq<Seq<bool>>, m2: Seq<Seq<bool>>)
    requires
        m1 == qr_modules_h(payload),
        m2 == qr_modules_h(payload),
    ensures
        m1 == m2,
{
}

} // verus!
