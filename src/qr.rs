use crate::error::Error;
use crate::geometry::qr_side;
use crate::raster::{dark_pixel, light_pixel, Raster};
use vstd::prelude::*;

verus! {

#[verifier::external_type_specification]
#[verifier::external_body]
pub struct ExQrError(qrcode::types::QrError);

/// The QR code that `qrcode` builds for a payload: its version and, row by
/// row, whether each module is dark; `None` when no version holds the payload.
pub uninterp spec fn qr_symbol_of(data: Seq<char>) -> Option<(int, Seq<bool>)>;

/// Whether module `(mx, my)` of an `n` by `n` grid is dark; modules outside
/// the grid (the quiet zone) are light.
pub open spec fn module_dark(dark: Seq<bool>, n: int, mx: int, my: int) -> bool {
    0 <= mx < n && 0 <= my < n && dark[my * n + mx]
}

/// Pixels per module side in a rendered QR code.
pub open spec fn module_px() -> int {
    8
}

/// Modules of quiet zone on each side of a rendered QR code.
pub open spec fn quiet_zone() -> int {
    4
}

/// A rendered QR code together with its number of modules per row.
pub struct QrImage {
    pub modules: u32,
    pub image: Raster,
}

/// `image` renders the QR code of `version` whose modules are `dark`, with
/// `modules` modules per row: square, of side `qr_side(version)`, each pixel
/// opaque black where its module is dark and opaque white elsewhere.
pub open spec fn rendered(version: int, dark: Seq<bool>, modules: u32, image: Raster) -> bool {
    &&& 1 <= version <= 40
    &&& modules == 17 + 4 * version
    &&& dark.len() == modules * modules
    &&& image.wf()
    &&& image.width == qr_side(version)
    &&& image.height == qr_side(version)
    &&& forall|x: int, y: int|
        #![trigger image.pixel(x, y)]
        image.contains(x, y) ==> image.pixel(x, y) == if module_dark(
            dark,
            modules as int,
            x / module_px() - quiet_zone(),
            y / module_px() - quiet_zone(),
        ) {
            dark_pixel()
        } else {
            light_pixel()
        }
}

/// Relies on `qrcode::QrCode::new` (smallest normal version, versions 1 to 40,
/// `4 * version + 17` modules per row, a function of the payload) and its
/// default RGBA rendering (`render().build()`: a four-module quiet zone, 8 by 8
/// pixels per module, opaque black for each module that is not
/// `Color::Light`, opaque white elsewhere).
#[verifier::external_body]
fn encode_qr(data: &str) -> (r: Result<QrImage, qrcode::types::QrError>)
    ensures
        match r {
            Ok(q) => qr_symbol_of(data@) matches Some((v, dark)) && rendered(v, dark, q.modules, q.image),
            Err(_) => qr_symbol_of(data@) is None,
        },
{
    let code = qrcode::QrCode::new(data)?;
    let image = code.render::<image::Rgba<u8>>().build();
    let (width, height) = image.dimensions();
    Ok(QrImage { modules: code.width() as u32, image: Raster { width, height, pixels: image.into_raw() } })
}

/// Encodes `data` as a QR code image; fails exactly when no QR version holds it.
pub fn generate_qr_code(data: &str) -> (r: Result<QrImage, Error>)
    ensures
        r is Ok <==> qr_symbol_of(data@) is Some,
        r matches Ok(q) ==> qr_symbol_of(data@) matches Some((v, dark)) && rendered(
            v,
            dark,
            q.modules,
            q.image,
        ),
        r matches Err(e) ==> e == Error::Unencodable,
{
    match encode_qr(data) {
        Ok(q) => Ok(q),
        Err(_) => Err(Error::Unencodable),
    }
}

/// Every rendered QR code is a square of positive side, and one with more
/// modules per row (a later version) is strictly larger.
pub proof fn lemma_rendered_square_and_growing(
    v1: int,
    d1: Seq<bool>,
    a: QrImage,
    v2: int,
    d2: Seq<bool>,
    b: QrImage,
)
    requires
        rendered(v1, d1, a.modules, a.image),
        rendered(v2, d2, b.modules, b.image),
    ensures
        a.image.width == a.image.height,
        a.image.width > 0,
        a.modules < b.modules ==> a.image.width < b.image.width,
        a.modules == b.modules ==> a.image.width == b.image.width,
{
}

/// Each module of a rendered QR code is a uniform 8 by 8 block: every pixel
/// equals the top-left pixel of its block.
pub proof fn lemma_modules_are_blocks(v: int, dark: Seq<bool>, q: QrImage, x: int, y: int)
    requires
        rendered(v, dark, q.modules, q.image),
        q.image.contains(x, y),
    ensures
        q.image.pixel(x, y) == q.image.pixel(8 * (x / 8), 8 * (y / 8)),
{
    assert((8 * (x / 8)) / 8 == x / 8) by (nonlinear_arith)
        requires
            x >= 0,
    ;
    assert((8 * (y / 8)) / 8 == y / 8) by (nonlinear_arith)
        requires
            y >= 0,
    ;
    assert(0 <= 8 * (x / 8) <= x) by (nonlinear_arith)
        requires
            x >= 0,
    ;
    assert(0 <= 8 * (y / 8) <= y) by (nonlinear_arith)
        requires
            y >= 0,
    ;
    assert(q.image.contains(8 * (x / 8), 8 * (y / 8)));
}

/// Encoding is deterministic: two QR images rendered for one payload have the
/// same size and the same pixels.
pub proof fn lemma_same_payload_same_image(data: Seq<char>, a: QrImage, b: QrImage)
    requires
        qr_symbol_of(data) matches Some((v, dark)) && rendered(v, dark, a.modules, a.image),
        qr_symbol_of(data) matches Some((v, dark)) && rendered(v, dark, b.modules, b.image),
    ensures
        a.modules == b.modules,
        a.image.width == b.image.width,
        a.image.height == b.image.height,
        forall|x: int, y: int|
            #![trigger a.image.pixel(x, y)]
            a.image.contains(x, y) ==> a.image.pixel(x, y) == b.image.pixel(x, y),
{
    let (v, dark) = qr_symbol_of(data).unwrap();
    assert forall|x: int, y: int|
        #![trigger a.image.pixel(x, y)]
        a.image.contains(x, y) implies a.image.pixel(x, y) == b.image.pixel(x, y) by {
        assert(b.image.contains(x, y));
    }
}

} // verus!
