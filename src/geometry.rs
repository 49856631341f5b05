use vstd::prelude::*;

verus! {

/// Width given to the logo: two fifths of the QR image's width, truncated.
pub open spec fn target_width(qr_width: int) -> int {
    (qr_width * 2) / 5
}

/// Height that keeps the logo's proportions at the target width, truncated.
pub open spec fn target_height(logo_width: int, logo_height: int, width: int) -> int
    recommends
        logo_width > 0,
{
    (logo_height * width) / logo_width
}

/// Half of `d`, truncated toward zero.
pub open spec fn half_toward_zero(d: int) -> int {
    if d >= 0 {
        d / 2
    } else {
        -((-d) / 2)
    }
}

/// Offset that centres a span of length `inner` in one of length `outer`;
/// negative when `inner` is the longer one.
pub open spec fn centered(outer: int, inner: int) -> int {
    half_toward_zero(outer - inner)
}

/// Side in pixels of a rendered QR code of the given version: a four-module
/// quiet zone on each side and eight pixels per module.
pub open spec fn qr_side(version: int) -> int {
    (17 + 4 * version + 8) * 8
}

/// Target width of the logo for a QR image `qr_width` pixels wide.
pub fn logo_target_width(qr_width: u32) -> (r: u32)
    ensures
        r == target_width(qr_width as int),
        r <= qr_width,
{
    ((qr_width as u64 * 2) / 5) as u32
}

/// Target height of a `logo_width` by `logo_height` logo scaled to `width`;
/// `None` when the logo has no width or the height does not fit in `u32`.
pub fn logo_target_height(logo_width: u32, logo_height: u32, width: u32) -> (r: Option<u32>)
    ensures
        r is None <==> (logo_width == 0 || target_height(
            logo_width as int,
            logo_height as int,
            width as int,
        ) > u32::MAX),
        r matches Some(h) ==> h == target_height(logo_width as int, logo_height as int, width as int),
{
    if logo_width == 0 {
        return None;
    }
    assert((logo_height as int) * (width as int) <= 0xffff_ffff * 0xffff_ffff) by (nonlinear_arith)
        requires
            logo_height <= 0xffff_ffffu32,
            width <= 0xffff_ffffu32,
    ;
    let prod: u64 = logo_height as u64 * width as u64;
    let h: u64 = prod / logo_width as u64;
    if h > u32::MAX as u64 {
        None
    } else {
        Some(h as u32)
    }
}

/// Offset that centres `inner` pixels within `outer` pixels, with the
/// difference halved by truncation.
pub fn center_offset(outer: u32, inner: u32) -> (r: i64)
    ensures
        r == centered(outer as int, inner as int),
{
    if outer >= inner {
        ((outer - inner) / 2) as i64
    } else {
        -(((inner - outer) / 2) as i64)
    }
}

/// A logo scaled to the target width keeps its proportions up to the
/// truncation of one pixel: `h / width` lies in `[lh / lw - 1 / lw, lh / lw]`.
pub proof fn lemma_height_keeps_aspect(logo_width: int, logo_height: int, width: int)
    requires
        logo_width > 0,
        logo_height >= 0,
        width >= 0,
    ensures
        target_height(logo_width, logo_height, width) * logo_width <= logo_height * width,
        logo_height * width < (target_height(logo_width, logo_height, width) + 1) * logo_width,
{
    let p = logo_height * width;
    let h = target_height(logo_width, logo_height, width);
    assert(p >= 0) by (nonlinear_arith)
        requires
            logo_height >= 0,
            width >= 0,
            p == logo_height * width,
    ;
    vstd::arithmetic::div_mod::lemma_fundamental_div_mod(p, logo_width);
    vstd::arithmetic::div_mod::lemma_mod_bound(p, logo_width);
    assert(h * logo_width <= p < (h + 1) * logo_width) by (nonlinear_arith)
        requires
            p == logo_width * (p / logo_width) + p % logo_width,
            h == p / logo_width,
            0 <= p % logo_width < logo_width,
    ;
}

/// When the inner span is no longer than the outer one, the centring offset
/// keeps it inside: `0 <= offset` and `offset + inner <= outer`.
pub proof fn lemma_centered_in_bounds(outer: int, inner: int)
    requires
        0 <= inner <= outer,
    ensures
        0 <= centered(outer, inner),
        centered(outer, inner) + inner <= outer,
        outer - inner - 1 <= 2 * centered(outer, inner) <= outer - inner,
{
}

} // verus!
