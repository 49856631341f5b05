use crate::error::Error;
use crate::geometry::{
    center_offset, centered, logo_target_height, logo_target_width, target_height, target_width,
};
use crate::raster::{alpha, pixel_at, Raster};
use vstd::prelude::*;

verus! {

/// What `image` blends a partly transparent RGBA pixel onto another to.
pub uninterp spec fn rgba_blend(bottom: Seq<u8>, top: Seq<u8>) -> Seq<u8>;

/// Source-over blending of `top` onto `bottom`: a transparent top pixel
/// leaves the bottom one, an opaque one replaces it.
pub open spec fn blended(bottom: Seq<u8>, top: Seq<u8>) -> Seq<u8> {
    if alpha(top) == 0 {
        bottom
    } else if alpha(top) == 255 {
        top
    } else {
        rgba_blend(bottom, top)
    }
}

/// Whether the `w` by `h` rectangle placed at `(x, y)` covers `(px, py)`.
pub open spec fn covers(x: int, y: int, w: int, h: int, px: int, py: int) -> bool {
    x <= px < x + w && y <= py < y + h
}

/// Pixel `(px, py)` of `base` after the `tw` by `th` RGBA buffer `top` is
/// painted onto it at `(x, y)`.
pub open spec fn painted(
    base: Raster,
    top: Seq<u8>,
    tw: int,
    th: int,
    x: int,
    y: int,
    px: int,
    py: int,
) -> Seq<u8> {
    if covers(x, y, tw, th, px, py) {
        blended(base.pixel(px, py), pixel_at(top, tw, px - x, py - y))
    } else {
        base.pixel(px, py)
    }
}

/// `out` is `base` with the `tw` by `th` RGBA buffer `top` painted onto it at
/// `(x, y)`, clipped to `base`.
pub open spec fn painted_at(
    out: Raster,
    base: Raster,
    top: Seq<u8>,
    tw: int,
    th: int,
    x: int,
    y: int,
) -> bool {
    &&& out.wf()
    &&& out.width == base.width
    &&& out.height == base.height
    &&& forall|px: int, py: int|
        #![trigger out.pixel(px, py)]
        base.contains(px, py) ==> out.pixel(px, py) == painted(base, top, tw, th, x, y, px, py)
}

/// A raster of `width` by `height` pixels, and one of `source_width` by
/// `height` during resampling, has a buffer length that fits in `usize`.
pub open spec fn resize_fits(source_width: int, width: int, height: int) -> bool {
    4 * width * height <= usize::MAX && 4 * source_width * height <= usize::MAX
}

/// Every pixel of `r` is `p`.
pub open spec fn uniform(r: Raster, p: Seq<u8>) -> bool {
    forall|x: int, y: int| #![trigger r.pixel(x, y)] r.contains(x, y) ==> r.pixel(x, y) == p
}

/// Side, in pixels, up to which resampling a source of one colour is known
/// to keep that colour exactly.
pub open spec fn max_exact_side() -> int {
    256
}

/// `r` is what resampling `src` to `width` by `height` may give: a raster of
/// that size that copies `src` when the size is unchanged, is all zero bytes
/// when `src` is empty, and keeps the colour of a source of one colour that
/// is at most `max_exact_side()` pixels on each side.
pub open spec fn resampled(src: Raster, width: int, height: int, r: Raster) -> bool {
    &&& r.wf()
    &&& r.width == width
    &&& r.height == height
    &&& (src.width == width && src.height == height) ==> r.pixels@ == src.pixels@
    &&& (src.width == 0 || src.height == 0) ==> forall|i: int|
        0 <= i < r.pixels@.len() ==> #[trigger] r.pixels@[i] == 0
    &&& forall|p: Seq<u8>|
        #![trigger uniform(src, p)]
        0 < src.width <= max_exact_side() && 0 < src.height <= max_exact_side() && uniform(
            src,
            p,
        ) ==> uniform(r, p)
}

/// Relies on `image::imageops::resize` with `FilterType::Lanczos3`:
/// - the result has the requested size;
/// - a request for the source's own size copies the source, and an empty
///   source gives a zeroed buffer (`buffer_with_dimensions`);
/// - otherwise two f32 passes weight each channel by kernel values divided by
///   their sum and round it to the nearest value. For a source of one colour
///   the exact result is that colour; with at most `6 * 256 + 2` terms per
///   window (sides up to 256) the f32 error stays below half a level, so the
///   colour is kept. The kernel values themselves (`f32::sin`) may differ
///   between platforms, which is why nothing more is stated of other sources.
///
/// Its buffers must have lengths that fit in `usize`.
#[verifier::external_body]
fn resize_lanczos3(src: &Raster, new_width: u32, new_height: u32) -> (r: Raster)
    requires
        src.wf(),
        resize_fits(src.width as int, new_width as int, new_height as int),
    ensures
        resampled(*src, new_width as int, new_height as int, r),
{
    let buf: image::RgbaImage = image::ImageBuffer::from_raw(src.width, src.height, src.pixels.clone()).unwrap();
    let out = image::imageops::resize(&buf, new_width, new_height, image::imageops::FilterType::Lanczos3);
    let (width, height) = out.dimensions();
    Raster { width, height, pixels: out.into_raw() }
}

/// Relies on `image::imageops::overlay`: it blends (`Rgba::blend`) each pixel
/// of `top` onto the pixel of `base` it lands on when `top` is placed at
/// `(x, y)`, skips what falls outside `base`, and changes nothing else.
#[verifier::external_body]
fn overlay_at(base: &mut Raster, top: &Raster, x: i64, y: i64)
    requires
        old(base).wf(),
        top.wf(),
    ensures
        final(base).wf(),
        final(base).width == old(base).width,
        final(base).height == old(base).height,
        forall|px: int, py: int|
            #![trigger final(base).pixel(px, py)]
            old(base).contains(px, py) ==> final(base).pixel(px, py) == (if covers(
                x as int,
                y as int,
                top.width as int,
                top.height as int,
                px,
                py,
            ) {
                if alpha(top.pixel(px - x, py - y)) == 0 {
                    old(base).pixel(px, py)
                } else if alpha(top.pixel(px - x, py - y)) == 255 {
                    top.pixel(px - x, py - y)
                } else {
                    rgba_blend(old(base).pixel(px, py), top.pixel(px - x, py - y))
                }
            } else {
                old(base).pixel(px, py)
            }),
{
    let pixels = std::mem::take(&mut base.pixels);
    let mut bottom: image::RgbaImage = image::ImageBuffer::from_raw(base.width, base.height, pixels).unwrap();
    let upper: image::RgbaImage = image::ImageBuffer::from_raw(top.width, top.height, top.pixels.clone()).unwrap();
    image::imageops::overlay(&mut bottom, &upper, x, y);
    base.pixels = bottom.into_raw();
}

/// Paints `logo` as it is onto a copy of `qr`, centred, with the offsets
/// halved by truncation; what falls outside `qr` is clipped.
pub fn paint_centered(qr: &Raster, logo: &Raster) -> (r: Raster)
    requires
        qr.wf(),
        logo.wf(),
    ensures
        painted_at(
            r,
            *qr,
            logo.pixels@,
            logo.width as int,
            logo.height as int,
            centered(qr.width as int, logo.width as int),
            centered(qr.height as int, logo.height as int),
        ),
{
    let x = center_offset(qr.width, logo.width);
    let y = center_offset(qr.height, logo.height);
    let pixels = qr.pixels.clone();
    assert(pixels@ =~= qr.pixels@);
    let mut out = Raster { width: qr.width, height: qr.height, pixels };
    overlay_at(&mut out, logo, x, y);
    out
}

/// The scaled logo's height, when it is defined and the resampling buffers fit
/// in memory.
pub open spec fn scaled_height(qr: Raster, logo: Raster) -> Option<int> {
    let w = target_width(qr.width as int);
    let h = target_height(logo.width as int, logo.height as int, w);
    if logo.width == 0 || h > u32::MAX || !resize_fits(logo.width as int, w, h) {
        None
    } else {
        Some(h)
    }
}

/// Scales `logo` to two fifths of the width of `qr`, keeping its proportions
/// (heights truncated), resamples it with Lanczos3 and paints it at the centre
/// of a copy of `qr`. Pixels of `qr` outside the logo's rectangle are kept;
/// a logo of one colour, at most `max_exact_side()` pixels on each side, is
/// blended as that colour over the whole rectangle.
pub fn overlay_logo(qr: &Raster, logo: &Raster) -> (r: Result<Raster, Error>)
    requires
        qr.wf(),
        logo.wf(),
    ensures
        r matches Err(e) ==> (logo.width == 0 <==> e == Error::ZeroWidthLogo),
        r matches Err(e) ==> (e == Error::ZeroWidthLogo || e == Error::LogoTooLarge),
        r is Err <==> scaled_height(*qr, *logo) is None,
        r matches Ok(out) ==> ({
            let w = target_width(qr.width as int);
            let h = target_height(logo.width as int, logo.height as int, w);
            let x = centered(qr.width as int, w);
            let y = centered(qr.height as int, h);
            &&& exists|scaled: Raster|
                #![trigger resampled(*logo, w, h, scaled)]
                resampled(*logo, w, h, scaled) && painted_at(
                    out,
                    *qr,
                    scaled.pixels@,
                    w,
                    h,
                    x,
                    y,
                )
            &&& forall|px: int, py: int|
                #![trigger out.pixel(px, py)]
                qr.contains(px, py) && !covers(x, y, w, h, px, py) ==> out.pixel(px, py)
                    == qr.pixel(px, py)
            &&& forall|p: Seq<u8>|
                #![trigger uniform(*logo, p)]
                0 < logo.width <= max_exact_side() && 0 < logo.height <= max_exact_side()
                    && uniform(*logo, p) ==> forall|px: int, py: int|
                    #![trigger out.pixel(px, py)]
                    qr.contains(px, py) && covers(x, y, w, h, px, py) ==> out.pixel(px, py)
                        == blended(qr.pixel(px, py), p)
        }),
{
    let w = logo_target_width(qr.width);
    let h = match logo_target_height(logo.width, logo.height, w) {
        Some(h) => h,
        None => {
            if logo.width == 0 {
                return Err(Error::ZeroWidthLogo);
            }
            return Err(Error::LogoTooLarge);
        },
    };
    assert(4 * (w as int) * (h as int) <= 4 * 0xffff_ffffu32 * 0xffff_ffffu32) by (nonlinear_arith)
        requires
            w <= 0xffff_ffffu32,
            h <= 0xffff_ffffu32,
    ;
    assert(4 * (logo.width as int) * (h as int) <= 4 * 0xffff_ffffu32 * 0xffff_ffffu32)
        by (nonlinear_arith)
        requires
            logo.width <= 0xffff_ffffu32,
            h <= 0xffff_ffffu32,
    ;
    let out_len: u128 = 4 * (w as u128) * (h as u128);
    let sample_len: u128 = 4 * (logo.width as u128) * (h as u128);
    if out_len > usize::MAX as u128 || sample_len > usize::MAX as u128 {
        return Err(Error::LogoTooLarge);
    }
    let resized = resize_lanczos3(logo, w, h);
    let out = paint_centered(qr, &resized);
    let ghost x = centered(qr.width as int, w as int);
    let ghost y = centered(qr.height as int, h as int);
    assert forall|p: Seq<u8>|
        #![trigger uniform(*logo, p)]
        0 < logo.width <= max_exact_side() && 0 < logo.height <= max_exact_side() && uniform(
            *logo,
            p,
        ) implies forall|px: int, py: int|
        #![trigger out.pixel(px, py)]
        qr.contains(px, py) && covers(x, y, w as int, h as int, px, py) ==> out.pixel(px, py)
            == blended(qr.pixel(px, py), p) by {
        assert(uniform(resized, p));
        assert forall|px: int, py: int|
            #![trigger out.pixel(px, py)]
            qr.contains(px, py) && covers(x, y, w as int, h as int, px, py) implies out.pixel(px, py)
            == blended(qr.pixel(px, py), p) by {
            assert(resized.contains(px - x, py - y));
            assert(resized.pixel(px - x, py - y) == p);
        }
    }
    Ok(out)
}

} // verus!
