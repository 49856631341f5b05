use crate::error::Error;
use crate::raster::Raster;
use vstd::prelude::*;

verus! {

#[verifier::external_type_specification]
#[verifier::external_body]
pub struct ExImageError(image::ImageError);

/// The RGBA raster (width, height, pixels) that `image` decodes a byte buffer
/// to, `None` when it cannot decode it.
pub uninterp spec fn decoded_rgba(bytes: Seq<u8>) -> Option<(u32, u32, Seq<u8>)>;

/// Relies on `image::load_from_memory`, which guesses the format from the
/// bytes and decodes them, and `DynamicImage::to_rgba8`, which converts the
/// result to 8-bit RGBA (opaque where the source had no alpha).
#[verifier::external_body]
fn decode_rgba(bytes: &[u8]) -> (r: Result<Raster, image::ImageError>)
    ensures
        match r {
            Ok(img) => img.wf() && decoded_rgba(bytes@) == Some((img.width, img.height, img.pixels@)),
            Err(_) => decoded_rgba(bytes@) is None,
        },
{
    let img = image::load_from_memory(bytes)?.to_rgba8();
    let (width, height) = img.dimensions();
    Ok(Raster { width, height, pixels: img.into_raw() })
}

/// Decodes the bytes of a logo image (read from a file or fetched) into an
/// RGBA raster; fails exactly when the bytes are not a decodable image.
pub fn load_logo(bytes: &[u8]) -> (r: Result<Raster, Error>)
    ensures
        r is Err <==> decoded_rgba(bytes@) is None,
        r matches Ok(img) ==> img.wf() && decoded_rgba(bytes@) == Some(
            (img.width, img.height, img.pixels@),
        ),
        r matches Err(e) ==> e == Error::UndecodableLogo,
{
    match decode_rgba(bytes) {
        Ok(img) => Ok(img),
        Err(_) => Err(Error::UndecodableLogo),
    }
}

} // verus!
