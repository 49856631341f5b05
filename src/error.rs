use vstd::prelude::*;

verus! {

/// Why a QR code with a logo could not be produced.
#[derive(Debug, Clone, Copy, PartialEq, Eq, Structural)]
pub enum Error {
    /// The payload cannot be represented as a QR code.
    Unencodable,
    /// The logo bytes are not a decodable image.
    UndecodableLogo,
    /// The logo has no width, so its scaled height is undefined.
    ZeroWidthLogo,
    /// The scaled logo would not fit in memory.
    LogoTooLarge,
}

} // verus!
