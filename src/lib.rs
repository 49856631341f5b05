//! Payment QR codes with a centred logo: encoding, logo decoding, geometry and
//! compositing on RGBA rasters.

pub mod compose;
pub mod error;
pub mod geometry;
pub mod logo;
pub mod plan;
pub mod qr;
pub mod raster;

pub use compose::{overlay_logo, paint_centered};
pub use error::Error;
pub use geometry::{center_offset, logo_target_height, logo_target_width};
pub use logo::load_logo;
pub use plan::{
    avatar_url, logo_source, output_path, payment_uri, plan_run, LogoLocation, LogoSource, RunPlan,
};
pub use qr::{generate_qr_code, QrImage};
pub use raster::Raster;
