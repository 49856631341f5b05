use vstd::prelude::*;
use vstd::string::*;

verus! {

/// Where the logo comes from.
#[derive(Debug, Clone, Copy, PartialEq, Eq, Structural)]
pub enum LogoSource {
    /// A local image file.
    Local,
    /// The avatar service, which renders one for the payment address.
    Remote,
}

/// Where to read the logo of one run.
pub enum LogoLocation {
    /// A path on the local file system.
    File(String),
    /// A URL to fetch with a GET request.
    Url(String),
}

/// Everything one run needs: the text to encode, where the logo is, and the
/// output file.
pub struct RunPlan {
    pub payload: String,
    pub logo: LogoLocation,
    pub output_path: String,
}

/// The payment URI for `address` and the decimal text `amount`.
pub open spec fn payment_uri_of(address: Seq<char>, amount: Seq<char>) -> Seq<char> {
    "ban:"@ + address + "?amount="@ + amount
}

/// The avatar service's PNG rendering for `address`: 100 pixels, no background.
pub open spec fn avatar_url_of(address: Seq<char>) -> Seq<char> {
    "https://monkey.banano.cc/api/v1/monkey/"@ + address + "?format=png&size=100&background=false"@
}

/// The output file for the base name `filename`.
pub open spec fn output_path_of(filename: Seq<char>) -> Seq<char> {
    filename + ".png"@
}

/// The logo source selected by a mode number: 0 local, 1 remote, none otherwise.
pub open spec fn logo_source_of(model: i8) -> Option<LogoSource> {
    if model == 0 {
        Some(LogoSource::Local)
    } else if model == 1 {
        Some(LogoSource::Remote)
    } else {
        None
    }
}

/// Builds `ban:<address>?amount=<amount>`.
pub fn payment_uri(address: &str, amount: &str) -> (r: String)
    ensures
        r@ == payment_uri_of(address@, amount@),
{
    let mut s = String::from_str("ban:");
    s.append(address);
    s.append("?amount=");
    s.append(amount);
    s
}

/// The URL of the avatar that the remote logo source fetches for `address`.
pub fn avatar_url(address: &str) -> (r: String)
    ensures
        r@ == avatar_url_of(address@),
{
    let mut s = String::from_str("https://monkey.banano.cc/api/v1/monkey/");
    s.append(address);
    s.append("?format=png&size=100&background=false");
    s
}

/// Appends the `.png` extension to the output base name.
pub fn output_path(filename: &str) -> (r: String)
    ensures
        r@ == output_path_of(filename@),
{
    let mut s = String::from_str(filename);
    s.append(".png");
    s
}

/// Selects the logo source for a mode number.
pub fn logo_source(model: i8) -> (r: Option<LogoSource>)
    ensures
        r == logo_source_of(model),
{
    if model == 0 {
        Some(LogoSource::Local)
    } else if model == 1 {
        Some(LogoSource::Remote)
    } else {
        None
    }
}

/// Plans one run: the payload, the logo's location (the file `logo_path` for
/// mode 0, the avatar of `address` for mode 1) and the output path. Any other
/// mode plans nothing, and the run produces no file.
pub fn plan_run(amount: &str, address: &str, filename: &str, model: i8, logo_path: &str) -> (r:
    Option<RunPlan>)
    ensures
        r is Some <==> logo_source_of(model) is Some,
        r matches Some(p) ==> {
            &&& p.payload@ == payment_uri_of(address@, amount@)
            &&& p.output_path@ == output_path_of(filename@)
            &&& match p.logo {
                LogoLocation::File(path) => model == 0 && path@ == logo_path@,
                LogoLocation::Url(url) => model == 1 && url@ == avatar_url_of(address@),
            }
        },
{
    let logo = match logo_source(model) {
        Some(LogoSource::Local) => LogoLocation::File(String::from_str(logo_path)),
        Some(LogoSource::Remote) => LogoLocation::Url(avatar_url(address)),
        None => {
            return None;
        },
    };
    Some(RunPlan { payload: payment_uri(address, amount), logo, output_path: output_path(filename) })
}

} // verus!
