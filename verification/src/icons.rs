//! Mapping from upstream weather condition codes to a small canonical icon
//! vocabulary. The upstream code space is open, so an unrecognized code falls
//! back to a default icon instead of failing.
use vstd::prelude::*;
use crate::strings::str_eq;

verus! {

/// The canonical icon name for an upstream condition code. Codes carry a
/// `d`/`n` suffix for day and night; only clear sky distinguishes the two.
/// Any code outside the known space maps to the default `cloud`.
pub open spec fn spec_icon_for(code: Seq<char>) -> Seq<char> {
    if code == "01d"@ {
        "sun"@
    } else if code == "01n"@ {
        "moon"@
    } else if code == "02d"@ || code == "02n"@ || code == "03d"@ || code == "03n"@ || code == "04d"@
        || code == "04n"@ {
        "cloud"@
    } else if code == "09d"@ || code == "09n"@ {
        "cloud-drizzle"@
    } else if code == "10d"@ || code == "10n"@ {
        "cloud-rain"@
    } else if code == "11d"@ || code == "11n"@ {
        "cloud-lightning"@
    } else if code == "13d"@ || code == "13n"@ {
        "cloud-snow"@
    } else if code == "50d"@ || code == "50n"@ {
        "wind"@
    } else {
        "cloud"@
    }
}

/// Maps an upstream condition code to its canonical icon name; total over all
/// strings, with `cloud` as the fallback for unrecognized codes.
pub fn icon_for(code: &str) -> (r: &'static str)
    ensures
        r@ == spec_icon_for(code@),
{
    if str_eq(code, "01d") {
        "sun"
    } else if str_eq(code, "01n") {
        "moon"
    } else if str_eq(code, "02d") || str_eq(code, "02n") || str_eq(code, "03d") || str_eq(
        code,
        "03n",
    ) || str_eq(code, "04d") || str_eq(code, "04n") {
        "cloud"
    } else if str_eq(code, "09d") || str_eq(code, "09n") {
        "cloud-drizzle"
    } else if str_eq(code, "10d") || str_eq(code, "10n") {
        "cloud-rain"
    } else if str_eq(code, "11d") || str_eq(code, "11n") {
        "cloud-lightning"
    } else if str_eq(code, "13d") || str_eq(code, "13n") {
        "cloud-snow"
    } else if str_eq(code, "50d") || str_eq(code, "50n") {
        "wind"
    } else {
        "cloud"
    }
}

} // verus!
