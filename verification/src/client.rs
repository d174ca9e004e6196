//! The shape of the upstream request: the query URL built from coordinates,
//! API key and units token, and the per-request view of the configured key.
use vstd::prelude::*;
use vstd::string::StringExecFns;
use crate::errors::ConfigError;

verus! {

/// The upstream query URL: the fixed endpoint followed by latitude,
/// longitude, API key and units token, each as given.
pub open spec fn spec_upstream_url(
    latitude: Seq<char>,
    longitude: Seq<char>,
    api_key: Seq<char>,
    units: Seq<char>,
) -> Seq<char> {
    "http://api.openweathermap.org/data/2.5/onecall?lat="@ + latitude + "&lon="@ + longitude
        + "&appid="@ + api_key + "&units="@ + units
}

/// Builds the upstream query URL from the formatted coordinates, the API key
/// and the units token, all forwarded verbatim.
pub fn build_upstream_url(latitude: &str, longitude: &str, api_key: &str, units: &str) -> (r:
    String)
    ensures
        r@ == spec_upstream_url(latitude@, longitude@, api_key@, units@),
{
    let mut s = String::from_str("http://api.openweathermap.org/data/2.5/onecall?lat=");
    s.append(latitude);
    s.append("&lon=");
    s.append(longitude);
    s.append("&appid=");
    s.append(api_key);
    s.append("&units=");
    s.append(units);
    proof {
        assert(s@ =~= spec_upstream_url(latitude@, longitude@, api_key@, units@));
    }
    s
}

/// Turns the result of the configuration lookup into the API key, or the
/// configuration error when the key is absent.
pub fn resolve_api_key(lookup: Option<String>) -> (r: Result<String, ConfigError>)
    ensures
        lookup matches Some(k) ==> r matches Ok(v) && v@ == k@,
        lookup is None ==> r == Err::<String, ConfigError>(ConfigError::MissingApiKey),
{
    match lookup {
        Some(k) => Ok(k),
        None => Err(ConfigError::MissingApiKey),
    }
}

} // verus!
