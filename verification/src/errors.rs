//! The error taxonomy and the HTTP status each error is answered with.
//! Per-request failures become responses; nothing here aborts the process.
use vstd::prelude::*;

verus! {

/// A request the service refuses outright: a method other than GET, or an
/// unknown path.
#[derive(Clone, Copy, PartialEq, Eq, Structural, Debug)]
pub enum RequestError {
    MethodNotAllowed,
    NotFound,
}

/// The client's location could not be resolved.
#[derive(Clone, Copy, PartialEq, Eq, Structural, Debug)]
pub enum LocationError {
    Unresolved,
}

/// A required configuration value is missing: a deployment defect.
#[derive(Clone, Copy, PartialEq, Eq, Structural, Debug)]
pub enum ConfigError {
    MissingApiKey,
}

/// The upstream weather fetch failed: transport failure, a non-success
/// status, an undecodable body, or a timeout.
#[derive(Clone, Copy, PartialEq, Eq, Structural, Debug)]
pub enum UpstreamError {
    NetworkFailure,
    NonSuccessStatus,
    DecodeFailure,
    Timeout,
}

/// The decoded payload violates the snapshot invariant: fewer than four
/// forecast days, no precipitation sample, or an empty weather-condition
/// list.
#[derive(Clone, Copy, PartialEq, Eq, Structural, Debug)]
pub enum DataContractError {
    TooFewDailyEntries,
    NoPrecipitationSamples,
    NoWeatherConditions,
}

/// The status of a refused request: 405 for a disallowed method, 404 for an
/// unknown path.
pub fn request_error_status(e: RequestError) -> (s: u16)
    ensures
        e == RequestError::MethodNotAllowed ==> s == 405,
        e == RequestError::NotFound ==> s == 404,
{
    match e {
        RequestError::MethodNotAllowed => 405,
        RequestError::NotFound => 404,
    }
}

/// A failed location lookup is answered as a bad gateway.
pub fn location_error_status(e: LocationError) -> (s: u16)
    ensures
        s == 502,
{
    match e {
        LocationError::Unresolved => 502,
    }
}

/// A missing configuration value encountered during a request is answered as
/// an internal error.
pub fn config_error_status(e: ConfigError) -> (s: u16)
    ensures
        s == 500,
{
    match e {
        ConfigError::MissingApiKey => 500,
    }
}

/// An upstream failure is answered as a bad gateway, a timeout as a gateway
/// timeout.
pub fn upstream_error_status(e: UpstreamError) -> (s: u16)
    ensures
        e == UpstreamError::Timeout ==> s == 504,
        e != UpstreamError::Timeout ==> s == 502,
{
    match e {
        UpstreamError::NetworkFailure => 502,
        UpstreamError::NonSuccessStatus => 502,
        UpstreamError::DecodeFailure => 502,
        UpstreamError::Timeout => 504,
    }
}

/// A payload that violates the snapshot invariant is answered as an internal
/// error: it is an upstream schema mismatch, not user input.
pub fn data_contract_error_status(e: DataContractError) -> (s: u16)
    ensures
        s == 500,
{
    match e {
        DataContractError::TooFewDailyEntries => 500,
        DataContractError::NoPrecipitationSamples => 500,
        DataContractError::NoWeatherConditions => 500,
    }
}

/// The terse plain-text body of a refused request.
pub fn request_error_body(e: RequestError) -> (r: &'static str)
    ensures
        e == RequestError::MethodNotAllowed ==> r@ == "This method is not allowed"@,
        e == RequestError::NotFound ==> r@ == "The page you requested could not be found"@,
{
    match e {
        RequestError::MethodNotAllowed => "This method is not allowed",
        RequestError::NotFound => "The page you requested could not be found",
    }
}

} // verus!
