//! Request routing: an HTTP method and path are dispatched to one of five
//! outcomes, with their status codes and content types.
use vstd::prelude::*;
use crate::strings::str_eq;

verus! {

/// The outcome of routing one request: the weather view, the seasonal
/// background image, one of two embedded static files, a not-found response,
/// or a method-not-allowed response.
#[derive(Clone, Copy, PartialEq, Eq, Structural, Debug)]
pub enum RouteOutcome {
    WeatherView,
    BackgroundImage,
    StyleSheet,
    Script,
    NotFound,
    MethodNotAllowed,
}

/// The routing table. A method other than `GET` is rejected before any path
/// is considered; `/` serves the weather view, `/bg-image.jpg` the seasonal
/// background, `/style.css` and `/feather.min.js` the embedded static files,
/// and every other path is not found.
pub open spec fn spec_route(method: Seq<char>, path: Seq<char>) -> RouteOutcome {
    if method != "GET"@ {
        RouteOutcome::MethodNotAllowed
    } else if path == "/"@ {
        RouteOutcome::WeatherView
    } else if path == "/bg-image.jpg"@ {
        RouteOutcome::BackgroundImage
    } else if path == "/style.css"@ {
        RouteOutcome::StyleSheet
    } else if path == "/feather.min.js"@ {
        RouteOutcome::Script
    } else {
        RouteOutcome::NotFound
    }
}

/// Dispatches a request by method and path. No state is carried between
/// dispatches.
pub fn route(method: &str, path: &str) -> (r: RouteOutcome)
    ensures
        r == spec_route(method@, path@),
{
    if !str_eq(method, "GET") {
        RouteOutcome::MethodNotAllowed
    } else if str_eq(path, "/") {
        RouteOutcome::WeatherView
    } else if str_eq(path, "/bg-image.jpg") {
        RouteOutcome::BackgroundImage
    } else if str_eq(path, "/style.css") {
        RouteOutcome::StyleSheet
    } else if str_eq(path, "/feather.min.js") {
        RouteOutcome::Script
    } else {
        RouteOutcome::NotFound
    }
}

/// The HTTP status of each routing outcome: 405 for a disallowed method,
/// 404 for an unknown path, 200 otherwise.
pub open spec fn spec_route_status(r: RouteOutcome) -> u16 {
    match r {
        RouteOutcome::MethodNotAllowed => 405,
        RouteOutcome::NotFound => 404,
        _ => 200,
    }
}

/// The HTTP status code a routing outcome is answered with.
pub fn route_status(r: RouteOutcome) -> (s: u16)
    ensures
        s == spec_route_status(r),
{
    match r {
        RouteOutcome::MethodNotAllowed => 405,
        RouteOutcome::NotFound => 404,
        _ => 200,
    }
}

/// The content type of each routing outcome's response body.
pub fn route_content_type(r: RouteOutcome) -> (t: &'static str)
    ensures
        r == RouteOutcome::WeatherView ==> t@ == "text/html; charset=utf-8"@,
        r == RouteOutcome::BackgroundImage ==> t@ == "image/jpeg"@,
        r == RouteOutcome::StyleSheet ==> t@ == "text/css"@,
        r == RouteOutcome::Script ==> t@ == "text/javascript"@,
        (r == RouteOutcome::NotFound || r == RouteOutcome::MethodNotAllowed) ==> t@ == "text/plain"@,
{
    match r {
        RouteOutcome::WeatherView => "text/html; charset=utf-8",
        RouteOutcome::BackgroundImage => "image/jpeg",
        RouteOutcome::StyleSheet => "text/css",
        RouteOutcome::Script => "text/javascript",
        RouteOutcome::NotFound => "text/plain",
        RouteOutcome::MethodNotAllowed => "text/plain",
    }
}

} // verus!
