//! Units resolution: the effective units token and the metric display flag.
//! The token is not validated; an unrecognized value is accepted and
//! forwarded verbatim to the upstream query.
use vstd::prelude::*;
use crate::strings::str_eq;

verus! {

/// The effective units token: the `units` query parameter when present,
/// `"metric"` otherwise.
pub fn resolve_units(query_units: Option<String>) -> (r: String)
    ensures
        match query_units {
            Some(u) => r@ == u@,
            None => r@ == "metric"@,
        },
{
    match query_units {
        Some(u) => u,
        None => {
            let s = "metric";
            s.to_owned()
        },
    }
}

/// Whether a units token selects metric display: true exactly when the token
/// is the string `metric`.
pub fn is_metric(units: &str) -> (r: bool)
    ensures
        r == (units@ == "metric"@),
{
    str_eq(units, "metric")
}

} // verus!
