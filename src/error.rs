use vstd::prelude::*;

verus! {

/// Why a polling cycle, or the set-up of the probe, failed.
#[derive(Debug)]
pub enum ServiceError {
    /// The HTTP request failed; the transport's own description.
    ApiError { message: String },
    /// A body, or the text captured from it, is not a decimal `u32`.
    ParseIntError,
    /// The metric pattern does not compile.
    RegexError(regex::Error),
    /// The metric pattern does not match the canister's metrics.
    NoMetricError,
    /// The metric pattern does not have exactly one capture group.
    IncorrectRegex { message: String },
}

} // verus!
