use vstd::prelude::*;

use crate::decimal::{parse_height, raw_height};
use crate::error::ServiceError;
use crate::pattern::{height_from_pattern, pattern_failure, pattern_height, MetricPattern};

verus! {

/// How a block height is read from a response body.
pub enum ExtractionRule {
    /// The whole body is the height, in decimal.
    RawInteger,
    /// The height is what the pattern's one capture group matches.
    PatternCapture(MetricPattern),
}

/// The height that `rule` reads from `body`, if it reads one.
pub open spec fn rule_height(rule: &ExtractionRule, body: Seq<char>) -> Option<u32> {
    match rule {
        ExtractionRule::RawInteger => raw_height(body),
        ExtractionRule::PatternCapture(p) => pattern_height(p@, body),
    }
}

/// Whether `e` is the error that reading a height with `rule` from `body`
/// fails with.
pub open spec fn rule_failure(rule: &ExtractionRule, body: Seq<char>, e: ServiceError) -> bool {
    match rule {
        ExtractionRule::RawInteger => e is ParseIntError,
        ExtractionRule::PatternCapture(p) => pattern_failure(p@, body, e),
    }
}

/// Reads a block height from a response body by `rule`.
pub fn extract_height(rule: &ExtractionRule, body: &str) -> (r: Result<u32, ServiceError>)
    ensures
        match rule_height(rule, body@) {
            Some(h) => r == Ok::<u32, ServiceError>(h),
            None => r is Err && rule_failure(rule, body@, r->Err_0),
        },
{
    match rule {
        ExtractionRule::RawInteger => parse_height(body),
        ExtractionRule::PatternCapture(p) => height_from_pattern(p, body),
    }
}

/// The current height of the longest Bitcoin chain, from what the request
/// to the reference source returned: its whole body is the height, and a
/// failed request's error is passed on unchanged.
pub fn fetch_bitcoin_block_height(response: Result<String, ServiceError>) -> (r: Result<
    u32,
    ServiceError,
>)
    ensures
        match response {
            Err(e) => r == Err::<u32, ServiceError>(e),
            Ok(body) => match raw_height(body@) {
                Some(h) => r == Ok::<u32, ServiceError>(h),
                None => r is Err && r->Err_0 is ParseIntError,
            },
        },
{
    let text = response?;
    parse_height(text.as_str())
}

/// The Bitcoin canister's block height, from what the request for its
/// metrics returned, with the metric pattern `re`; a failed request's error
/// is passed on unchanged.
pub fn fetch_bitcoin_canister_height(re: &MetricPattern, response: Result<String, ServiceError>) -> (r:
    Result<u32, ServiceError>)
    ensures
        match response {
            Err(e) => r == Err::<u32, ServiceError>(e),
            Ok(body) => match pattern_height(re@, body@) {
                Some(h) => r == Ok::<u32, ServiceError>(h),
                None => r is Err && pattern_failure(re@, body@, r->Err_0),
            },
        },
{
    let text = response?;
    height_from_pattern(re, text.as_str())
}

} // verus!
