use vstd::prelude::*;

use crate::error::ServiceError;
use crate::extract::fetch_bitcoin_canister_height;
use crate::pattern::{pattern_failure, pattern_height, MetricPattern};

verus! {

/// The three gauges of the probe: the reference source's block height, the
/// canister's block height, and the first minus the second.
pub struct GaugeRegistry {
    bitcoin_block_height: u32,
    bitcoin_canister_block_height: u32,
    block_height_difference: i64,
}

impl View for GaugeRegistry {
    /// (reference height, canister height, difference)
    type V = (int, int, int);

    closed spec fn view(&self) -> (int, int, int) {
        (
            self.bitcoin_block_height as int,
            self.bitcoin_canister_block_height as int,
            self.block_height_difference as int,
        )
    }
}

impl GaugeRegistry {
    /// A registry whose three gauges read zero.
    pub fn new() -> (r: GaugeRegistry)
        ensures
            r@ == (0int, 0int, 0int),
    {
        GaugeRegistry { bitcoin_block_height: 0, bitcoin_canister_block_height: 0, block_height_difference: 0 }
    }

    /// The reference source's block height.
    pub fn bitcoin_block_height(&self) -> (r: u32)
        ensures
            r == self@.0,
    {
        self.bitcoin_block_height
    }

    /// The canister's block height.
    pub fn bitcoin_canister_block_height(&self) -> (r: u32)
        ensures
            r == self@.1,
    {
        self.bitcoin_canister_block_height
    }

    /// The reference height minus the canister height.
    pub fn block_height_difference(&self) -> (r: i64)
        ensures
            r == self@.2,
    {
        self.block_height_difference
    }
}

/// Sets the gauge of the reference source's block height; the others keep
/// their values.
pub fn set_bitcoin_block_height(registry: &mut GaugeRegistry, height: u32)
    ensures
        final(registry)@ == (height as int, old(registry)@.1, old(registry)@.2),
{
    registry.bitcoin_block_height = height;
}

/// Sets the gauge of the canister's block height; the others keep their
/// values.
pub fn set_bitcoin_canister_block_height(registry: &mut GaugeRegistry, height: u32)
    ensures
        final(registry)@ == (old(registry)@.0, height as int, old(registry)@.2),
{
    registry.bitcoin_canister_block_height = height;
}

/// Sets the gauge of the height difference; the others keep their values.
pub fn set_block_height_difference(registry: &mut GaugeRegistry, height_difference: i64)
    ensures
        final(registry)@ == (old(registry)@.0, old(registry)@.1, height_difference as int),
{
    registry.block_height_difference = height_difference;
}

/// Records the heights of one successful cycle: both heights and their
/// difference.
pub fn record_cycle(registry: &mut GaugeRegistry, target_height: u32, observed_height: u32)
    ensures
        final(registry)@ == (
            target_height as int,
            observed_height as int,
            target_height - observed_height,
        ),
{
    let height_diff = target_height as i64 - observed_height as i64;
    set_bitcoin_block_height(registry, target_height);
    set_bitcoin_canister_block_height(registry, observed_height);
    set_block_height_difference(registry, height_diff);
}

/// Finishes a cycle whose first step read `target_height`: reads the
/// canister's height from what its metrics request returned and records the
/// cycle. On any failure the registry is left as it was and the error is
/// returned, so no cycle is ever recorded in part.
pub fn complete_cycle(
    registry: &mut GaugeRegistry,
    target_height: u32,
    re: &MetricPattern,
    canister_response: Result<String, ServiceError>,
) -> (r: Result<(), ServiceError>)
    ensures
        match canister_response {
            Err(e) => r == Err::<(), ServiceError>(e) && *final(registry) == *old(registry),
            Ok(body) => match pattern_height(re@, body@) {
                Some(h) => r is Ok && final(registry)@ == (
                    target_height as int,
                    h as int,
                    target_height - h,
                ),
                None => r is Err && pattern_failure(re@, body@, r->Err_0) && *final(registry)
                    == *old(registry),
            },
        },
{
    let observed_height = fetch_bitcoin_canister_height(re, canister_response)?;
    record_cycle(registry, target_height, observed_height);
    Ok(())
}

/// What the exposition server does with a request.
#[derive(PartialEq, Eq, Structural, Debug, Clone, Copy)]
pub enum Route {
    /// Answer 200 with the exposition of every gauge.
    Metrics,
    /// Answer 404 with an empty body.
    NotFound,
}

impl Route {
    /// The HTTP status of the answer.
    pub fn status(&self) -> (r: u16)
        ensures
            r == (if *self == Route::Metrics { 200u16 } else { 404u16 }),
    {
        match self {
            Route::Metrics => 200,
            Route::NotFound => 404,
        }
    }

    /// Whether the answer's body is the exposition of the gauges; otherwise
    /// it is empty.
    pub fn serves_metrics(&self) -> (r: bool)
        ensures
            r == (*self == Route::Metrics),
    {
        match self {
            Route::Metrics => true,
            Route::NotFound => false,
        }
    }
}

/// Whether `a` and `b` hold the same characters.
fn same_text(a: &str, b: &str) -> (r: bool)
    ensures
        r == (a@ == b@),
{
    let n = a.unicode_len();
    if n != b.unicode_len() {
        return false;
    }
    let mut i: usize = 0;
    while i < n
        invariant
            0 <= i <= n,
            n == a@.len(),
            n == b@.len(),
            forall|j: int| 0 <= j < i ==> a@[j] == b@[j],
        decreases n - i,
    {
        if a.get_char(i) != b.get_char(i) {
            return false;
        }
        i = i + 1;
    }
    assert(a@ =~= b@);
    true
}

/// The path of the one route the exposition server answers.
pub open spec fn metrics_path() -> Seq<char> {
    "/metrics"@
}

/// Decides how the exposition server answers a request with HTTP `method`
/// to `path`: only `GET /metrics` is served.
pub fn route(method: &str, path: &str) -> (r: Route)
    ensures
        r == (if method@ == "GET"@ && path@ == metrics_path() {
            Route::Metrics
        } else {
            Route::NotFound
        }),
{
    if same_text(method, "GET") && same_text(path, "/metrics") {
        Route::Metrics
    } else {
        Route::NotFound
    }
}

} // verus!
