//! A probe that compares the Bitcoin block height reported by a reference
//! source with the one reported by a Bitcoin canister, and keeps both values
//! and their difference as gauges.
pub mod decimal;
pub mod error;
pub mod extract;
pub mod metrics;
pub mod pattern;

pub use decimal::parse_height;
pub use error::ServiceError;
pub use extract::{
    extract_height, fetch_bitcoin_block_height, fetch_bitcoin_canister_height, ExtractionRule,
};
pub use metrics::{
    complete_cycle, record_cycle, route, set_bitcoin_block_height,
    set_bitcoin_canister_block_height, set_block_height_difference, GaugeRegistry, Route,
};
pub use pattern::{apply, height_from_pattern, MetricPattern};
