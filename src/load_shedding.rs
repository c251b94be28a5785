//! Load-shedding limits of the executor.
use vstd::prelude::*;

verus! {

/// Fallback for the number of transactions allowed in flight.
pub const DEFAULT_MAX_TRANSACTIONS_IN_FLIGHT: u64 = 12000;

/// Fallback for the time between two batch productions, in milliseconds.
pub const DEFAULT_BATCH_PRODUCTION_TIME: u64 = 1000;

/// Limits on the transactions the executor accepts.
#[derive(Clone, Copy, Debug, PartialEq, Eq, Structural)]
pub struct Config {
    /// The maximum number of transactions permitted to be in flight
    /// before new transactions are rejected.
    pub max_transactions_in_flight: Option<u64>,
    /// Time between two batch productions.
    pub batch_production_time: u64,
}

impl Default for Config {
    fn default() -> (r: Config)
        ensures
            r.max_transactions_in_flight == Some(DEFAULT_MAX_TRANSACTIONS_IN_FLIGHT),
            r.batch_production_time == DEFAULT_BATCH_PRODUCTION_TIME,
    {
        Config {
            max_transactions_in_flight: Some(DEFAULT_MAX_TRANSACTIONS_IN_FLIGHT),
            batch_production_time: DEFAULT_BATCH_PRODUCTION_TIME,
        }
    }
}

} // verus!
