//! Consumer-side configuration: broker properties, sink connection,
//! topic names and the batching knobs.  File reading stays in the
//! unverified shell; the defaults for the batching knobs live here.

use vstd::prelude::*;

verus! {

/// Connection settings of the analytical store.
pub struct ClickHouseConfig {
    pub url: String,
    pub database: String,
    pub username: String,
    pub password: String,
}

/// The three topics the consumer subscribes to.
pub struct TopicConfig {
    pub accounts: String,
    pub slots: String,
    pub transactions: String,
}

/// Consumer-side configuration.
pub struct Config {
    pub kafka: Vec<(String, String)>,
    pub clickhouse: ClickHouseConfig,
    pub topics: TopicConfig,
    pub batch_size: usize,
    pub flush_interval_ms: u64,
}

/// The buffer threshold used when the configuration names none.
pub fn default_batch_size() -> (r: usize)
    ensures
        r == 1000,
{
    1000
}

/// The flush timer interval used when the configuration names none.
pub fn default_flush_interval() -> (r: u64)
    ensures
        r == 5000,
{
    5000
}

} // verus!
