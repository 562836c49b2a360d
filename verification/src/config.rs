//! Plugin-side configuration: the broker property map with its filled-in
//! defaults, and the per-filter blocks.
//!
//! Reading the configuration file and building the broker client are
//! left to the unverified shell; the logic here is what the defaults do
//! to the property map.

use crate::topic::str_eq;
use vstd::prelude::*;

verus! {

/// Ghost model of the broker property map: key/value character
/// sequences in insertion order.
pub open spec fn kafka_view(m: Seq<(String, String)>) -> Seq<(Seq<char>, Seq<char>)> {
    Seq::new(m.len(), |i: int| (m[i].0@, m[i].1@))
}

/// Whether the property map holds `k` as a key.
pub open spec fn kafka_has_key(m: Seq<(Seq<char>, Seq<char>)>, k: Seq<char>) -> bool {
    exists|i: int| 0 <= i < m.len() && (#[trigger] m[i]).0 == k
}

/// Setting a default: a key already present is left alone, a missing
/// one is appended with the default value.
pub open spec fn spec_set_default(
    m: Seq<(Seq<char>, Seq<char>)>,
    k: Seq<char>,
    v: Seq<char>,
) -> Seq<(Seq<char>, Seq<char>)> {
    if kafka_has_key(m, k) {
        m
    } else {
        m.push((k, v))
    }
}

/// The four broker defaults, applied in order.
pub open spec fn spec_fill_defaults(m: Seq<(Seq<char>, Seq<char>)>) -> Seq<
    (Seq<char>, Seq<char>),
> {
    spec_set_default(
        spec_set_default(
            spec_set_default(
                spec_set_default(m, "request.required.acks"@, "1"@),
                "message.timeout.ms"@,
                "30000"@,
            ),
            "compression.type"@,
            "lz4"@,
        ),
        "partitioner"@,
        "murmur2_random"@,
    )
}

/// Plugin-side configuration: broker properties, the shutdown drain
/// bound and the filter blocks.
pub struct Config {
    pub libpath: String,
    pub kafka: Vec<(String, String)>,
    pub shutdown_timeout_ms: u64,
    pub filters: Vec<ConfigFilter>,
}

/// One filter block of the configuration file, with identifiers still
/// in their textual base58 form.
pub struct ConfigFilter {
    /// Topic for account updates.
    pub update_account_topic: String,
    /// Topic for slot status updates.
    pub slot_status_topic: String,
    /// Topic for transactions.
    pub transaction_topic: String,
    /// Programs to ignore.
    pub program_ignores: Vec<String>,
    /// Accounts to ignore.
    pub account_ignores: Vec<String>,
    /// Programs to include.
    pub program_filters: Vec<String>,
    /// Accounts to include.
    pub account_filters: Vec<String>,
    /// Publish all accounts on startup.
    pub publish_all_accounts: bool,
    /// Publish vote transactions.
    pub include_vote_transactions: bool,
    /// Publish failed transactions.
    pub include_failed_transactions: bool,
    /// Wrap every event message in the single envelope type.
    pub wrap_messages: bool,
}

impl Default for Config {
    /// An empty configuration with the default shutdown drain bound.
    fn default() -> (r: Self)
        ensures
            r.libpath@.len() == 0,
            r.kafka@.len() == 0,
            r.shutdown_timeout_ms == 30000,
            r.filters@.len() == 0,
    {
        Config {
            libpath: String::new(),
            kafka: Vec::new(),
            shutdown_timeout_ms: 30000,
            filters: Vec::new(),
        }
    }
}

impl Default for ConfigFilter {
    /// An empty filter block: no topics, no identifier lists, vote and
    /// failed transactions included, unwrapped wire mode.
    fn default() -> (r: Self)
        ensures
            r.update_account_topic@.len() == 0,
            r.slot_status_topic@.len() == 0,
            r.transaction_topic@.len() == 0,
            r.program_ignores@.len() == 0,
            r.account_ignores@.len() == 0,
            r.program_filters@.len() == 0,
            r.account_filters@.len() == 0,
            !r.publish_all_accounts,
            r.include_vote_transactions,
            r.include_failed_transactions,
            !r.wrap_messages,
    {
        ConfigFilter {
            update_account_topic: String::new(),
            slot_status_topic: String::new(),
            transaction_topic: String::new(),
            program_ignores: Vec::new(),
            account_ignores: Vec::new(),
            program_filters: Vec::new(),
            account_filters: Vec::new(),
            publish_all_accounts: false,
            include_vote_transactions: true,
            include_failed_transactions: true,
            wrap_messages: false,
        }
    }
}

impl Config {
    /// Append one broker property unless its key is already set.
    fn set_default(&mut self, k: &str, v: &str)
        ensures
            kafka_view(final(self).kafka@) == spec_set_default(
                kafka_view(old(self).kafka@),
                k@,
                v@,
            ),
            final(self).libpath == old(self).libpath,
            final(self).shutdown_timeout_ms == old(self).shutdown_timeout_ms,
            final(self).filters == old(self).filters,
    {
        let mut i: usize = 0;
        while i < self.kafka.len()
            invariant
                0 <= i <= self.kafka@.len(),
                forall|j: int|
                    0 <= j < i ==> (#[trigger] kafka_view(self.kafka@)[j]).0 != k@,
                *self == *old(self),
            decreases self.kafka@.len() - i,
        {
            if str_eq(self.kafka[i].0.as_str(), k) {
                proof {
                    assert(kafka_view(self.kafka@)[i as int].0 == k@);
                }
                return ;
            }
            i = i + 1;
        }
        let pair = (k.to_owned(), v.to_owned());
        self.kafka.push(pair);
        proof {
            assert(!kafka_has_key(kafka_view(old(self).kafka@), k@));
            assert(kafka_view(self.kafka@) =~= kafka_view(old(self).kafka@).push((k@, v@)));
        }
    }

    /// Fill in the four broker defaults: one required acknowledgement,
    /// a thirty-second message timeout, lz4 compression and the
    /// murmur2 random partitioner.
    pub fn fill_defaults(&mut self)
        ensures
            kafka_view(final(self).kafka@) == spec_fill_defaults(kafka_view(old(self).kafka@)),
            final(self).libpath == old(self).libpath,
            final(self).shutdown_timeout_ms == old(self).shutdown_timeout_ms,
            final(self).filters == old(self).filters,
    {
        self.set_default("request.required.acks", "1");
        self.set_default("message.timeout.ms", "30000");
        self.set_default("compression.type", "lz4");
        self.set_default("partitioner", "murmur2_random");
    }
}

} // verus!
