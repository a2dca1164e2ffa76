//! Configuration of the watcher.

use vstd::prelude::*;

verus! {

/// Confirmation threshold used where none is given, in blocks.
pub const DEFAULT_CONFIRMATION_THRESHOLD: u64 = 12;

/// Poll interval used where none is given, in seconds.
pub const DEFAULT_POLL_INTERVAL_SECS: u64 = 5;

/// Address of the node's RPC endpoint used where none is given.
pub fn default_rpc_url() -> (url: String)
    ensures
        url@ == "http://localhost:8545"@,
{
    "http://localhost:8545".to_string()
}

/// Settings of one watcher. The confirmation threshold is advisory: it is
/// attached to what is reported and gates nothing.
#[derive(Debug, Clone, PartialEq, Eq)]
pub struct MinerConfig {
    pub rpc_url: String,
    pub confirmation_threshold: u64,
    pub poll_interval_secs: u64,
}

impl MinerConfig {
    /// A configuration is valid when its poll interval is not zero.
    pub open spec fn wf(&self) -> bool {
        self.poll_interval_secs > 0
    }

    /// Builds a configuration, or `None` where the poll interval is zero.
    pub fn new(rpc_url: String, confirmation_threshold: u64, poll_interval_secs: u64) -> (config:
        Option<MinerConfig>)
        ensures
            poll_interval_secs == 0 <==> config is None,
            config matches Some(c) ==> {
                &&& c.wf()
                &&& c.rpc_url == rpc_url
                &&& c.confirmation_threshold == confirmation_threshold
                &&& c.poll_interval_secs == poll_interval_secs
            },
    {
        if poll_interval_secs == 0 {
            None
        } else {
            Some(MinerConfig { rpc_url, confirmation_threshold, poll_interval_secs })
        }
    }

    /// Tells whether the configuration is valid.
    pub fn is_valid(&self) -> (valid: bool)
        ensures
            valid == self.wf(),
    {
        self.poll_interval_secs > 0
    }
}

} // verus!
