//! The settings of a server.

use vstd::prelude::*;

verus! {

/// Server configuration.
#[derive(Clone, Debug)]
pub struct Config {
    /// Socket address to listen on (e.g. `127.0.0.1:8420`).
    pub listen: String,
    /// Maximum size in bytes of a single stored object.
    pub max_object_size: u64,
    /// Maximum number of objects that may be held in storage at once.
    pub max_objects: u64,
    /// Maximum number of concurrent requests allowed at any moment.
    pub max_slots: usize,
    /// Maximum age of a stored object in seconds before it is pruned.
    pub max_age_secs: u64,
    /// Interval in seconds between pruner runs.
    pub prune_secs: u64,
}

impl Default for Config {
    /// Objects of up to 1 MB, of which 256 are held for an hour.
    fn default() -> (config: Self)
        ensures
            config.listen@ == "127.0.0.1:8420"@,
            config.max_object_size == 1_000_000,
            config.max_objects == 256,
            config.max_slots == 10,
            config.max_age_secs == 60 * 60,
            config.prune_secs == 60,
    {
        Config {
            listen: "127.0.0.1:8420".to_string(),
            max_object_size: 1_000_000,
            max_objects: 256,
            max_slots: 10,
            max_age_secs: 60 * 60,
            prune_secs: 60,
        }
    }
}

} // verus!
