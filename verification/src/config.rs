//! Configuration: two values read from the primary store's configuration,
//! falling back to defaults for missing or invalid entries.

use vstd::prelude::*;
use crate::gitio;

verus! {

/// Agent configuration sourced from the primary store's configuration.
#[derive(Debug, Clone, Copy, PartialEq, Eq, Structural)]
pub struct AutosnapConfig {
    /// Debounce window in milliseconds for the file watcher.
    pub debounce_ms: u64,
    /// Age threshold in days for compaction.
    pub compact_days: u32,
}

impl Default for AutosnapConfig {
    /// The defaults: a one-second debounce, sixty days of retention.
    fn default() -> (r: Self)
        ensures
            r.debounce_ms == 1000,
            r.compact_days == 60,
    {
        AutosnapConfig { debounce_ms: 1000, compact_days: 60 }
    }
}

impl AutosnapConfig {
    /// Build the configuration from raw configuration values: a value that
    /// is present and a non-negative integer in range is taken; anything
    /// else falls back to the default.
    pub fn from_values(debounce_ms: Option<i64>, compact_days: Option<i64>) -> (r: Self)
        ensures
            r.debounce_ms == (match debounce_ms {
                Some(v) => if v >= 0 {
                    v as u64
                } else {
                    1000u64
                },
                None => 1000u64,
            }),
            r.compact_days == (match compact_days {
                Some(v) => if 0 <= v <= 4294967295 {
                    v as u32
                } else {
                    60u32
                },
                None => 60u32,
            }),
    {
        let debounce: u64 = match debounce_ms {
            Some(v) => if v >= 0 {
                v as u64
            } else {
                1000
            },
            None => 1000,
        };
        let days: u32 = match compact_days {
            Some(v) => if v >= 0 && v <= 4294967295 {
                v as u32
            } else {
                60
            },
            None => 60,
        };
        AutosnapConfig { debounce_ms: debounce, compact_days: days }
    }

    /// Load configuration from the primary store's configuration keys;
    /// missing keys, unreadable configuration and invalid values all fall
    /// back to the defaults.
    pub fn load(repo_root: &String) -> (r: Self) {
        let debounce = gitio::discover_config_i64(repo_root, "autosnap.debounce-ms");
        let days = gitio::discover_config_i64(repo_root, "autosnap.compact.days");
        AutosnapConfig::from_values(debounce, days)
    }
}

} // verus!
