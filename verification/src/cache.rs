//! The settings of the cache of answers.

use vstd::prelude::*;

verus! {

/// How many answers are kept, and for how many seconds.
#[derive(Clone, Copy, Debug, PartialEq, Eq, Structural)]
pub struct CacheConfig {
    pub capacity: u64,
    pub ttl: u64,
}

impl Default for CacheConfig {
    fn default() -> (config: Self)
        ensures
            config == (CacheConfig { capacity: 100, ttl: 60 }),
    {
        Self { capacity: Self::default_capacity(), ttl: Self::default_ttl() }
    }
}

impl CacheConfig {
    pub fn default_capacity() -> (capacity: u64)
        ensures
            capacity == 100,
    {
        100
    }

    pub fn default_ttl() -> (ttl: u64)
        ensures
            ttl == 60,
    {
        60
    }
}

} // verus!
