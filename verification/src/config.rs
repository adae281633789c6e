//! Startup configuration. The bucket name and the region are read from
//! the environment once, before any client is built: if either is
//! missing, the program stops with an error before any network call is
//! attempted. The region value is required but the connection itself
//! falls back through a provider chain.

use vstd::prelude::*;

verus! {

/// The configuration a run starts from, built once and passed by
/// reference to every operation.
pub struct AppConfig {
    pub bucket: String,
    pub region: String,
}

/// Why startup stopped: a required environment value was missing.
#[derive(PartialEq, Eq, Structural, Debug)]
pub enum ConfigError {
    MissingBucket,
    MissingRegion,
}

/// Resolves the startup configuration from the environment's bucket and
/// region values: both must be present, and the bucket is checked first.
pub fn resolve_config(bucket: Option<String>, region: Option<String>) -> (r: Result<
    AppConfig,
    ConfigError,
>)
    ensures
        (bucket is Some && region is Some) <==> r is Ok,
        r matches Ok(c) ==> c.bucket@ == bucket->Some_0@ && c.region@ == region->Some_0@,
        bucket is None ==> (r matches Err(e) && e == ConfigError::MissingBucket),
        bucket is Some && region is None ==> (r matches Err(e) && e == ConfigError::MissingRegion),
{
    match bucket {
        None => Err(ConfigError::MissingBucket),
        Some(b) => match region {
            None => Err(ConfigError::MissingRegion),
            Some(g) => Ok(AppConfig { bucket: b, region: g }),
        },
    }
}

} // verus!
