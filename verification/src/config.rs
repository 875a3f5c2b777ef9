//! Configuration for clients of this library: the values a configuration
//! file carries, with their defaults.
//!
//! Reading and parsing the file itself is the application layer's job; it
//! hands the parsed values over as this plain snapshot.

use vstd::prelude::*;

verus! {

/// Default set of probes to be used for queries.
#[derive(Clone, Debug, PartialEq, Eq)]
pub struct ProbeSet {
    /// How many probes do we want.
    pub pool_size: Option<usize>,
    /// Probe type.
    pub ptype: Option<String>,
    /// Value for the probe type.
    pub value: Option<String>,
    /// Include/exclude specific tags.
    pub tags: Option<String>,
}

/// Billing the queries to a specific account, different from the one behind
/// the API key.
#[derive(Clone, Debug, PartialEq, Eq)]
pub struct Measurements {
    /// Account ID to be billed for subsequent queries.
    pub bill_to: String,
}

/// The configuration: one mandatory API key and optional settings.
#[derive(Clone, Debug)]
pub struct Config {
    /// API key.
    pub api_key: String,
    /// Default probe ID.
    pub default_probe: Option<u32>,
    /// Default set of probes.
    pub probe_set: Option<ProbeSet>,
    /// Billing to a specific account.
    pub measurements: Option<Measurements>,
}

/// The defaults a fresh configuration holds, placeholder key included.
pub open spec fn is_default_config(c: Config) -> bool {
    &&& c.api_key@ == "<CHANGEME>"@
    &&& c.default_probe == Some(0u32)
    &&& c.probe_set matches Some(p) && {
        &&& p.pool_size == Some(10usize)
        &&& p.ptype matches Some(t) && t@ == "area"@
        &&& p.value matches Some(v) && v@ == "WW"@
        &&& p.tags matches Some(t) && t@ == ""@
    }
    &&& c.measurements is None
}

impl Config {
    /// A configuration with the default values.
    pub fn new() -> (r: Config)
        ensures
            is_default_config(r),
    {
        Config {
            api_key: "<CHANGEME>".to_owned(),
            default_probe: Some(0),
            probe_set: Some(
                ProbeSet {
                    pool_size: Some(10),
                    ptype: Some("area".to_owned()),
                    value: Some("WW".to_owned()),
                    tags: Some("".to_owned()),
                },
            ),
            measurements: None,
        }
    }
}

impl Default for Config {
    /// A configuration with the default values.
    fn default() -> (r: Config)
        ensures
            is_default_config(r),
    {
        Config::new()
    }
}

} // verus!
