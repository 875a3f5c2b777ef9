//! Structs and routing for probes.
//!
//! Probes are one of the main objects in the API: devices in various places
//! (homes, datacenters, etc.) used for measurements.

use vstd::prelude::*;
use vstd::string::StringExecFns;
use crate::errors::{invalid_operation, is_invalid_operation_error, APIError};
use crate::param::{param_fragments, param_id, Param};
use crate::request::Op;
use crate::strutil::join_amp;

verus! {

/// The current status of a probe.
#[derive(Clone, Debug)]
pub struct Status {
    /// Date.
    pub since: Option<String>,
    /// Status ID.
    pub id: u32,
    /// Status: connected, etc.
    pub name: String,
}

/// A tag on a probe; most are generated by the API, some can be added.
#[derive(Clone, Debug)]
pub struct Tag {
    /// Free-text name like "system: IPv4 works".
    pub name: String,
    /// Value like "system-ipv4-works".
    pub slug: String,
}

/// All information about a given probe.  Many fields are optional: without
/// an API key the service masks information rather than failing.
/// Geolocation coordinates are not carried here; they stay with the
/// application layer.
#[derive(Clone, Debug)]
pub struct Probe {
    /// IPv4 address.
    pub address_v4: Option<String>,
    /// IPv6 address.
    pub address_v6: Option<String>,
    /// IPv4 Autonomous System ID.
    pub asn_v4: Option<u32>,
    /// IPv6 Autonomous System ID.
    pub asn_v6: Option<u32>,
    /// ISO 3166 country code.
    pub country_code: Option<String>,
    /// Free text description.
    pub description: Option<String>,
    /// First connection.
    pub first_connected: Option<u32>,
    /// Probe ID.
    pub id: u32,
    /// Is it an anchor?
    pub is_anchor: bool,
    /// Is it public?
    pub is_public: bool,
    /// POSIX time since last connect.
    pub last_connected: Option<u32>,
    /// IPv4 network prefix.
    pub prefix_v4: Option<String>,
    /// IPv6 network prefix.
    pub prefix_v6: Option<String>,
    /// Probe status.
    pub status: Status,
    /// Integer time.
    pub status_since: Option<u32>,
    /// System and user tags.
    pub tags: Vec<Tag>,
    /// Total uptime.
    pub total_uptime: u32,
    /// Probe type.
    pub ptype: String,
}

/// A page of probes as the wire protocol shapes it.
#[derive(Clone, Debug)]
pub struct ProbeList {
    /// How many results in this block.
    pub count: u32,
    /// URL to fetch the next block.
    pub next: String,
    /// URL to fetch the previous block.
    pub previous: String,
    /// Current probe block.
    pub probes: Vec<Probe>,
}

/// The probes routing table.
pub open spec fn probe_path(op: Op, p: Param) -> Option<Seq<char>> {
    match op {
        Op::List => Some("/probes/?"@ + join_amp(param_fragments(p))),
        Op::Get => Some("/probes/"@ + param_id(p) + "/"@),
        Op::Put => Some("/probes/"@ + param_id(p) + "/"@),
        Op::Update => Some("/probes/"@ + param_id(p) + "/"@),
        Op::Measurement => Some("/probes/"@ + param_id(p) + "/measurements/"@),
        Op::Archive => Some("/probes/archive/"@),
        Op::Rankings => Some("/probes/rankings/"@),
        Op::Tags => Some("/probes/tags/"@),
        Op::Slugs => Some("/probes/tags/"@ + param_id(p) + "/slugs"@),
        _ => None,
    }
}

impl Probe {
    /// The relative URL for the requested operation on probes.
    pub fn set_url(op: Op, p: Param) -> (r: Result<String, APIError>)
        ensures
            match probe_path(op, p) {
                Some(s) => r matches Ok(u) && u@ == s,
                None => r matches Err(e) && is_invalid_operation_error(e),
            },
    {
        match op {
            Op::List => {
                let mut s = "/probes/?".to_owned();
                let qs = p.joined_fragments();
                s.append(qs.as_str());
                Ok(s)
            }
            Op::Get => {
                let mut s = "/probes/".to_owned();
                let id = p.id_string();
                s.append(id.as_str());
                s.append("/");
                Ok(s)
            }
            Op::Put => {
                let mut s = "/probes/".to_owned();
                let id = p.id_string();
                s.append(id.as_str());
                s.append("/");
                Ok(s)
            }
            Op::Update => {
                let mut s = "/probes/".to_owned();
                let id = p.id_string();
                s.append(id.as_str());
                s.append("/");
                Ok(s)
            }
            Op::Measurement => {
                let mut s = "/probes/".to_owned();
                let id = p.id_string();
                s.append(id.as_str());
                s.append("/measurements/");
                Ok(s)
            }
            Op::Archive => Ok("/probes/archive/".to_owned()),
            Op::Rankings => Ok("/probes/rankings/".to_owned()),
            Op::Tags => Ok("/probes/tags/".to_owned()),
            Op::Slugs => {
                let mut s = "/probes/tags/".to_owned();
                let id = p.id_string();
                s.append(id.as_str());
                s.append("/slugs");
                Ok(s)
            }
            _ => Err(invalid_operation()),
        }
    }
}

} // verus!
