//! Structs and routing for anchors.

use vstd::prelude::*;
use vstd::string::StringExecFns;
use crate::errors::{invalid_operation, is_invalid_operation_error, APIError};
use crate::param::{param_id, Param};
use crate::request::Op;

verus! {

/// Data about a given anchor.  Geolocation coordinates are not carried here;
/// they stay with the application layer.
#[derive(Clone, Debug)]
pub struct Anchor {
    /// The id of the anchor.
    pub id: i64,
    /// The type of the object.
    pub atype: String,
    /// The fully qualified domain name of the anchor.
    pub fqdn: String,
    /// The id of the probe that is hosted on this anchor.
    pub probe: i64,
    /// Is it IPv4-only?
    pub is_ipv4_only: bool,
    /// The IPv4 address (if any) of this anchor.
    pub ip_v4: Option<String>,
    /// The IPv4 AS this anchor belongs to.
    pub as_v4: i64,
    /// The IPv4 gateway address of this anchor.
    pub ip_v4_gateway: String,
    /// The IPv4 netmask for the IP address of this anchor.
    pub ip_v4_netmask: String,
    /// The IPv6 address (if any) of this anchor.
    pub ip_v6: Option<String>,
    /// The IPv6 AS this anchor belongs to.
    pub as_v6: i64,
    /// The IPv6 gateway address of this anchor.
    pub ip_v6_gateway: String,
    /// The IPv6 prefix of this anchor.
    pub ip_v6_prefix: i64,
    /// The city this anchor is located in.
    pub city: String,
    /// An ISO-3166-1 alpha-2 code for the country this anchor is located in.
    pub country: String,
    /// Installed TLSA DNS resource record on this anchor.
    pub tlsa_record: String,
    /// Is it disabled?
    pub is_disabled: bool,
    /// Date the anchor went live.
    pub date_live: String,
    /// Hardware version.
    pub hardware_version: i32,
}

/// The anchors routing table.
pub open spec fn anchor_path(op: Op, p: Param) -> Option<Seq<char>> {
    match op {
        Op::Get => Some("/anchors/"@ + param_id(p) + "/"@),
        Op::List => Some("/anchors/"@),
        _ => None,
    }
}

impl Anchor {
    /// The relative URL for the requested operation on anchors.
    pub fn set_url(op: Op, p: Param) -> (r: Result<String, APIError>)
        ensures
            match anchor_path(op, p) {
                Some(s) => r matches Ok(u) && u@ == s,
                None => r matches Err(e) && is_invalid_operation_error(e),
            },
    {
        match op {
            Op::Get => {
                let mut s = "/anchors/".to_owned();
                let id = p.id_string();
                s.append(id.as_str());
                s.append("/");
                Ok(s)
            }
            Op::List => Ok("/anchors/".to_owned()),
            _ => Err(invalid_operation()),
        }
    }
}

} // verus!
