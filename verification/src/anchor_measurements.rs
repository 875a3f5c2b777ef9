//! Structs and routing for anchor measurements.

use vstd::prelude::*;
use vstd::string::StringExecFns;
use crate::errors::{invalid_operation, is_invalid_operation_error, APIError};
use crate::param::{param_id, Param};
use crate::request::Op;

verus! {

/// Data about an anchor targeted by a measurement.
#[derive(Clone, Debug)]
pub struct AnchorMeasurement {
    /// Creation date.
    pub date_created: String,
    /// Last modification date.
    pub date_modified: String,
    /// ID of the target measurement.
    pub id: u32,
    /// Whether the measurement is part of the anchoring mesh.
    pub is_mesh: bool,
    /// URL of the actual measurement.
    pub measurement: String,
    /// URL of the anchor the measurement is targeted at.
    pub target: String,
    /// Measurement type of the involved measurement.
    pub mtype: String,
}

/// The anchor-measurements routing table.
pub open spec fn anchor_measurement_path(op: Op, p: Param) -> Option<Seq<char>> {
    match op {
        Op::Get => Some("/anchor-measurements/"@ + param_id(p) + "/"@),
        Op::List => Some("/anchor-measurements/"@),
        _ => None,
    }
}

impl AnchorMeasurement {
    /// The relative URL for the requested operation on anchor measurements.
    pub fn set_url(op: Op, p: Param) -> (r: Result<String, APIError>)
        ensures
            match anchor_measurement_path(op, p) {
                Some(s) => r matches Ok(u) && u@ == s,
                None => r matches Err(e) && is_invalid_operation_error(e),
            },
    {
        match op {
            Op::Get => {
                let mut s = "/anchor-measurements/".to_owned();
                let id = p.id_string();
                s.append(id.as_str());
                s.append("/");
                Ok(s)
            }
            Op::List => Ok("/anchor-measurements/".to_owned()),
            _ => Err(invalid_operation()),
        }
    }
}

} // verus!
