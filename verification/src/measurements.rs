//! Structs and routing for measurements.

use vstd::prelude::*;
use vstd::string::StringExecFns;
use crate::errors::{invalid_operation, is_invalid_operation_error, APIError};
use crate::param::{param_id, Param};
use crate::request::Op;

verus! {

/// Data about a given measurement.  The measurement payload is not modelled
/// by the core; the application layer decodes what it needs.
#[derive(Clone, Debug)]
pub struct Measurement {
    /// Measurement ID.
    pub id: u32,
}

/// The measurements routing table.
pub open spec fn measurement_path(op: Op, p: Param) -> Option<Seq<char>> {
    match op {
        Op::Get => Some("/measurements/"@ + param_id(p) + "/"@),
        Op::List => Some("/measurements/"@),
        _ => None,
    }
}

impl Measurement {
    /// The relative URL for the requested operation on measurements.
    pub fn set_url(op: Op, p: Param) -> (r: Result<String, APIError>)
        ensures
            match measurement_path(op, p) {
                Some(s) => r matches Ok(u) && u@ == s,
                None => r matches Err(e) && is_invalid_operation_error(e),
            },
    {
        match op {
            Op::Get => {
                let mut s = "/measurements/".to_owned();
                let id = p.id_string();
                s.append(id.as_str());
                s.append("/");
                Ok(s)
            }
            Op::List => Ok("/measurements/".to_owned()),
            _ => Err(invalid_operation()),
        }
    }
}

} // verus!
