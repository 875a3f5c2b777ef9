//! Structs and routing for participation requests.

use vstd::prelude::*;
use vstd::string::StringExecFns;
use crate::errors::{invalid_operation, is_invalid_operation_error, APIError};
use crate::param::{param_id, Param};
use crate::request::Op;

verus! {

/// Data about a given participation request.
#[derive(Clone, Debug)]
pub struct ParticipationRequests {
    pub requested: u32,
    pub rtype: String,
    pub value: String,
    pub action: String,
    pub tags_include: String,
    pub tags_exclude: String,
    pub id: u32,
    pub created_at: u32,
}

/// The participation-requests routing table.
pub open spec fn participation_request_path(op: Op, p: Param) -> Option<Seq<char>> {
    match op {
        Op::Get => Some("/participation-requests/"@ + param_id(p) + "/"@),
        Op::List => Some("/participation-requests/"@),
        _ => None,
    }
}

impl ParticipationRequests {
    /// The relative URL for the requested operation on participation
    /// requests.
    pub fn set_url(op: Op, p: Param) -> (r: Result<String, APIError>)
        ensures
            match participation_request_path(op, p) {
                Some(s) => r matches Ok(u) && u@ == s,
                None => r matches Err(e) && is_invalid_operation_error(e),
            },
    {
        match op {
            Op::Get => {
                let mut s = "/participation-requests/".to_owned();
                let id = p.id_string();
                s.append(id.as_str());
                s.append("/");
                Ok(s)
            }
            Op::List => Ok("/participation-requests/".to_owned()),
            _ => Err(invalid_operation()),
        }
    }
}

} // verus!
