//! Structs and routing for API keys.

use vstd::prelude::*;
use vstd::string::StringExecFns;
use crate::errors::{invalid_operation, is_invalid_operation_error, APIError};
use crate::param::{param_id, Param};
use crate::request::Op;

verus! {

/// An API key with its validity, entitlements, etc.
#[derive(Clone, Debug)]
pub struct Key {
    /// Main ID, a UUID.
    pub uuid: String,
    /// Key validity from...
    pub valid_from: Option<String>,
    /// Key validity to.
    pub valid_to: Option<String>,
    /// Is this a usable key?
    pub enabled: bool,
    /// Is it an active one?
    pub is_active: bool,
    /// Creation date.
    pub created_at: String,
    /// Key label.
    pub label: String,
    /// Entitlements for the key.
    pub grants: Vec<Grant>,
    /// Key type.
    pub ktype: String,
}

/// The target a permission applies to.
#[derive(Clone, Debug)]
pub struct Target {
    pub ttype: String,
    pub id: String,
}

/// One entitlement of a given key.
#[derive(Clone, Debug)]
pub struct Grant {
    pub permission: String,
    pub target: Option<Target>,
}

/// A page of keys as the wire protocol shapes it.
#[derive(Clone, Debug)]
pub struct KeyList {
    /// How many results in this block.
    pub count: u32,
    /// URL to fetch the next block.
    pub next: String,
    /// URL to fetch the previous block.
    pub previous: String,
    /// Current key block.
    pub keys: Vec<Key>,
}

/// The keys routing table.
pub open spec fn key_path(op: Op, p: Param) -> Option<Seq<char>> {
    match op {
        Op::Permissions => Some("/keys/permissions/"@),
        Op::Targets => Some("/keys/permissions/"@ + param_id(p) + "/targets/"@),
        Op::Get => Some("/keys/"@ + param_id(p) + "/"@),
        Op::Put => Some("/keys/"@ + param_id(p) + "/"@),
        Op::Delete => Some("/keys/"@ + param_id(p) + "/"@),
        Op::List => Some("/keys/"@),
        Op::Create => Some("/keys/"@),
        _ => None,
    }
}

impl Key {
    /// The relative URL for the requested operation on keys.
    pub fn set_url(op: Op, p: Param) -> (r: Result<String, APIError>)
        ensures
            match key_path(op, p) {
                Some(s) => r matches Ok(u) && u@ == s,
                None => r matches Err(e) && is_invalid_operation_error(e),
            },
    {
        match op {
            Op::Permissions => Ok("/keys/permissions/".to_owned()),
            Op::Targets => {
                let mut s = "/keys/permissions/".to_owned();
                let id = p.id_string();
                s.append(id.as_str());
                s.append("/targets/");
                Ok(s)
            }
            Op::Get => {
                let mut s = "/keys/".to_owned();
                let id = p.id_string();
                s.append(id.as_str());
                s.append("/");
                Ok(s)
            }
            Op::Put => {
                let mut s = "/keys/".to_owned();
                let id = p.id_string();
                s.append(id.as_str());
                s.append("/");
                Ok(s)
            }
            Op::Delete => {
                let mut s = "/keys/".to_owned();
                let id = p.id_string();
                s.append(id.as_str());
                s.append("/");
                Ok(s)
            }
            Op::List => Ok("/keys/".to_owned()),
            Op::Create => Ok("/keys/".to_owned()),
            _ => Err(invalid_operation()),
        }
    }
}

} // verus!
