//! The call parameter: a closed tagged union carrying the heterogeneous
//! argument an API call may need (an integer id, a string id, a list of query
//! fragments, or nothing).
//!
//! Conversions to and from primitive types are total: reading a mismatched
//! variant yields the documented default (zero or empty), never a failure.

use vstd::prelude::*;
use crate::strutil::{dec_digits, dec_int, i32_string, i64_string, join_amp, join_amp_exec,
    u32_string};

verus! {

/// The parameter of an API call.
#[derive(Clone, Debug, PartialEq, Eq)]
pub enum Param {
    /// An array of query fragments (i.e. "country=fr", "area=WW").
    A(Vec<String>),
    /// A signed 32-bit integer.
    I(i32),
    /// An unsigned 32-bit integer.
    U(u32),
    /// A signed 64-bit integer.
    L(i64),
    /// A string.
    S(String),
    /// Nothing.
    Null,
}

/// The number a parameter carries for an unsigned 32-bit context; 0 for any
/// other variant.
pub open spec fn param_to_u32(p: Param) -> u32 {
    match p {
        Param::U(n) => n,
        _ => 0,
    }
}

/// The number a parameter carries for a signed 32-bit context; 0 for any
/// other variant.
pub open spec fn param_to_i32(p: Param) -> i32 {
    match p {
        Param::I(n) => n,
        _ => 0,
    }
}

/// The number a parameter carries for a signed 64-bit context; 0 for any
/// other variant.
pub open spec fn param_to_i64(p: Param) -> i64 {
    match p {
        Param::L(n) => n,
        _ => 0,
    }
}

/// How a parameter renders into the `{id}` slot of a resource path: integers
/// in decimal, a string as itself, anything else empty.
pub open spec fn param_id(p: Param) -> Seq<char> {
    match p {
        Param::U(n) => dec_digits(n as nat),
        Param::I(n) => dec_int(n as int),
        Param::L(n) => dec_int(n as int),
        Param::S(s) => s@,
        Param::A(_) => Seq::empty(),
        Param::Null => Seq::empty(),
    }
}

/// The query fragments a parameter carries; empty for non-array variants.
pub open spec fn param_fragments(p: Param) -> Seq<Seq<char>> {
    match p {
        Param::A(v) => v.deep_view(),
        _ => Seq::empty(),
    }
}

impl Param {
    /// Render this parameter for the `{id}` slot of a resource path.
    pub fn id_string(&self) -> (r: String)
        ensures
            r@ == param_id(*self),
    {
        match self {
            Param::U(n) => u32_string(*n),
            Param::I(n) => i32_string(*n),
            Param::L(n) => i64_string(*n),
            Param::S(s) => s.clone(),
            Param::A(_) => String::new(),
            Param::Null => String::new(),
        }
    }

    /// The carried query fragments joined by `'&'`; empty for non-array
    /// variants.
    pub fn joined_fragments(&self) -> (r: String)
        ensures
            r@ == join_amp(param_fragments(*self)),
    {
        match self {
            Param::A(v) => join_amp_exec(v),
            _ => String::new(),
        }
    }
}

impl Default for Param {
    /// The empty parameter.
    fn default() -> (r: Param)
        ensures
            r == Param::Null,
    {
        Param::Null
    }
}

impl vstd::std_specs::convert::FromSpecImpl<u32> for Param {
    open spec fn obeys_from_spec() -> bool {
        true
    }

    open spec fn from_spec(v: u32) -> Param {
        Param::U(v)
    }
}

impl From<u32> for Param {
    fn from(v: u32) -> (r: Param) {
        Param::U(v)
    }
}

impl vstd::std_specs::convert::FromSpecImpl<i32> for Param {
    open spec fn obeys_from_spec() -> bool {
        true
    }

    open spec fn from_spec(v: i32) -> Param {
        Param::I(v)
    }
}

impl From<i32> for Param {
    fn from(v: i32) -> (r: Param) {
        Param::I(v)
    }
}

impl vstd::std_specs::convert::FromSpecImpl<i64> for Param {
    open spec fn obeys_from_spec() -> bool {
        true
    }

    open spec fn from_spec(v: i64) -> Param {
        Param::L(v)
    }
}

impl From<i64> for Param {
    fn from(v: i64) -> (r: Param) {
        Param::L(v)
    }
}

impl vstd::std_specs::convert::FromSpecImpl<Param> for u32 {
    open spec fn obeys_from_spec() -> bool {
        true
    }

    open spec fn from_spec(p: Param) -> u32 {
        param_to_u32(p)
    }
}

impl From<Param> for u32 {
    fn from(p: Param) -> (r: u32) {
        match p {
            Param::U(v) => v,
            _ => 0,
        }
    }
}

impl vstd::std_specs::convert::FromSpecImpl<Param> for i32 {
    open spec fn obeys_from_spec() -> bool {
        true
    }

    open spec fn from_spec(p: Param) -> i32 {
        param_to_i32(p)
    }
}

impl From<Param> for i32 {
    fn from(p: Param) -> (r: i32) {
        match p {
            Param::I(v) => v,
            _ => 0,
        }
    }
}

impl vstd::std_specs::convert::FromSpecImpl<Param> for i64 {
    open spec fn obeys_from_spec() -> bool {
        true
    }

    open spec fn from_spec(p: Param) -> i64 {
        param_to_i64(p)
    }
}

impl From<Param> for i64 {
    fn from(p: Param) -> (r: i64) {
        match p {
            Param::L(v) => v,
            _ => 0,
        }
    }
}

/// Round trips of the parameter conversions: a number wrapped in its variant
/// reads back unchanged, and a mismatched variant reads as the default 0.
pub proof fn lemma_param_round_trip(n: u32, m: i32, l: i64, p: Param)
    ensures
        param_to_u32(Param::U(n)) == n,
        param_to_i32(Param::I(m)) == m,
        param_to_i64(Param::L(l)) == l,
        !(p matches Param::U(_)) ==> param_to_u32(p) == 0,
        !(p matches Param::I(_)) ==> param_to_i32(p) == 0,
        !(p matches Param::L(_)) ==> param_to_i64(p) == 0,
{
}

} // verus!
