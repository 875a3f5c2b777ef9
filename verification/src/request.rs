//! The request machinery: operations, the routing dispatch table, the
//! request builder and its two execution strategies.
//!
//! A request starts from a `Client`, which fixes the category and injects the
//! API key into the options; an action keyword (`get`, `list`, `info`,
//! `update`, `delete`) then fixes the operation and the decoding strategy,
//! and the terminal value computes the full request URL.  Fetching the URL
//! and decoding the body belong to the application layer.

use vstd::prelude::*;
use vstd::string::StringExecFns;
use crate::anchor_measurements::{anchor_measurement_path, AnchorMeasurement};
use crate::anchors::{anchor_path, Anchor};
use crate::client::{Client, Ctx};
use crate::credits::{credits_op, credits_op_exec, credits_path, Credits};
use crate::errors::{invalid_operation, is_invalid_operation_error, APIError};
use crate::keys::{key_path, Key};
use crate::measurements::{measurement_path, Measurement};
use crate::option::{merge_entries, query_string_of, remove_entry, Options};
use crate::param::Param;
use crate::participation_requests::{participation_request_path, ParticipationRequests};
use crate::probes::{probe_path, Probe};
use crate::request::paged::Paged;
use crate::request::single::Single;

pub mod paged;
pub mod single;

verus! {

/// All operations available to the various calls: a flat list, though not
/// every operation is available in every category.
#[derive(Clone, Copy, Debug, PartialEq, Eq, Structural)]
pub enum Op {
    /// Null op.
    Null,
    /// For Probe.
    Archive,
    /// For Credits>Members.
    Claim,
    /// For Key, Measurement.
    Create,
    /// For Key, Measurement.
    Delete,
    /// Credits.
    Expenses,
    /// Anchor-Measurement, Anchors, Credits, Key, Measurement,
    /// Participation-Requests, Probes.
    Get,
    /// Credits.
    Incomes,
    /// Credits.
    Info,
    /// Anchor-Measurement, Anchors, Credits, Key, Measurement,
    /// Participation-Requests, Probes.
    List,
    /// Probe.
    Measurement,
    /// Credits.
    Members,
    /// Key.
    Permissions,
    /// Probe.
    Rankings,
    /// Key, Probe.
    Put,
    /// Probe.
    Slugs,
    /// Probe>Tag.
    Tags,
    /// Key>Permissions.
    Targets,
    /// Credits.
    Transactions,
    /// Credits.
    Transfers,
    /// Measurement, Probe.
    Update,
}

/// The HTTP method a request was created with.
#[derive(Clone, Copy, Debug, PartialEq, Eq, Structural)]
pub enum Method {
    Get,
    Post,
    Put,
    Delete,
}

/// How a call's result is shaped: one object, a collected page list, or
/// nothing.
#[derive(Debug)]
pub enum Return<T> {
    Single(T),
    Paged(Vec<T>),
    Null,
}

/// The terminal call of a request chain, implemented by the application
/// layer's executors.
pub trait Callable<T> {
    fn call(self) -> Result<Return<T>, APIError>;
}

/// The full routing table: which category owns the operation, and the
/// relative path it maps to.  `Ctx::Null` owns no table: every operation on
/// it is invalid.
pub open spec fn route_path(ctx: Ctx, op: Op, p: Param) -> Option<Seq<char>> {
    match ctx {
        Ctx::AnchorMeasurements => anchor_measurement_path(op, p),
        Ctx::Anchors => anchor_path(op, p),
        Ctx::Credits => credits_path(op, p),
        Ctx::Keys => key_path(op, p),
        Ctx::Measurements => measurement_path(op, p),
        Ctx::ParticipationRequests => participation_request_path(op, p),
        Ctx::Probes => probe_path(op, p),
        Ctx::Null => None,
    }
}

/// Dispatch to the category's routing table.  Exactly the `(ctx, op)` pairs
/// with a table entry resolve to a path; every other pair fails with the
/// `InvalidOperation` error, and no input panics.
pub fn get_ops_url(ctx: &Ctx, op: Op, p: Param) -> (r: Result<String, APIError>)
    ensures
        match route_path(*ctx, op, p) {
            Some(s) => r matches Ok(u) && u@ == s,
            None => r matches Err(e) && is_invalid_operation_error(e),
        },
{
    match ctx {
        Ctx::AnchorMeasurements => AnchorMeasurement::set_url(op, p),
        Ctx::Anchors => Anchor::set_url(op, p),
        Ctx::Credits => Credits::set_url(op, p),
        Ctx::Keys => Key::set_url(op, p),
        Ctx::Measurements => Measurement::set_url(op, p),
        Ctx::ParticipationRequests => ParticipationRequests::set_url(op, p),
        Ctx::Probes => Probe::set_url(op, p),
        Ctx::Null => Err(invalid_operation()),
    }
}

/// The routing table is a pure mapping: any two path strings that satisfy
/// `get_ops_url`'s contract for the same inputs are the same string.
pub proof fn lemma_route_deterministic(ctx: Ctx, op: Op, p: Param, r1: Seq<char>, r2: Seq<char>)
    requires
        route_path(ctx, op, p) == Some(r1),
        route_path(ctx, op, p) == Some(r2),
    ensures
        r1 == r2,
{
}

/// The operation that actually routes a call: for the Credits category the
/// reserved `"type"` option selects the wire view, whatever the nominal
/// operation; every other category uses the nominal operation.
pub open spec fn effective_op(ctx: Ctx, op: Op, opts: Seq<(Seq<char>, Seq<char>)>) -> Op {
    if ctx == Ctx::Credits {
        credits_op(opts)
    } else {
        op
    }
}

/// The relative path a call resolves to, `"type"` quirk included.
pub open spec fn resolved_path(
    ctx: Ctx,
    op: Op,
    p: Param,
    opts: Seq<(Seq<char>, Seq<char>)>,
) -> Option<Seq<char>> {
    route_path(ctx, effective_op(ctx, op, opts), p)
}

/// Compute the full URL of a call: base URL, resolved relative path, then
/// the options as a query string — with the internal `"type"` option left
/// out of the query, keys in ascending order.
pub fn build_call_url(ctx: &Ctx, op: Op, query: Param, base: &str, opts: &Options) -> (r: Result<
    String,
    APIError,
>)
    requires
        opts.wf(),
    ensures
        match resolved_path(*ctx, op, query, opts.entries()) {
            Some(path) => r matches Ok(u) && u@ == base@ + path + query_string_of(
                remove_entry(opts.entries(), "type"@),
            ),
            None => r matches Err(e) && is_invalid_operation_error(e),
        },
{
    let eff = match ctx {
        Ctx::Credits => credits_op_exec(opts),
        _ => op,
    };
    match get_ops_url(ctx, eff, query) {
        Ok(path) => {
            let stripped = opts.removed("type");
            let qs = stripped.to_query_string();
            let mut u = base.to_owned();
            u.append(path.as_str());
            u.append(qs.as_str());
            Ok(u)
        }
        Err(e) => Err(e),
    }
}

/// The chaining struct: all the state a request accumulates before its
/// terminal action.
#[derive(Debug)]
pub struct RequestBuilder {
    /// Which part of the API is targeted (`/probes/`, etc.).
    pub ctx: Ctx,
    /// Client configuration snapshot for the call.
    pub c: Client,
    /// Method to use for the HTTP call.
    pub kw: Method,
    /// Base URL the relative path will be appended to.
    pub url: String,
    /// Full operation.
    pub op: Op,
    /// Query parameter.
    pub query: Param,
}

impl RequestBuilder {
    /// An initial builder for the given category, client snapshot, method
    /// and base URL.
    pub fn new(ctx: Ctx, c: Client, kw: Method, url: String) -> (r: RequestBuilder)
        ensures
            r.ctx == ctx,
            r.c == c,
            r.kw == kw,
            r.url == url,
            r.op == Op::Null,
            r.query == Param::Null,
    {
        RequestBuilder { ctx, c, kw, url, op: Op::Null, query: Param::Null }
    }

    /// Overlay extra options onto the accumulated ones; the caller's values
    /// win.
    pub fn with(self, o: &Options) -> (r: RequestBuilder)
        requires
            self.c.opts.wf(),
        ensures
            r.c.opts.wf(),
            r.c.opts.entries() == merge_entries(self.c.opts.entries(), o.entries()),
            r.ctx == self.ctx,
            r.kw == self.kw,
            r.url == self.url,
            r.op == self.op,
            r.query == self.query,
            r.c.api_key == self.c.api_key,
            r.c.endpoint == self.c.endpoint,
    {
        let RequestBuilder { ctx, mut c, kw, url, op, query } = self;
        c.opts.merge(o);
        RequestBuilder { ctx, c, kw, url, op, query }
    }

    /// Terminal action: fetch one object selected by `data`.
    pub fn get(self, data: Param) -> (r: Single)
        requires
            self.c.opts.wf(),
        ensures
            r.ctx == self.ctx,
            r.opts.wf(),
            r.opts.entries() == self.c.opts.entries(),
            r.query == data,
            r.m == self.kw,
            r.url == self.url,
            r.op == Op::Get,
    {
        let opts = self.c.opts.duplicate();
        Single { ctx: self.ctx, opts, query: data, m: self.kw, url: self.url, c: self.c, op: Op::Get }
    }

    /// Terminal action: fetch the paginated list selected by `data`.
    pub fn list(self, data: Param) -> (r: Paged)
        requires
            self.c.opts.wf(),
        ensures
            r.ctx == self.ctx,
            r.opts.wf(),
            r.opts.entries() == self.c.opts.entries(),
            r.query == data,
            r.m == self.kw,
            r.url == self.url,
            r.op == Op::List,
    {
        let opts = self.c.opts.duplicate();
        Paged { ctx: self.ctx, opts, query: data, m: self.kw, url: self.url, c: self.c, op: Op::List }
    }

    /// Terminal action: fetch one object, without a parameter.
    pub fn info(self) -> (r: Single)
        requires
            self.c.opts.wf(),
        ensures
            r.ctx == self.ctx,
            r.opts.wf(),
            r.opts.entries() == self.c.opts.entries(),
            r.query == Param::Null,
            r.m == self.kw,
            r.url == self.url,
            r.op == Op::Info,
    {
        let opts = self.c.opts.duplicate();
        Single {
            ctx: self.ctx,
            opts,
            query: Param::Null,
            m: self.kw,
            url: self.url,
            c: self.c,
            op: Op::Info,
        }
    }

    /// Terminal action: update the object selected by `data`.
    pub fn update(self, data: Param) -> (r: Single)
        requires
            self.c.opts.wf(),
        ensures
            r.ctx == self.ctx,
            r.opts.wf(),
            r.opts.entries() == self.c.opts.entries(),
            r.query == data,
            r.m == self.kw,
            r.url == self.url,
            r.op == Op::Update,
    {
        let opts = self.c.opts.duplicate();
        Single {
            ctx: self.ctx,
            opts,
            query: data,
            m: self.kw,
            url: self.url,
            c: self.c,
            op: Op::Update,
        }
    }

    /// Terminal action: delete the object selected by `data`.
    pub fn delete(self, data: Param) -> (r: Single)
        requires
            self.c.opts.wf(),
        ensures
            r.ctx == self.ctx,
            r.opts.wf(),
            r.opts.entries() == self.c.opts.entries(),
            r.query == data,
            r.m == self.kw,
            r.url == self.url,
            r.op == Op::Delete,
    {
        let opts = self.c.opts.duplicate();
        Single {
            ctx: self.ctx,
            opts,
            query: data,
            m: self.kw,
            url: self.url,
            c: self.c,
            op: Op::Delete,
        }
    }

    /// Terminal action: post an update for the object selected by `data`.
    pub fn post(self, data: Param) -> (r: Single)
        requires
            self.c.opts.wf(),
        ensures
            r.ctx == self.ctx,
            r.opts.wf(),
            r.opts.entries() == self.c.opts.entries(),
            r.query == data,
            r.m == self.kw,
            r.url == self.url,
            r.op == Op::Update,
    {
        self.update(data)
    }
}

/// Append a set of options to a URL as a query string, keys in ascending
/// order.
pub fn add_opts(url: &str, opts: &Options) -> (r: String)
    ensures
        r@ == url@ + query_string_of(opts.entries()),
{
    let qs = opts.to_query_string();
    let mut u = url.to_owned();
    u.append(qs.as_str());
    u
}

} // verus!
