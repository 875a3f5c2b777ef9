//! The `Single` execution strategy: one object fetched from one URL.
//!
//! The value accumulates everything a single-object call needs; its terminal
//! computation is the full request URL.  Fetching and decoding belong to the
//! application layer.

use vstd::prelude::*;
use crate::client::{Client, Ctx};
use crate::errors::{is_invalid_operation_error, APIError};
use crate::option::{merge_entries, query_string_of, remove_entry, Options};
use crate::param::Param;
use crate::request::{build_call_url, resolved_path, Method, Op};

verus! {

/// A one-shot single-object request: consumed by its terminal computation.
#[derive(Debug)]
pub struct Single {
    /// Which part of the API is targeted (`/probes/`, etc.).
    pub ctx: Ctx,
    /// Options: merge of caller input and defaults.
    pub opts: Options,
    /// Parameter given to the action keyword; `Param::Null` for `info()`.
    pub query: Param,
    /// The HTTP method fixed at builder creation.
    pub m: Method,
    /// Base URL the relative path is appended to.
    pub url: String,
    /// Client configuration snapshot.
    pub c: Client,
    /// The operation the terminal action fixed.
    pub op: Op,
}

impl Single {
    /// Overlay extra query options; the caller's values win.
    pub fn with(self, o: &Options) -> (r: Single)
        requires
            self.opts.wf(),
        ensures
            r.opts.wf(),
            r.opts.entries() == merge_entries(self.opts.entries(), o.entries()),
            r.ctx == self.ctx,
            r.query == self.query,
            r.m == self.m,
            r.url == self.url,
            r.op == self.op,
    {
        let Single { ctx, mut opts, query, m, url, c, op } = self;
        opts.merge(o);
        Single { ctx, opts, query, m, url, c, op }
    }

    /// The full URL this call resolves to: base URL, the relative path of
    /// `(ctx, op, query)` — with the Credits `"type"` quirk applied — and
    /// the options as a sorted query string, `"type"` left out.
    pub fn request_url(self) -> (r: Result<String, APIError>)
        requires
            self.opts.wf(),
        ensures
            match resolved_path(self.ctx, self.op, self.query, self.opts.entries()) {
                Some(path) => r matches Ok(u) && u@ == self.url@ + path + query_string_of(
                    remove_entry(self.opts.entries(), "type"@),
                ),
                None => r matches Err(e) && is_invalid_operation_error(e),
            },
    {
        build_call_url(&self.ctx, self.op, self.query, self.url.as_str(), &self.opts)
    }
}

} // verus!
