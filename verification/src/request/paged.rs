//! The `Paged` execution strategy and the pagination engine.
//!
//! A list call fetches a first page, then follows the server-supplied `next`
//! links verbatim until they run out, concatenating the `results` of every
//! page.  The protocol has three invariants: a zero-count first page is an
//! error, any page failure aborts the whole call with that failure and no
//! partial results, and the collected length must equal the first page's
//! authoritative `count`.  `Pagination` is that protocol as a state machine:
//! the application layer fetches, feeds each outcome in, and closes with
//! `finish`.

use vstd::prelude::*;
use crate::client::{Client, Ctx};
use crate::errors::{is_api_error, is_decode_error, is_invalid_operation_error, APIError};
use crate::option::{merge_entries, query_string_of, remove_entry, Options};
use crate::param::Param;
use crate::request::{build_call_url, resolved_path, Method, Op};

verus! {

/// The wire envelope of one page of results.
#[derive(Debug)]
pub struct List<T> {
    /// How many results the whole listing holds; the first page's value is
    /// authoritative.
    pub count: u32,
    /// URL to fetch the next block.
    pub next: Option<String>,
    /// URL to fetch the previous block.
    pub previous: Option<String>,
    /// This block's results.
    pub results: Vec<T>,
}

impl<T> List<T> {
    /// The results of this block.
    pub fn iter(&self) -> (r: &Vec<T>)
        ensures
            r == &self.results,
    {
        &self.results
    }
}

/// The error for a zero-count first page: an empty listing is a defined
/// failure of the pagination protocol, not an empty success.
pub open spec fn is_empty_result_error(e: APIError) -> bool {
    is_api_error(e, 400, "empty result"@, "no data returned on pagination"@, "paged"@)
}

/// The error for a collected length that contradicts the first page's
/// `count`: an internal-invariant violation, treated as a decode-class
/// failure.
pub open spec fn is_count_mismatch_error(e: APIError) -> bool {
    is_decode_error(e, "pagination count mismatch"@)
}

/// The pagination protocol as a one-shot state machine.  Feed it each fetch
/// outcome in order; it accumulates results and checks the protocol's
/// invariants, and `finish` closes the run.
#[derive(Debug)]
pub struct Pagination<T> {
    /// Results collected so far, in page order.
    pub results: Vec<T>,
    /// The first page's authoritative count; 0 until a page was fed.
    pub expected: u32,
    /// Whether a first page was fed.
    pub started: bool,
}

impl<T> Pagination<T> {
    /// A run that has seen no page yet.
    pub fn new() -> (r: Pagination<T>)
        ensures
            r.results@ == Seq::<T>::empty(),
            r.expected == 0,
            !r.started,
    {
        Pagination { results: Vec::new(), expected: 0, started: false }
    }

    /// Feed the outcome of one page fetch.
    ///
    /// A fetch failure aborts the run with that very error and no partial
    /// results; a zero-count first page aborts with the empty-result error.
    /// Otherwise the page's results are appended in order, the first page
    /// fixes the expected count, and the page's `next` link — to be fetched
    /// verbatim, or `None` at the end of the listing — is handed back.
    pub fn feed(&mut self, fetched: Result<List<T>, APIError>) -> (r: Result<
        Option<String>,
        APIError,
    >)
        ensures
            match r {
                Ok(next) => {
                    &&& fetched matches Ok(page) && {
                        &&& final(self).started
                        &&& final(self).results@ == old(self).results@ + page.results@
                        &&& final(self).expected == if old(self).started {
                            old(self).expected
                        } else {
                            page.count
                        }
                        &&& next == page.next
                        &&& (old(self).started || page.count > 0)
                    }
                },
                Err(e) => {
                    &&& final(self).results@ == old(self).results@
                    &&& final(self).expected == old(self).expected
                    &&& final(self).started == old(self).started
                    &&& match fetched {
                        Err(e0) => e == e0,
                        Ok(page) => !old(self).started && page.count == 0
                            && is_empty_result_error(e),
                    }
                },
            },
    {
        match fetched {
            Err(e) => Err(e),
            Ok(page) => {
                let List { count, next, previous: _, results } = page;
                if !self.started && count == 0 {
                    return Err(
                        APIError::new(400, "empty result", "no data returned on pagination", "paged"),
                    );
                }
                if !self.started {
                    self.expected = count;
                    self.started = true;
                }
                let mut results = results;
                self.results.append(&mut results);
                Ok(next)
            }
        }
    }

    /// Close the run: the collected results come out only when their number
    /// equals the first page's count; a mismatch is the count-mismatch
    /// failure.
    pub fn finish(self) -> (r: Result<Vec<T>, APIError>)
        requires
            self.started,
        ensures
            match r {
                Ok(v) => v@ == self.results@ && self.results@.len() == self.expected as int,
                Err(e) => is_count_mismatch_error(e) && self.results@.len() != self.expected as int,
            },
    {
        if self.results.len() == self.expected as usize {
            Ok(self.results)
        } else {
            Err(APIError::new(500, "decode", "pagination count mismatch", "decode"))
        }
    }
}

/// A one-shot paginated-list request: consumed by its terminal computation.
#[derive(Debug)]
pub struct Paged {
    /// Which part of the API is targeted (`/probes/`, etc.).
    pub ctx: Ctx,
    /// Options: merge of caller input and defaults.
    pub opts: Options,
    /// Parameter given to the action keyword.
    pub query: Param,
    /// The HTTP method fixed at builder creation.
    pub m: Method,
    /// Base URL the relative path is appended to.
    pub url: String,
    /// Client configuration snapshot.
    pub c: Client,
    /// The operation the terminal action fixed.
    pub op: Op,
}

impl Paged {
    /// Overlay extra query options; the caller's values win.
    pub fn with(self, o: &Options) -> (r: Paged)
        requires
            self.opts.wf(),
        ensures
            r.opts.wf(),
            r.opts.entries() == merge_entries(self.opts.entries(), o.entries()),
            r.ctx == self.ctx,
            r.query == self.query,
            r.m == self.m,
            r.url == self.url,
            r.op == self.op,
    {
        let Paged { ctx, mut opts, query, m, url, c, op } = self;
        opts.merge(o);
        Paged { ctx, opts, query, m, url, c, op }
    }

    /// The URL of the first page: base URL, the relative path of
    /// `(ctx, op, query)` — with the Credits `"type"` quirk applied — and
    /// the options as a sorted query string, `"type"` left out.  Later pages
    /// use the server's `next` links verbatim.
    pub fn request_url(self) -> (r: Result<String, APIError>)
        requires
            self.opts.wf(),
        ensures
            match resolved_path(self.ctx, self.op, self.query, self.opts.entries()) {
                Some(path) => r matches Ok(u) && u@ == self.url@ + path + query_string_of(
                    remove_entry(self.opts.entries(), "type"@),
                ),
                None => r matches Err(e) && is_invalid_operation_error(e),
            },
    {
        build_call_url(&self.ctx, self.op, self.query, self.url.as_str(), &self.opts)
    }
}

} // verus!
