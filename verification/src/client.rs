//! The `Client`: the immutable-per-call configuration snapshot, and the
//! builder that assembles one.
//!
//! A request chain starts by selecting a category on the client (`probe()`,
//! `keys()`, ...): that fixes the routing context and injects the API key
//! into a copy of the default options, exactly once, without touching the
//! client's own stored defaults.

use vstd::prelude::*;
use crate::errors::{is_api_error, APIError};
use crate::option::{insert_entry, merge_entries, Options};
use crate::param::Param;
use crate::request::{Method, Op, RequestBuilder};

verus! {

/// All possible INET address family choices.
#[derive(Clone, Copy, Debug, PartialEq, Eq, Structural)]
pub enum AF {
    /// Only IPv4 targets.
    V4,
    /// Only IPv6 targets.
    V6,
    /// Both IPv4 and IPv6.
    V46,
}

/// The resource categories, the first level of every request.  `Null` is the
/// invalid sentinel: it owns no routing table.
#[derive(Clone, Copy, Debug, PartialEq, Eq, Structural)]
pub enum Ctx {
    Null,
    Anchors,
    AnchorMeasurements,
    Credits,
    Keys,
    Measurements,
    ParticipationRequests,
    Probes,
}

impl Default for Ctx {
    /// The invalid sentinel.
    fn default() -> (r: Ctx)
        ensures
            r == Ctx::Null,
    {
        Ctx::Null
    }
}

/// The main client configuration: API key, endpoint, area-of-interest
/// filters and default options.  All fields are plain configuration; the
/// HTTP connection itself lives with the application layer.
#[derive(Debug)]
pub struct Client {
    /// API key for most calls.
    pub api_key: Option<String>,
    /// API endpoint.
    pub endpoint: String,
    /// Area type for restricting the scope.
    pub area_type: String,
    /// Value for the area type.
    pub area_value: String,
    /// Recurring or not?
    pub is_oneoff: bool,
    /// How many probes do we want.
    pub pool_size: usize,
    /// IPv4, IPv6, both?
    pub want_af: AF,
    /// Verbose mode.
    pub verbose: bool,
    /// Do we want specific probe types?
    pub tags: String,
    /// Default options.
    pub opts: Options,
}

/// The default configuration values of a fresh client.
pub open spec fn is_default_client(c: Client) -> bool {
    &&& c.api_key is None
    &&& c.endpoint@ == "https://atlas.ripe.net/api/v2"@
    &&& c.area_type@ == "area"@
    &&& c.area_value@ == "WW"@
    &&& c.is_oneoff == true
    &&& c.pool_size == 10
    &&& c.want_af == AF::V46
    &&& c.verbose == false
    &&& c.tags@ == ""@
    &&& c.opts.entries() == Seq::<(Seq<char>, Seq<char>)>::empty()
}

/// The configuration fields a builder setter leaves alone.
pub open spec fn same_scope(a: Client, b: Client) -> bool {
    &&& a.area_type == b.area_type
    &&& a.area_value == b.area_value
    &&& a.is_oneoff == b.is_oneoff
    &&& a.pool_size == b.pool_size
    &&& a.want_af == b.want_af
    &&& a.verbose == b.verbose
    &&& a.tags == b.tags
}

impl Client {
    /// The options every client snapshot keeps sorted.
    pub open spec fn wf(&self) -> bool {
        self.opts.wf()
    }

    /// A bare client with the default configuration.
    pub fn new() -> (r: Client)
        ensures
            is_default_client(r),
            r.wf(),
    {
        Client {
            api_key: None,
            endpoint: "https://atlas.ripe.net/api/v2".to_owned(),
            area_type: "area".to_owned(),
            area_value: "WW".to_owned(),
            is_oneoff: true,
            pool_size: 10,
            want_af: AF::V46,
            verbose: false,
            tags: "".to_owned(),
            opts: Options::new(),
        }
    }

    /// A `ClientBuilder` for chained configuration.
    pub fn builder() -> (r: ClientBuilder)
        ensures
            is_default_client(r.cl),
            r.cl.wf(),
    {
        ClientBuilder::new()
    }

    /// A copy of this client snapshot.
    pub fn duplicate(&self) -> (r: Client)
        ensures
            r.api_key == self.api_key,
            r.endpoint == self.endpoint,
            same_scope(r, *self),
            r.opts.entries() == self.opts.entries(),
            r.opts.wf() == self.opts.wf(),
    {
        let api_key = match &self.api_key {
            Some(k) => Some(k.clone()),
            None => None,
        };
        Client {
            api_key,
            endpoint: self.endpoint.clone(),
            area_type: self.area_type.clone(),
            area_value: self.area_value.clone(),
            is_oneoff: self.is_oneoff,
            pool_size: self.pool_size,
            want_af: self.want_af,
            verbose: self.verbose,
            tags: self.tags.clone(),
            opts: self.opts.duplicate(),
        }
    }

    /// Enter a category: the builder's options are the client's defaults
    /// with the API key stored under `"key"` — or unchanged when the key is
    /// absent, which only the Probes category permits.
    fn route_to(&self, ctx: Ctx) -> (r: RequestBuilder)
        requires
            self.wf(),
            self.api_key is Some || ctx == Ctx::Probes,
        ensures
            r.ctx == ctx,
            r.kw == Method::Get,
            r.url == self.endpoint,
            r.op == Op::Null,
            r.query == Param::Null,
            r.c.opts.wf(),
            match self.api_key {
                Some(k) => r.c.opts.entries() == insert_entry(self.opts.entries(), "key"@, k@),
                None => r.c.opts.entries() == self.opts.entries(),
            },
            r.c.api_key == self.api_key,
            r.c.endpoint == self.endpoint,
    {
        let mut c = self.duplicate();
        match &self.api_key {
            Some(k) => {
                let _prev = c.opts.insert("key".to_owned(), k.clone());
            }
            None => {}
        }
        RequestBuilder::new(ctx, c, Method::Get, self.endpoint.clone())
    }

    /// Requests on the anchors category.
    pub fn anchors(&self) -> (r: RequestBuilder)
        requires
            self.wf(),
            self.api_key is Some,
        ensures
            r.ctx == Ctx::Anchors,
            r.kw == Method::Get,
            r.url == self.endpoint,
            r.op == Op::Null,
            r.query == Param::Null,
            r.c.opts.wf(),
            r.c.opts.entries() == insert_entry(
                self.opts.entries(),
                "key"@,
                self.api_key.unwrap()@,
            ),
    {
        self.route_to(Ctx::Anchors)
    }

    /// Requests on the anchor-measurements category.
    pub fn anchor_measurement(&self) -> (r: RequestBuilder)
        requires
            self.wf(),
            self.api_key is Some,
        ensures
            r.ctx == Ctx::AnchorMeasurements,
            r.kw == Method::Get,
            r.url == self.endpoint,
            r.op == Op::Null,
            r.query == Param::Null,
            r.c.opts.wf(),
            r.c.opts.entries() == insert_entry(
                self.opts.entries(),
                "key"@,
                self.api_key.unwrap()@,
            ),
    {
        self.route_to(Ctx::AnchorMeasurements)
    }

    /// Requests on the credits category.
    pub fn credits(&self) -> (r: RequestBuilder)
        requires
            self.wf(),
            self.api_key is Some,
        ensures
            r.ctx == Ctx::Credits,
            r.kw == Method::Get,
            r.url == self.endpoint,
            r.op == Op::Null,
            r.query == Param::Null,
            r.c.opts.wf(),
            r.c.opts.entries() == insert_entry(
                self.opts.entries(),
                "key"@,
                self.api_key.unwrap()@,
            ),
    {
        self.route_to(Ctx::Credits)
    }

    /// Requests on the keys category.
    pub fn keys(&self) -> (r: RequestBuilder)
        requires
            self.wf(),
            self.api_key is Some,
        ensures
            r.ctx == Ctx::Keys,
            r.kw == Method::Get,
            r.url == self.endpoint,
            r.op == Op::Null,
            r.query == Param::Null,
            r.c.opts.wf(),
            r.c.opts.entries() == insert_entry(
                self.opts.entries(),
                "key"@,
                self.api_key.unwrap()@,
            ),
    {
        self.route_to(Ctx::Keys)
    }

    /// Requests on the measurements category.
    pub fn measurement(&self) -> (r: RequestBuilder)
        requires
            self.wf(),
            self.api_key is Some,
        ensures
            r.ctx == Ctx::Measurements,
            r.kw == Method::Get,
            r.url == self.endpoint,
            r.op == Op::Null,
            r.query == Param::Null,
            r.c.opts.wf(),
            r.c.opts.entries() == insert_entry(
                self.opts.entries(),
                "key"@,
                self.api_key.unwrap()@,
            ),
    {
        self.route_to(Ctx::Measurements)
    }

    /// Requests on the probes category.  The API key may be absent here: the
    /// service then masks some returned fields rather than failing.
    pub fn probe(&self) -> (r: RequestBuilder)
        requires
            self.wf(),
        ensures
            r.ctx == Ctx::Probes,
            r.kw == Method::Get,
            r.url == self.endpoint,
            r.op == Op::Null,
            r.query == Param::Null,
            r.c.opts.wf(),
            match self.api_key {
                Some(k) => r.c.opts.entries() == insert_entry(self.opts.entries(), "key"@, k@),
                None => r.c.opts.entries() == self.opts.entries(),
            },
    {
        self.route_to(Ctx::Probes)
    }
}

impl Default for Client {
    /// A bare client with the default configuration.
    fn default() -> (r: Client)
        ensures
            is_default_client(r),
            r.wf(),
    {
        Client::new()
    }
}

/// The builder for `Client`: configure by chained calls, close the chain
/// with `build()`.
#[derive(Debug)]
pub struct ClientBuilder {
    /// The client under construction.
    pub cl: Client,
}

impl ClientBuilder {
    /// A builder holding the default configuration.
    pub fn new() -> (r: ClientBuilder)
        ensures
            is_default_client(r.cl),
            r.cl.wf(),
    {
        ClientBuilder { cl: Client::new() }
    }

    /// Close the chain: a client comes out only when an API key was set.
    pub fn build(self) -> (r: Result<Client, APIError>)
        ensures
            self.cl.api_key is Some ==> (r matches Ok(c) && c == self.cl),
            self.cl.api_key is None ==> (r matches Err(e) && is_api_error(
                e,
                500,
                "no API key"@,
                "You must change the default key"@,
                "build"@,
            )),
    {
        if self.cl.api_key.is_some() {
            Ok(self.cl)
        } else {
            Err(APIError::new(500, "no API key", "You must change the default key", "build"))
        }
    }

    /// Set the API key.
    pub fn api_key(self, key: &str) -> (r: ClientBuilder)
        ensures
            r.cl.api_key matches Some(k) && k@ == key@,
            r.cl.endpoint == self.cl.endpoint,
            same_scope(r.cl, self.cl),
            r.cl.opts == self.cl.opts,
    {
        let mut cl = self.cl;
        cl.api_key = Some(key.to_owned());
        ClientBuilder { cl }
    }

    /// Set the API endpoint.
    pub fn endpoint(self, v: &str) -> (r: ClientBuilder)
        ensures
            r.cl.endpoint@ == v@,
            r.cl.api_key == self.cl.api_key,
            same_scope(r.cl, self.cl),
            r.cl.opts == self.cl.opts,
    {
        let mut cl = self.cl;
        cl.endpoint = v.to_owned();
        ClientBuilder { cl }
    }

    /// Limit the scope by an area type.
    pub fn area_type(self, v: &str) -> (r: ClientBuilder)
        ensures
            r.cl.area_type@ == v@,
            r.cl.api_key == self.cl.api_key,
            r.cl.endpoint == self.cl.endpoint,
            r.cl.area_value == self.cl.area_value,
            r.cl.is_oneoff == self.cl.is_oneoff,
            r.cl.pool_size == self.cl.pool_size,
            r.cl.want_af == self.cl.want_af,
            r.cl.verbose == self.cl.verbose,
            r.cl.tags == self.cl.tags,
            r.cl.opts == self.cl.opts,
    {
        let mut cl = self.cl;
        cl.area_type = v.to_owned();
        ClientBuilder { cl }
    }

    /// Limit the scope to a particular area value.
    pub fn area_value(self, v: &str) -> (r: ClientBuilder)
        ensures
            r.cl.area_value@ == v@,
            r.cl.api_key == self.cl.api_key,
            r.cl.endpoint == self.cl.endpoint,
            r.cl.area_type == self.cl.area_type,
            r.cl.is_oneoff == self.cl.is_oneoff,
            r.cl.pool_size == self.cl.pool_size,
            r.cl.want_af == self.cl.want_af,
            r.cl.verbose == self.cl.verbose,
            r.cl.tags == self.cl.tags,
            r.cl.opts == self.cl.opts,
    {
        let mut cl = self.cl;
        cl.area_value = v.to_owned();
        ClientBuilder { cl }
    }

    /// Set the one-shot flag.
    pub fn onoff(self, v: bool) -> (r: ClientBuilder)
        ensures
            r.cl.is_oneoff == v,
            r.cl.api_key == self.cl.api_key,
            r.cl.endpoint == self.cl.endpoint,
            r.cl.area_type == self.cl.area_type,
            r.cl.area_value == self.cl.area_value,
            r.cl.pool_size == self.cl.pool_size,
            r.cl.want_af == self.cl.want_af,
            r.cl.verbose == self.cl.verbose,
            r.cl.tags == self.cl.tags,
            r.cl.opts == self.cl.opts,
    {
        let mut cl = self.cl;
        cl.is_oneoff = v;
        ClientBuilder { cl }
    }

    /// Set the probe pool size.
    pub fn pool_size(self, v: usize) -> (r: ClientBuilder)
        ensures
            r.cl.pool_size == v,
            r.cl.api_key == self.cl.api_key,
            r.cl.endpoint == self.cl.endpoint,
            r.cl.area_type == self.cl.area_type,
            r.cl.area_value == self.cl.area_value,
            r.cl.is_oneoff == self.cl.is_oneoff,
            r.cl.want_af == self.cl.want_af,
            r.cl.verbose == self.cl.verbose,
            r.cl.tags == self.cl.tags,
            r.cl.opts == self.cl.opts,
    {
        let mut cl = self.cl;
        cl.pool_size = v;
        ClientBuilder { cl }
    }

    /// Set the verbose flag.
    pub fn verbose(self, v: bool) -> (r: ClientBuilder)
        ensures
            r.cl.verbose == v,
            r.cl.api_key == self.cl.api_key,
            r.cl.endpoint == self.cl.endpoint,
            r.cl.area_type == self.cl.area_type,
            r.cl.area_value == self.cl.area_value,
            r.cl.is_oneoff == self.cl.is_oneoff,
            r.cl.pool_size == self.cl.pool_size,
            r.cl.want_af == self.cl.want_af,
            r.cl.tags == self.cl.tags,
            r.cl.opts == self.cl.opts,
    {
        let mut cl = self.cl;
        cl.verbose = v;
        ClientBuilder { cl }
    }

    /// Set the wanted INET address family.
    pub fn want_af(self, v: AF) -> (r: ClientBuilder)
        ensures
            r.cl.want_af == v,
            r.cl.api_key == self.cl.api_key,
            r.cl.endpoint == self.cl.endpoint,
            r.cl.area_type == self.cl.area_type,
            r.cl.area_value == self.cl.area_value,
            r.cl.is_oneoff == self.cl.is_oneoff,
            r.cl.pool_size == self.cl.pool_size,
            r.cl.verbose == self.cl.verbose,
            r.cl.tags == self.cl.tags,
            r.cl.opts == self.cl.opts,
    {
        let mut cl = self.cl;
        cl.want_af = v;
        ClientBuilder { cl }
    }

    /// Set the tags sent with requests.
    pub fn tags(self, v: &str) -> (r: ClientBuilder)
        ensures
            r.cl.tags@ == v@,
            r.cl.api_key == self.cl.api_key,
            r.cl.endpoint == self.cl.endpoint,
            r.cl.area_type == self.cl.area_type,
            r.cl.area_value == self.cl.area_value,
            r.cl.is_oneoff == self.cl.is_oneoff,
            r.cl.pool_size == self.cl.pool_size,
            r.cl.want_af == self.cl.want_af,
            r.cl.verbose == self.cl.verbose,
            r.cl.opts == self.cl.opts,
    {
        let mut cl = self.cl;
        cl.tags = v.to_owned();
        ClientBuilder { cl }
    }

    /// Add one default option.
    pub fn opt(self, k: &str, v: &str) -> (r: ClientBuilder)
        requires
            self.cl.wf(),
        ensures
            r.cl.wf(),
            r.cl.opts.entries() == insert_entry(self.cl.opts.entries(), k@, v@),
            r.cl.api_key == self.cl.api_key,
            r.cl.endpoint == self.cl.endpoint,
            same_scope(r.cl, self.cl),
    {
        let mut cl = self.cl;
        let _prev = cl.opts.insert(k.to_owned(), v.to_owned());
        ClientBuilder { cl }
    }

    /// Add a set of default options; the given set's values win.
    pub fn opts(self, o: &Options) -> (r: ClientBuilder)
        requires
            self.cl.wf(),
        ensures
            r.cl.wf(),
            r.cl.opts.entries() == merge_entries(self.cl.opts.entries(), o.entries()),
            r.cl.api_key == self.cl.api_key,
            r.cl.endpoint == self.cl.endpoint,
            same_scope(r.cl, self.cl),
    {
        let mut cl = self.cl;
        cl.opts.merge(o);
        ClientBuilder { cl }
    }
}

impl Default for ClientBuilder {
    /// A builder holding the default configuration.
    fn default() -> (r: ClientBuilder)
        ensures
            is_default_client(r.cl),
            r.cl.wf(),
    {
        ClientBuilder::new()
    }
}

} // verus!
