use atlas_api::client::{Client, ClientBuilder, Ctx};
use atlas_api::option::Options;
use atlas_api::param::Param;
use atlas_api::request::{add_opts, get_ops_url, Method, Op, RequestBuilder};

fn opts_from(pairs: &[(&str, &str)]) -> Options {
    let mut o = Options::new();
    for (k, v) in pairs {
        let _ = o.insert(k.to_string(), v.to_string());
    }
    o
}

#[test]
fn mod_test_requestbuilder_new() {
    let ctx = Ctx::Null;
    let cl = Client::new();
    let url = "http://localhost/".to_string();
    let r = RequestBuilder::new(ctx, cl, Method::Get, url);

    assert_eq!(Method::Get, r.kw);
}

#[test]
fn request_test_requestbuilder_new() {
    let ctx = Ctx::Null;
    let cl = Client::new();
    let url = "http://localhost/".to_string();
    let r = RequestBuilder::new(ctx, cl, Method::Get, url);

    assert_eq!(Method::Get, r.kw);
}

#[test]
fn mod_test_add_opts() {
    let url = "/hello".to_string();
    let o = opts_from(&[("name", "foo"), ("bar", "baz")]);

    let url = add_opts(&url, &o);
    assert_eq!("/hello?bar=baz&name=foo", url);
}

#[test]
fn request_test_add_opts() {
    let url = "/hello".to_string();
    let o = opts_from(&[("name", "foo"), ("bar", "baz")]);

    let url = add_opts(&url, &o);
    assert_eq!("/hello?bar=baz&name=foo", url);
}

#[test]
fn mod_test_with() {
    let ctx = Ctx::Credits;
    let cl = Client::new();
    let url = "http://localhost/".to_string();
    let r = RequestBuilder::new(ctx, cl, Method::Get, url);

    let add = get_ops_url(&ctx, Op::Info, Param::Null).unwrap();

    assert_eq!(Method::Get, r.kw);
    assert_eq!("/credits/", add);
}

#[test]
fn test_probe_get_end_to_end_url() {
    // category=Probes, op=Get, param=666, defaults carrying key=FOO.
    let c = ClientBuilder::new().api_key("FOO").build().unwrap();
    let url = c.probe().get(Param::from(666u32)).request_url().unwrap();

    assert_eq!("https://atlas.ripe.net/api/v2/probes/666/?key=FOO", url);
}

#[test]
fn test_probe_get_without_key() {
    // The Probes category accepts a key-less client.
    let c = Client::new();
    let url = c.probe().get(Param::U(1)).request_url().unwrap();

    assert_eq!("https://atlas.ripe.net/api/v2/probes/1/?", url);
}

#[test]
fn test_credits_type_option_end_to_end_url() {
    // category=Credits, options overlay {"type": "transactions"}, op=List:
    // the "type" option picks the path, whatever the nominal operation, and
    // is not sent as a query parameter.
    let c = ClientBuilder::new().api_key("FOO").build().unwrap();
    let overlay = opts_from(&[("type", "transactions")]);
    let url = c
        .credits()
        .list(Param::Null)
        .with(&overlay)
        .request_url()
        .unwrap();

    assert_eq!("https://atlas.ripe.net/api/v2/credits/transactions/?key=FOO", url);
}

#[test]
fn test_credits_default_is_summary() {
    // Without a "type" option a credits call addresses the summary.
    let c = ClientBuilder::new().api_key("FOO").build().unwrap();
    let url = c.credits().info().request_url().unwrap();

    assert_eq!("https://atlas.ripe.net/api/v2/credits/?key=FOO", url);
}

#[test]
fn test_credits_type_options() {
    let cases = [
        ("income-items", "/credits/incomes/"),
        ("expense-items", "/credits/expenses/"),
        ("members", "/credits/members/"),
        ("transactions", "/credits/transactions/"),
        ("transfer", "/credits/transfers/"),
        ("unknown", "/credits/"),
    ];
    for (tv, path) in cases {
        let c = ClientBuilder::new().api_key("K").build().unwrap();
        let overlay = opts_from(&[("type", tv)]);
        let url = c.credits().info().with(&overlay).request_url().unwrap();
        let expected = format!("https://atlas.ripe.net/api/v2{}?key=K", path);
        assert_eq!(expected, url);
    }
}

#[test]
fn test_invalid_pair_through_builder() {
    // A (category, operation) pair without a table entry fails with
    // InvalidOperation instead of panicking.
    let c = ClientBuilder::new().api_key("FOO").build().unwrap();
    let e = c.anchors().info().request_url().unwrap_err();

    assert_eq!("InvalidOperation", e.error.title);
}

#[test]
fn test_with_overlay_wins() {
    let c = ClientBuilder::new()
        .api_key("FOO")
        .opt("af", "4")
        .build()
        .unwrap();
    let overlay = opts_from(&[("af", "6")]);
    let url = c.probe().get(Param::U(9)).with(&overlay).request_url().unwrap();

    assert_eq!("https://atlas.ripe.net/api/v2/probes/9/?af=6&key=FOO", url);
}
