use atlas_api::client::{Client, ClientBuilder, AF};
use atlas_api::config::Config;
use atlas_api::option::Options;

fn opts_from(pairs: &[(&str, &str)]) -> Options {
    let mut o = Options::new();
    for (k, v) in pairs {
        let _ = o.insert(k.to_string(), v.to_string());
    }
    o
}

#[test]
fn test_client_new() {
    let c = Client::new();

    // Check all defaults.
    assert!(c.api_key.is_none());
    assert_eq!("https://atlas.ripe.net/api/v2".to_string(), c.endpoint);
    assert_eq!("area".to_string(), c.area_type);
    assert_eq!("WW".to_string(), c.area_value);
    assert!(c.is_oneoff);
    assert_eq!(10, c.pool_size);
    assert_eq!(AF::V46, c.want_af);
    assert!(!c.verbose);
    assert_eq!("".to_string(), c.tags);
    assert!(c.opts.is_empty());
}

#[test]
fn test_clientbuilder_new() {
    let cb = ClientBuilder::new().api_key("key").build();

    assert!(cb.is_ok());

    let cb = cb.unwrap();

    // Check all defaults.
    assert_eq!("key".to_string(), cb.api_key.unwrap());
    assert_eq!("https://atlas.ripe.net/api/v2", cb.endpoint);
    assert_eq!("area".to_string(), cb.area_type);
    assert_eq!("WW".to_string(), cb.area_value);
    assert!(cb.is_oneoff);
    assert_eq!(10, cb.pool_size);
    assert_eq!(AF::V46, cb.want_af);
    assert!(!cb.verbose);
    assert_eq!("".to_string(), cb.tags);
    assert!(!cb.opts.contains_key("key"));
}

#[test]
fn test_opt() {
    let h = [("foo", "a"), ("bar", "b"), ("key", "FOO")];

    let c = ClientBuilder::new()
        .api_key("key")
        .opt(h[0].0, h[0].1)
        .opt(h[1].0, h[1].1)
        .opt(h[2].0, h[2].1)
        .build();
    assert!(c.is_ok());

    let c = c.unwrap();
    assert_eq!(opts_from(&h), c.opts);
    assert_eq!("key", c.api_key.unwrap());
    assert_eq!(h.len(), c.opts.len());
}

#[test]
fn test_opts() {
    let h = [("foo", "a"), ("bar", "b"), ("key", "FOO")];

    let c = ClientBuilder::new().api_key("key").opts(&opts_from(&h)).build();
    assert!(c.is_ok());

    let c = c.unwrap();
    assert_eq!(opts_from(&h), c.opts);
    assert_eq!("key", c.api_key.unwrap());
    assert_eq!(h.len(), c.opts.len());
}

#[test]
fn test_clientbuilder_error() {
    let c = ClientBuilder::new().build();

    assert!(c.is_err());
}

#[test]
fn test_clientbuilder_api_key() {
    let c = ClientBuilder::new().api_key("FOO").build();

    assert!(c.is_ok());
    assert!(c.as_ref().unwrap().api_key.is_some());

    let c = c.unwrap();

    let key = c.api_key;
    assert!(key.is_some());
    assert_eq!("FOO", key.unwrap());
}

#[test]
fn test_onoff() {
    let c = ClientBuilder::new().api_key("key").onoff(true).build();

    assert!(c.unwrap().is_oneoff);
}

#[test]
fn test_builder_setters() {
    let c = ClientBuilder::new()
        .api_key("key")
        .endpoint("https://example.com/v1")
        .area_type("country")
        .area_value("fr")
        .pool_size(20)
        .verbose(true)
        .want_af(AF::V6)
        .tags("ftth !cable")
        .build()
        .unwrap();

    assert_eq!("https://example.com/v1", c.endpoint);
    assert_eq!("country", c.area_type);
    assert_eq!("fr", c.area_value);
    assert_eq!(20, c.pool_size);
    assert!(c.verbose);
    assert_eq!(AF::V6, c.want_af);
    assert_eq!("ftth !cable", c.tags);
}

#[test]
fn test_key_injected_on_category_entry() {
    let c = ClientBuilder::new().api_key("SECRET").build().unwrap();
    let rb = c.keys();

    assert_eq!("SECRET", rb.c.opts.get("key").unwrap());
    // The client's own defaults are untouched.
    assert!(!c.opts.contains_key("key"));
}

#[test]
fn config_test_new() {
    let c = Config::new();

    assert_eq!("<CHANGEME>", c.api_key);
    assert_eq!(Some(0), c.default_probe);
}

#[test]
fn test_config_defaults() {
    let c = Config::default();
    let ps = c.probe_set.unwrap();

    assert_eq!(Some(10), ps.pool_size);
    assert_eq!(Some("area".to_string()), ps.ptype);
    assert_eq!(Some("WW".to_string()), ps.value);
    assert_eq!(Some("".to_string()), ps.tags);
    assert!(c.measurements.is_none());
}
