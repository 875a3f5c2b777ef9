use atlas_api::option::Options;

fn opts_from(pairs: &[(&str, &str)]) -> Options {
    let mut o = Options::new();
    for (k, v) in pairs {
        let _ = o.insert(k.to_string(), v.to_string());
    }
    o
}

#[test]
fn test_options_merge() {
    let mut s1 = opts_from(&[("foo", "bar")]);
    let s2 = opts_from(&[("baz", "blah")]);
    let s = opts_from(&[("foo", "bar"), ("baz", "blah")]);

    s1.merge(&s2);
    assert_eq!(s, s1);
}

#[test]
fn test_index() {
    let o = opts_from(&[("foo", "bar")]);

    assert_eq!("bar", o.get("foo").unwrap());
}

#[test]
fn test_index_mut() {
    let mut o = opts_from(&[("foo", "bar")]);

    let _ = o.insert("foo".to_string(), "blah".to_string());
    assert_eq!("blah", o.get("foo").unwrap());

    let _ = o.insert("baz".to_string(), "hello".to_string());
    assert_eq!("hello", o.get("baz").unwrap());
}

#[test]
fn test_insert_returns_previous() {
    let mut o = opts_from(&[("foo", "bar")]);

    assert_eq!(None, o.insert("baz".to_string(), "one".to_string()));
    assert_eq!(Some("bar".to_string()), o.insert("foo".to_string(), "two".to_string()));
    assert_eq!("two", o.get("foo").unwrap());
    assert_eq!(2, o.len());
}

#[test]
fn test_merge_idempotent_concrete() {
    let mut a = opts_from(&[("foo", "bar"), ("baz", "blah")]);
    let same = opts_from(&[("foo", "bar"), ("baz", "blah")]);

    a.merge(&same);
    assert_eq!(same, a);
}

#[test]
fn test_merge_right_bias() {
    let mut a = opts_from(&[("k", "1")]);
    let b = opts_from(&[("k", "2")]);

    a.merge(&b);
    assert_eq!("2", a.get("k").unwrap());
    assert_eq!(1, a.len());
}

#[test]
fn test_to_query_string_sorted() {
    let o = opts_from(&[("name", "foo"), ("bar", "baz")]);

    assert_eq!("?bar=baz&name=foo", o.to_query_string());
}

#[test]
fn test_to_query_string_empty() {
    let o = Options::new();

    assert_eq!("?", o.to_query_string());
    assert!(o.is_empty());
    assert_eq!(0, o.len());
}

#[test]
fn test_keys_and_values_sorted() {
    let o = opts_from(&[("c", "3"), ("a", "1"), ("b", "2")]);

    assert_eq!(vec!["a".to_string(), "b".to_string(), "c".to_string()], o.keys());
    assert_eq!(vec!["1".to_string(), "2".to_string(), "3".to_string()], o.values());
    assert_eq!(
        vec!["1".to_string(), "2".to_string(), "3".to_string()],
        o.duplicate().into_values()
    );
    assert_eq!(
        vec![
            ("a".to_string(), "1".to_string()),
            ("b".to_string(), "2".to_string()),
            ("c".to_string(), "3".to_string())
        ],
        o.iter()
    );
}

#[test]
fn test_removed() {
    let o = opts_from(&[("type", "transactions"), ("key", "FOO")]);
    let r = o.removed("type");

    assert!(!r.contains_key("type"));
    assert_eq!("FOO", r.get("key").unwrap());
    assert_eq!(1, r.len());
    // The original store is untouched.
    assert!(o.contains_key("type"));
}

#[test]
fn test_contains_key() {
    let o = opts_from(&[("foo", "bar")]);

    assert!(o.contains_key("foo"));
    assert!(!o.contains_key("bar"));
}
