use atlas_api::param::Param;

fn take_arr_param(a: Param) -> Param {
    a
}

#[test]
fn test_param_from_array() {
    let pl = take_arr_param(Param::A(vec![
        "foo".to_string(),
        "bar".to_string(),
        "baz".to_string(),
    ]));

    match pl {
        Param::A(v) => assert_eq!(3, v.len()),
        _ => panic!("wrong variant"),
    }
}

#[test]
fn test_u32_param() {
    let p = 27u32;

    let s = Param::from(p);
    let t = Param::U(27);
    assert_eq!(t, s);
}

#[test]
fn test_param_u32() {
    let p = Param::U(28);

    let s = u32::from(p);
    assert_eq!(28, s);
}

#[test]
fn test_param_i32_round_trip() {
    assert_eq!(Param::I(-5), Param::from(-5i32));
    assert_eq!(-5, i32::from(Param::I(-5)));
}

#[test]
fn test_param_i64_round_trip() {
    assert_eq!(Param::L(1 << 40), Param::from(1i64 << 40));
    assert_eq!(1 << 40, i64::from(Param::L(1 << 40)));
}

#[test]
fn test_param_mismatch_defaults_to_zero() {
    assert_eq!(0, u32::from(Param::S("x".to_string())));
    assert_eq!(0, u32::from(Param::Null));
    assert_eq!(0, i32::from(Param::U(7)));
    assert_eq!(0, i64::from(Param::I(7)));
}

#[test]
fn test_param_default() {
    assert_eq!(Param::Null, Param::default());
}

#[test]
fn test_id_string() {
    assert_eq!("666", Param::U(666).id_string());
    assert_eq!("0", Param::U(0).id_string());
    assert_eq!("-42", Param::I(-42).id_string());
    assert_eq!("9007199254740993", Param::L(9007199254740993).id_string());
    assert_eq!("abcd-ef", Param::S("abcd-ef".to_string()).id_string());
    assert_eq!("", Param::Null.id_string());
    assert_eq!("", Param::A(vec!["x".to_string()]).id_string());
}

#[test]
fn test_joined_fragments() {
    let p = Param::A(vec!["country=fr".to_string(), "area=WW".to_string()]);
    assert_eq!("country=fr&area=WW", p.joined_fragments());
    assert_eq!("", Param::Null.joined_fragments());
    assert_eq!("one", Param::A(vec!["one".to_string()]).joined_fragments());
}
