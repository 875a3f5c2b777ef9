use atlas_api::anchor_measurements::AnchorMeasurement;
use atlas_api::anchors::Anchor;
use atlas_api::client::Ctx;
use atlas_api::common::get_page_num;
use atlas_api::credits::Credits;
use atlas_api::keys::Key;
use atlas_api::measurements::Measurement;
use atlas_api::participation_requests::ParticipationRequests;
use atlas_api::probes::Probe;
use atlas_api::param::Param;
use atlas_api::request::{get_ops_url, Op};

#[test]
fn test_set_url() {
    assert_eq!(
        "/probes/666/measurements/",
        Probe::set_url(Op::Measurement, Param::from(666u32)).unwrap()
    );
}

#[test]
fn test_get_probe() {}

#[test]
fn probes_test_get_probe() {}

#[test]
fn test_get_key() {}

#[test]
fn keys_test_get_key() {}

#[test]
fn test_probe_urls() {
    assert_eq!("/probes/666/", Probe::set_url(Op::Get, Param::U(666)).unwrap());
    assert_eq!("/probes/666/", Probe::set_url(Op::Put, Param::U(666)).unwrap());
    assert_eq!("/probes/666/", Probe::set_url(Op::Update, Param::U(666)).unwrap());
    assert_eq!("/probes/archive/", Probe::set_url(Op::Archive, Param::Null).unwrap());
    assert_eq!("/probes/rankings/", Probe::set_url(Op::Rankings, Param::Null).unwrap());
    assert_eq!("/probes/tags/", Probe::set_url(Op::Tags, Param::Null).unwrap());
    assert_eq!(
        "/probes/tags/dns/slugs",
        Probe::set_url(Op::Slugs, Param::S("dns".to_string())).unwrap()
    );
    assert_eq!(
        "/probes/?country=fr&area=WW",
        Probe::set_url(
            Op::List,
            Param::A(vec!["country=fr".to_string(), "area=WW".to_string()])
        )
        .unwrap()
    );
}

#[test]
fn test_key_urls() {
    let uuid = || Param::S("0aa6-bb9c".to_string());
    assert_eq!("/keys/permissions/", Key::set_url(Op::Permissions, Param::Null).unwrap());
    assert_eq!(
        "/keys/permissions/0aa6-bb9c/targets/",
        Key::set_url(Op::Targets, uuid()).unwrap()
    );
    assert_eq!("/keys/0aa6-bb9c/", Key::set_url(Op::Get, uuid()).unwrap());
    assert_eq!("/keys/0aa6-bb9c/", Key::set_url(Op::Put, uuid()).unwrap());
    assert_eq!("/keys/0aa6-bb9c/", Key::set_url(Op::Delete, uuid()).unwrap());
    assert_eq!("/keys/", Key::set_url(Op::List, Param::Null).unwrap());
    assert_eq!("/keys/", Key::set_url(Op::Create, Param::Null).unwrap());
}

#[test]
fn test_credit_urls() {
    assert_eq!("/credits/", Credits::set_url(Op::Get, Param::Null).unwrap());
    assert_eq!("/credits/", Credits::set_url(Op::Info, Param::Null).unwrap());
    assert_eq!("/credits/incomes/", Credits::set_url(Op::Incomes, Param::Null).unwrap());
    assert_eq!("/credits/expenses/", Credits::set_url(Op::Expenses, Param::Null).unwrap());
    assert_eq!("/credits/transfers/", Credits::set_url(Op::Transfers, Param::Null).unwrap());
    assert_eq!(
        "/credits/transactions/",
        Credits::set_url(Op::Transactions, Param::Null).unwrap()
    );
    assert_eq!("/credits/members/", Credits::set_url(Op::Members, Param::Null).unwrap());
    assert_eq!(
        "/credits/members/claim/",
        Credits::set_url(Op::Claim, Param::Null).unwrap()
    );
}

#[test]
fn test_simple_category_urls() {
    assert_eq!("/anchors/12/", Anchor::set_url(Op::Get, Param::U(12)).unwrap());
    assert_eq!("/anchors/", Anchor::set_url(Op::List, Param::Null).unwrap());
    assert_eq!(
        "/anchor-measurements/12/",
        AnchorMeasurement::set_url(Op::Get, Param::U(12)).unwrap()
    );
    assert_eq!(
        "/anchor-measurements/",
        AnchorMeasurement::set_url(Op::List, Param::Null).unwrap()
    );
    assert_eq!("/measurements/12/", Measurement::set_url(Op::Get, Param::U(12)).unwrap());
    assert_eq!("/measurements/", Measurement::set_url(Op::List, Param::Null).unwrap());
    assert_eq!(
        "/participation-requests/12/",
        ParticipationRequests::set_url(Op::Get, Param::U(12)).unwrap()
    );
    assert_eq!(
        "/participation-requests/",
        ParticipationRequests::set_url(Op::List, Param::Null).unwrap()
    );
}

#[test]
fn test_invalid_operation_is_error_not_panic() {
    let e = Probe::set_url(Op::Claim, Param::Null).unwrap_err();
    assert_eq!("InvalidOperation", e.error.title);
    assert_eq!(500, e.error.status);

    assert!(Anchor::set_url(Op::Archive, Param::Null).is_err());
    assert!(Key::set_url(Op::Measurement, Param::Null).is_err());
    assert!(Credits::set_url(Op::List, Param::Null).is_err());
    assert!(Measurement::set_url(Op::Create, Param::Null).is_err());
    assert!(ParticipationRequests::set_url(Op::Tags, Param::Null).is_err());
    assert!(AnchorMeasurement::set_url(Op::Update, Param::Null).is_err());
}

#[test]
fn test_get_ops_url_dispatch() {
    assert_eq!(
        "/probes/666/",
        get_ops_url(&Ctx::Probes, Op::Get, Param::U(666)).unwrap()
    );
    assert_eq!("/credits/", get_ops_url(&Ctx::Credits, Op::Info, Param::Null).unwrap());
    assert_eq!("/keys/", get_ops_url(&Ctx::Keys, Op::List, Param::Null).unwrap());

    let e = get_ops_url(&Ctx::Null, Op::Get, Param::Null).unwrap_err();
    assert_eq!("InvalidOperation", e.error.title);
}

#[test]
fn test_resolve_deterministic() {
    let a = get_ops_url(&Ctx::Probes, Op::Get, Param::U(1234)).unwrap();
    let b = get_ops_url(&Ctx::Probes, Op::Get, Param::U(1234)).unwrap();
    assert_eq!(a, b);
}

#[test]
fn test_get_page_num() {
    assert_eq!(0, get_page_num("".to_string()));
    assert_eq!(0, get_page_num("foo?zorglub=1".to_string()));
    assert_eq!(0, get_page_num("foo&page=0".to_string()));
    assert_eq!(1, get_page_num("foo&page=1".to_string()));
    assert_eq!(0, get_page_num("foo&page=n".to_string()));
    assert_eq!(42, get_page_num("https://x/api/?foo=1&page=42&bar=2".to_string()));
    assert_eq!(7, get_page_num("page=x&page=7".to_string()));
}
