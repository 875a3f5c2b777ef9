use atlas_api::errors::{from_decode_failure, from_io_failure, from_transport_failure, APIError};
use atlas_api::request::paged::{List, Pagination};

fn page(count: u32, next: Option<&str>, results: Vec<u32>) -> List<u32> {
    List {
        count,
        next: next.map(|s| s.to_string()),
        previous: None,
        results,
    }
}

#[test]
fn test_pagination_three_pages() {
    // count=7, results lengths 3,3,1, next chain ending in None: the run
    // collects a sequence of length 7 in page order.
    let mut run: Pagination<u32> = Pagination::new();

    let next = run.feed(Ok(page(7, Some("https://x/p?page=2"), vec![1, 2, 3]))).unwrap();
    assert_eq!(Some("https://x/p?page=2".to_string()), next);

    let next = run.feed(Ok(page(7, Some("https://x/p?page=3"), vec![4, 5, 6]))).unwrap();
    assert_eq!(Some("https://x/p?page=3".to_string()), next);

    let next = run.feed(Ok(page(7, None, vec![7]))).unwrap();
    assert_eq!(None, next);

    let all = run.finish().unwrap();
    assert_eq!(vec![1, 2, 3, 4, 5, 6, 7], all);
}

#[test]
fn test_pagination_zero_count_is_error() {
    // A zero-count first page is a protocol failure, not an empty success.
    let mut run: Pagination<u32> = Pagination::new();

    let e = run.feed(Ok(page(0, None, vec![]))).unwrap_err();
    assert_eq!("empty result", e.error.title);
    assert_eq!("no data returned on pagination", e.error.detail);
    assert_eq!(400, e.error.status);
}

#[test]
fn test_pagination_second_page_failure_aborts() {
    // A page-2 fetch failure aborts the whole call with that error; the
    // results of page 1 are not returned.
    let mut run: Pagination<u32> = Pagination::new();

    let next = run.feed(Ok(page(5, Some("https://x/p?page=2"), vec![1, 2, 3]))).unwrap();
    assert_eq!(Some("https://x/p?page=2".to_string()), next);

    let e2 = from_transport_failure(Some(503), "connection reset");
    let out: Result<Option<String>, APIError> = run.feed(Err(e2));
    let e = out.unwrap_err();
    assert_eq!("transport", e.error.title);
    assert_eq!("connection reset", e.error.detail);
    assert_eq!(503, e.error.status);
}

#[test]
fn test_pagination_count_mismatch_is_error() {
    let mut run: Pagination<u32> = Pagination::new();

    let next = run.feed(Ok(page(5, None, vec![1, 2, 3]))).unwrap();
    assert_eq!(None, next);

    let e = run.finish().unwrap_err();
    assert_eq!("decode", e.error.title);
    assert_eq!("pagination count mismatch", e.error.detail);
    assert_eq!(500, e.error.status);
}

#[test]
fn test_pagination_single_exact_page() {
    let mut run: Pagination<u32> = Pagination::new();

    let next = run.feed(Ok(page(2, None, vec![9, 8]))).unwrap();
    assert_eq!(None, next);
    assert_eq!(vec![9, 8], run.finish().unwrap());
}

#[test]
fn test_list_iter() {
    let l = page(2, None, vec![4, 5]);
    assert_eq!(&vec![4, 5], l.iter());
}

#[test]
fn test_apierror_new() {
    let e = APIError::new(501, "NotFound", "some error", "get_probe");

    assert_eq!(501, e.error.status);
    assert_eq!(501, e.error.code);
    assert_eq!("NotFound", e.error.title);
    assert_eq!("some error", e.error.detail);
    let inner = e.error.errors.unwrap();
    assert_eq!(1, inner.len());
    assert_eq!("some error", inner[0].detail);
    assert_eq!("get_probe", inner[0].source.pointer);
    assert_eq!("NotFound", APIError::new(501, "NotFound", "x", "y").text());
}

#[test]
fn test_error_conversions() {
    let e = from_io_failure("file vanished");
    assert_eq!(500, e.error.status);
    assert_eq!("I/O error", e.error.title);
    assert_eq!("file vanished", e.error.detail);

    let e = from_decode_failure("bad json");
    assert_eq!(500, e.error.status);
    assert_eq!("decode", e.error.title);
    assert_eq!("bad json", e.error.detail);

    let e = from_transport_failure(None, "timed out");
    assert_eq!(500, e.error.status);
    assert_eq!("transport", e.error.title);
    assert_eq!("timed out", e.error.detail);

    let e = from_transport_failure(Some(404), "not found");
    assert_eq!(404, e.error.status);
}
