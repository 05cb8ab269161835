use saucers::scheme::{
    parse_header_block, register_scheme, Executor, Request, Response, SchemeError, SchemeList,
    SchemeOutcome,
};
use saucers::stash::Stash;

fn pairs(buf: &[u8]) -> Vec<(Vec<u8>, Vec<u8>)> {
    parse_header_block(&buf.to_vec())
}

#[test]
fn header_block_splits_entries_at_nul_and_colon() {
    let r = pairs(b"Accept:text/html\0X-Count:1");
    assert_eq!(
        r,
        vec![
            (b"Accept".to_vec(), b"text/html".to_vec()),
            (b"X-Count".to_vec(), b"1".to_vec()),
        ]
    );
}

#[test]
fn header_block_splits_at_the_first_colon_only() {
    let r = pairs(b"Host:a:8080");
    assert_eq!(r, vec![(b"Host".to_vec(), b"a:8080".to_vec())]);
}

#[test]
fn header_block_skips_entries_without_a_colon() {
    let r = pairs(b"junk\0A:b\0noise");
    assert_eq!(r, vec![(b"A".to_vec(), b"b".to_vec())]);
}

#[test]
fn header_block_tolerates_trailing_nul_and_empty_input() {
    assert_eq!(pairs(b"A:b\0"), vec![(b"A".to_vec(), b"b".to_vec())]);
    assert!(pairs(b"").is_empty());
    assert!(pairs(b"\0\0").is_empty());
}

#[test]
fn response_accumulates_status_and_headers() {
    let mut res = Response::new(&Stash::view(b"pong!"), String::from("text/plain"));
    assert_eq!(res.status, 200);
    res.set_status(404);
    res.set_header(
        String::from("Access-Control-Allow-Origin"),
        String::from("*"),
    );
    assert_eq!(res.status, 404);
    assert_eq!(res.data, b"pong!".to_vec());
    assert_eq!(res.headers.len(), 1);
}

#[test]
fn executor_settles_a_request_once() {
    let ex = Executor::new(5);
    let (id, out) = ex.resolve(Response::new(&Stash::view(b"ok"), String::from("text/plain")));
    assert_eq!(id, 5);
    match out {
        SchemeOutcome::Resolved(res) => assert_eq!(res.data, b"ok".to_vec()),
        SchemeOutcome::Rejected(_) => panic!("expected a resolution"),
    }
    // Rejecting consumes another request's executor the same way.
    let ex2 = Executor::new(6);
    let (id2, out2) = ex2.reject(SchemeError::NotFound);
    assert_eq!(id2, 6);
    assert!(matches!(out2, SchemeOutcome::Rejected(SchemeError::NotFound)));
}

#[test]
fn request_exposes_its_parts() {
    let req = Request::new(
        String::from("foo://domain/ping"),
        String::from("POST"),
        vec![(String::from("Accept"), String::from("*/*"))],
        b"ping!".to_vec(),
    );
    assert_eq!(req.method(), "POST");
    assert_eq!(req.url(), "foo://domain/ping");
    assert_eq!(req.headers().len(), 1);
    assert_eq!(req.content().data(), b"ping!");
}

#[test]
fn schemes_register_in_order() {
    let mut schemes = SchemeList::new();
    register_scheme(&mut schemes, String::from("foo"));
    register_scheme(&mut schemes, String::from("bar"));
    assert_eq!(schemes.names, vec![String::from("foo"), String::from("bar")]);
}
