use ngx::arena::Arena;
use ngx::conf::ModuleDescriptor;
use ngx::request::http_request_handler;
use ngx::request::ComplexValue;
use ngx::request::NgxStr;
use ngx::request::Request;
use ngx::status::HTTPStatus;
use ngx::status::Status;

fn host_request() -> Request {
    Request {
        main: true,
        connection_id: 9,
        loc_confs: vec![100, 101, 102],
        user_agent: Some(NgxStr::from_bytes(b"curl/8.0".to_vec())),
        header_only: false,
        status: 0,
        content_length: None,
        headers_sent: false,
        body_discarded: false,
        discard_result: 0,
        send_header_result: 0,
        output_filter_result: 0,
        complex_values: vec![Some(NgxStr::from_bytes(b"value".to_vec())), None],
        output: Vec::new(),
        pool: Arena::new(),
    }
}

#[test]
fn ngx_str_views_its_bytes() {
    let s = NgxStr::from_bytes(b"abc".to_vec());
    assert_eq!(s.as_bytes(), b"abc");
    assert_eq!(s.len(), 3);
    assert!(!s.is_empty());
    assert!(NgxStr::from_bytes(Vec::new()).is_empty());
}

#[test]
fn main_request_and_connection() {
    let r = host_request();
    assert!(r.is_main());
    assert_eq!(r.connection().id, 9);
    let mut r = host_request();
    r.main = false;
    assert!(!r.is_main());
}

#[test]
fn module_loc_conf_indexed_by_slot() {
    let r = host_request();
    let module = ModuleDescriptor { ctx_index: 2 };
    assert_eq!(r.get_module_loc_conf(&module), 102);
}

#[test]
fn complex_value_evaluation_and_failure() {
    let r = host_request();
    let ok = r.get_complex_value(&ComplexValue { index: 0 });
    assert_eq!(ok.map(|s| s.as_bytes()), Some(b"value".as_slice()));
    let failed = r.get_complex_value(&ComplexValue { index: 1 });
    assert!(failed.is_none());
}

#[test]
fn user_agent_present_and_absent() {
    let r = host_request();
    assert_eq!(r.user_agent().map(|s| s.as_bytes()), Some(b"curl/8.0".as_slice()));
    let mut r = host_request();
    r.user_agent = None;
    assert!(r.user_agent().is_none());
}

#[test]
fn discard_request_body_follows_host_verdict() {
    let mut r = host_request();
    let s = r.discard_request_body();
    assert_eq!(s.0, 0);
    assert!(r.body_discarded);

    let mut r = host_request();
    r.discard_result = -1;
    let s = r.discard_request_body();
    assert_eq!(s.0, -1);
    assert!(!r.body_discarded);
}

#[test]
fn response_metadata_setters() {
    let mut r = host_request();
    r.set_status(HTTPStatus::forbidden());
    assert_eq!(r.status, 403);
    r.set_content_length_n(12);
    assert_eq!(r.content_length, Some(12));
    assert!(!r.set_header_only());
    r.header_only = true;
    assert!(r.set_header_only());
}

#[test]
fn send_header_commits_on_acceptance_only() {
    let mut r = host_request();
    let s = r.send_header();
    assert_eq!(s.0, 0);
    assert!(r.headers_sent);

    let mut r = host_request();
    r.send_header_result = -1;
    let s = r.send_header();
    assert_eq!(s.0, -1);
    assert!(!r.headers_sent);
}

#[test]
fn output_filter_streams_accepted_chunks() {
    let mut r = host_request();
    let s = r.output_filter(&NgxStr::from_bytes(b"hello ".to_vec()));
    assert_eq!(s.0, 0);
    let s = r.output_filter(&NgxStr::from_bytes(b"world".to_vec()));
    assert_eq!(s.0, 0);
    assert_eq!(r.output, b"hello world".to_vec());

    let mut r = host_request();
    r.output_filter_result = -2;
    let s = r.output_filter(&NgxStr::from_bytes(b"dropped".to_vec()));
    assert_eq!(s.0, -2);
    assert!(r.output.is_empty());
}

#[test]
fn request_pool_allocations_end_with_the_request() {
    // An allocation from the request-scoped arena is dereferenceable while
    // the request is being handled, and no longer once the host has freed
    // the arena at the end of the request.
    let mut r = host_request();
    let h = r.pool().allocate(NgxStr::from_bytes(b"scratch".to_vec()));
    assert_eq!(r.pool().get(h).map(|s| s.as_bytes()), Some(b"scratch".as_slice()));
    r.pool().end_scope();
    assert!(r.pool().get(h).is_none());
}

#[test]
fn trampoline_round_trips_every_status() {
    // For a handler returning status code C, the entry point returns
    // exactly the host's integer encoding of C: the OK marker, the
    // symbolic statuses, and an arbitrary custom code.
    let codes = [
        Status::ok(),
        HTTPStatus::http_ok().into_status(),
        HTTPStatus::internal_server_error().into_status(),
        HTTPStatus::forbidden().into_status(),
        HTTPStatus(799).into_status(),
        Status::from_native(-3),
    ];
    for handler in codes {
        let mut r = host_request();
        let code = http_request_handler(&handler, &mut r);
        assert_eq!(code, handler.0);
        assert_eq!(Status::from_native(code), handler);
    }
}

#[test]
fn trampoline_leaves_request_as_handler_left_it() {
    let mut r = host_request();
    r.status = 7;
    let code = http_request_handler(&Status::ok(), &mut r);
    assert_eq!(code, 0);
    // The fixed-status handler touches nothing.
    assert_eq!(r.status, 7);
    assert!(!r.headers_sent);
}
