use ngx::status::HTTPStatus;
use ngx::status::Status;
use ngx::status::NGX_HTTP_FORBIDDEN;
use ngx::status::NGX_HTTP_INTERNAL_SERVER_ERROR;
use ngx::status::NGX_HTTP_OK;
use ngx::status::NGX_OK;

#[test]
fn ok_status_is_zero() {
    let s = Status::ok();
    assert_eq!(s.0, NGX_OK);
    assert!(s.is_success());
}

#[test]
fn nonzero_status_is_not_success() {
    let s = Status::from_native(-1);
    assert!(!s.is_success());
    assert_eq!(s.0, -1);
}

#[test]
fn symbolic_http_statuses() {
    assert_eq!(HTTPStatus::http_ok().0, NGX_HTTP_OK);
    assert_eq!(HTTPStatus::forbidden().0, NGX_HTTP_FORBIDDEN);
    assert_eq!(HTTPStatus::internal_server_error().0, NGX_HTTP_INTERNAL_SERVER_ERROR);
    assert_eq!(NGX_HTTP_OK, 200);
    assert_eq!(NGX_HTTP_FORBIDDEN, 403);
    assert_eq!(NGX_HTTP_INTERNAL_SERVER_ERROR, 500);
}

#[test]
fn http_status_into_status() {
    let s: Status = HTTPStatus::forbidden().into_status();
    assert_eq!(s.0, 403);
    let t: Status = Status::from(HTTPStatus::http_ok());
    assert_eq!(t.0, 200);
    let u: Status = HTTPStatus(u16::MAX as usize).into();
    assert_eq!(u.0, 65535);
}

#[test]
fn status_native_round_trip() {
    for code in [0isize, 200, 403, 500, 7777, -5] {
        let s = Status::from_native(code);
        assert_eq!(s.into_native(), code);
    }
}

#[test]
fn http_status_round_trip_through_native() {
    for code in [200usize, 403, 500, 99, 9999] {
        let native = HTTPStatus(code).into_status().into_native();
        assert!(native >= 0);
        assert_eq!(native as usize, code);
    }
}
