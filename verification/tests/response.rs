use render_core::http::{Response, StatusError};

#[test]
fn new_response_is_empty() {
    let res = Response::new();
    assert_eq!(res.body().as_str(), "");
    assert_eq!(res.status_code(), None);
    assert_eq!(res.header_value("content-type"), None);
}

#[test]
fn insert_header_overwrites_earlier_value() {
    let mut res = Response::new();
    res.insert_header("content-type", "text/plain; charset=utf-8");
    res.insert_header("content-type", "text/html; charset=utf-8");
    assert_eq!(
        res.header_value("content-type").unwrap(),
        "text/html; charset=utf-8"
    );
}

#[test]
fn insert_header_keeps_other_keys() {
    let mut res = Response::new();
    res.insert_header("content-type", "text/css; charset=utf-8");
    res.insert_header("content-length", "12");
    assert_eq!(
        res.header_value("content-type").unwrap(),
        "text/css; charset=utf-8"
    );
    assert_eq!(res.header_value("content-length").unwrap(), "12");
    assert_eq!(res.header_value("server"), None);
}

#[test]
fn write_body_overwrites_not_appends() {
    let mut res = Response::new();
    res.write_body("first".to_owned());
    res.write_body("second".to_owned());
    assert_eq!(res.body().as_str(), "second");
}

#[test]
fn internal_server_error_is_500() {
    let err = StatusError::internal_server_error();
    assert_eq!(err.code, 500);
    let mut res = Response::new();
    res.set_status_error(err);
    assert_eq!(res.status_code(), Some(500));
}
