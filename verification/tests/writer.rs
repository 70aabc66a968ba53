use render_core::http::{Request, Response};
use render_core::writer::{Json, Piece, Text, ToJson, Writer};
use render_core::Depot;

fn fresh() -> (Request, Depot, Response) {
    (Request::new(), Depot::new(), Response::new())
}

#[test]
fn test_write_str() {
    let (mut req, mut depot, mut res) = fresh();
    "hello".write(&mut req, &mut depot, &mut res);
    assert_eq!(res.body().as_str(), "hello");
    assert_eq!(
        res.header_value("content-type").unwrap(),
        "text/plain; charset=utf-8"
    );
}

#[test]
fn test_write_string() {
    let (mut req, mut depot, mut res) = fresh();
    "hello".to_owned().write(&mut req, &mut depot, &mut res);
    assert_eq!(res.body().as_str(), "hello");
    assert_eq!(
        res.header_value("content-type").unwrap(),
        "text/plain; charset=utf-8"
    );
}

#[test]
fn test_write_plain_text() {
    let (mut req, mut depot, mut res) = fresh();
    Text::Plain("hello").write(&mut req, &mut depot, &mut res);
    assert_eq!(res.body().as_str(), "hello");
    assert_eq!(
        res.header_value("content-type").unwrap(),
        "text/plain; charset=utf-8"
    );
}

#[test]
fn test_write_json_text() {
    let (mut req, mut depot, mut res) = fresh();
    Text::Json(r#"{"hello": "world"}"#).write(&mut req, &mut depot, &mut res);
    assert_eq!(res.body().as_str(), r#"{"hello": "world"}"#);
    assert_eq!(
        res.header_value("content-type").unwrap(),
        "application/json; charset=utf-8"
    );
}

#[test]
fn test_write_json_content() {
    let (mut req, mut depot, mut res) = fresh();
    let mut user = serde_json::Map::new();
    user.insert(
        "name".to_owned(),
        serde_json::Value::String("jobs".to_owned()),
    );
    Json(serde_json::Value::Object(user)).write(&mut req, &mut depot, &mut res);
    assert_eq!(res.body().as_str(), r#"{"name":"jobs"}"#);
    assert_eq!(
        res.header_value("content-type").unwrap(),
        "application/json; charset=utf-8"
    );
}

#[test]
fn test_write_html_text() {
    let (mut req, mut depot, mut res) = fresh();
    Text::Html("<html><body>hello</body></html>").write(&mut req, &mut depot, &mut res);
    assert_eq!(res.body().as_str(), "<html><body>hello</body></html>");
    assert_eq!(
        res.header_value("content-type").unwrap(),
        "text/html; charset=utf-8"
    );
}

#[test]
fn unit_renders_nothing() {
    let mut res = Response::new();
    ().render(&mut res);
    assert_eq!(res.body().as_str(), "");
    assert_eq!(res.header_value("content-type"), None);
    assert_eq!(res.status_code(), None);
}

#[test]
fn borrowed_string_renders_plain() {
    let mut res = Response::new();
    let content = "hello".to_owned();
    (&content).render(&mut res);
    assert_eq!(res.body().as_str(), "hello");
    assert_eq!(
        res.header_value("content-type").unwrap(),
        "text/plain; charset=utf-8"
    );
    assert_eq!(content.as_str(), "hello");
}

#[test]
fn text_tags_set_their_table_entry_owned() {
    let cases: Vec<(Text<String>, &str)> = vec![
        (Text::Plain("a".to_owned()), "text/plain; charset=utf-8"),
        (Text::Json("b".to_owned()), "application/json; charset=utf-8"),
        (Text::Xml("c".to_owned()), "application/xml; charset=utf-8"),
        (Text::Html("d".to_owned()), "text/html; charset=utf-8"),
        (Text::Js("e".to_owned()), "text/javascript; charset=utf-8"),
        (Text::Css("f".to_owned()), "text/css; charset=utf-8"),
    ];
    let bodies = ["a", "b", "c", "d", "e", "f"];
    for (i, (value, ctype)) in cases.into_iter().enumerate() {
        let mut res = Response::new();
        value.render(&mut res);
        assert_eq!(res.body().as_str(), bodies[i]);
        assert_eq!(res.header_value("content-type").unwrap(), ctype);
        assert_eq!(res.status_code(), None);
    }
}

#[test]
fn text_tags_set_their_table_entry_borrowed() {
    let payload = "shared".to_owned();
    let cases: Vec<(Text<&String>, &str)> = vec![
        (Text::Plain(&payload), "text/plain; charset=utf-8"),
        (Text::Json(&payload), "application/json; charset=utf-8"),
        (Text::Xml(&payload), "application/xml; charset=utf-8"),
        (Text::Html(&payload), "text/html; charset=utf-8"),
        (Text::Js(&payload), "text/javascript; charset=utf-8"),
        (Text::Css(&payload), "text/css; charset=utf-8"),
    ];
    for (value, ctype) in cases.into_iter() {
        let mut res = Response::new();
        value.render(&mut res);
        assert_eq!(res.body().as_str(), "shared");
        assert_eq!(res.header_value("content-type").unwrap(), ctype);
    }
}

#[test]
fn text_tags_set_their_table_entry_static() {
    let cases: Vec<(Text<&'static str>, &str)> = vec![
        (Text::Plain("s"), "text/plain; charset=utf-8"),
        (Text::Json("s"), "application/json; charset=utf-8"),
        (Text::Xml("s"), "application/xml; charset=utf-8"),
        (Text::Html("s"), "text/html; charset=utf-8"),
        (Text::Js("s"), "text/javascript; charset=utf-8"),
        (Text::Css("s"), "text/css; charset=utf-8"),
    ];
    for (value, ctype) in cases.into_iter() {
        let mut res = Response::new();
        value.render(&mut res);
        assert_eq!(res.body().as_str(), "s");
        assert_eq!(res.header_value("content-type").unwrap(), ctype);
    }
}

#[test]
fn json_body_round_trips() {
    let mut inner = serde_json::Map::new();
    inner.insert("name".to_owned(), serde_json::Value::String("jobs".to_owned()));
    inner.insert("id".to_owned(), serde_json::Value::from(7u64));
    let value = serde_json::Value::Object(inner);
    let mut res = Response::new();
    Json(value.clone()).render(&mut res);
    assert_eq!(
        res.header_value("content-type").unwrap(),
        "application/json; charset=utf-8"
    );
    let decoded: serde_json::Value = serde_json::from_str(res.body()).unwrap();
    assert_eq!(decoded, value);
}

struct FailingPayload;

impl ToJson for FailingPayload {
    fn to_json(&self) -> Result<String, serde_json::Error> {
        let mut bad = std::collections::BTreeMap::new();
        bad.insert((1u8, 2u8), 3u8);
        serde_json::to_string(&bad)
    }
}

#[test]
fn json_body_failure_sets_internal_server_error() {
    let mut res = Response::new();
    res.write_body("untouched".to_owned());
    Json(FailingPayload).render(&mut res);
    assert_eq!(res.status_code(), Some(500));
    assert_eq!(res.header_value("content-type"), None);
    assert_eq!(res.body().as_str(), "untouched");
}

#[test]
fn render_json_result_ok_sets_body_and_header() {
    let mut res = Response::new();
    render_core::writer::render_json_result(Ok("[1,2]".to_owned()), &mut res);
    assert_eq!(res.body().as_str(), "[1,2]");
    assert_eq!(
        res.header_value("content-type").unwrap(),
        "application/json; charset=utf-8"
    );
    assert_eq!(res.status_code(), None);
}

#[test]
fn render_json_result_err_sets_status_only() {
    let err = serde_json::from_str::<serde_json::Value>("{").unwrap_err();
    let mut res = Response::new();
    res.insert_header("content-length", "3");
    render_core::writer::render_json_result(Err(err), &mut res);
    assert_eq!(res.status_code(), Some(500));
    assert_eq!(res.header_value("content-type"), None);
    assert_eq!(res.header_value("content-length").unwrap(), "3");
    assert_eq!(res.body().as_str(), "");
}

#[test]
fn union_success_arm_renders_like_the_arm() {
    let (mut req, mut depot, mut res) = fresh();
    let u: Result<&'static str, Text<&'static str>> = Ok("ok");
    u.write(&mut req, &mut depot, &mut res);
    assert_eq!(res.body().as_str(), "ok");
    assert_eq!(
        res.header_value("content-type").unwrap(),
        "text/plain; charset=utf-8"
    );
}

#[test]
fn union_failure_arm_renders_like_the_arm() {
    let (mut req, mut depot, mut res) = fresh();
    let u: Result<&'static str, Text<&'static str>> = Err(Text::Html("err"));
    u.write(&mut req, &mut depot, &mut res);
    assert_eq!(res.body().as_str(), "err");
    assert_eq!(
        res.header_value("content-type").unwrap(),
        "text/html; charset=utf-8"
    );
}
