use xbus::config::Timeout;
use xbus::error::Error;
use xbus::request::{status_failure, Form, Method, Request, RequestBuilder, RespError, Response};

fn decoded(body: &str) -> Vec<(String, String)> {
    url::form_urlencoded::parse(body.as_bytes())
        .map(|(k, v)| (k.into_owned(), v.into_owned()))
        .collect()
}

#[test]
fn null_is_sent_as_an_empty_value() {
    let mut form = Form::new();
    assert_eq!(form.set("ttl", Ok("null".to_string())), Ok(()));
    assert_eq!(form.finish(), "ttl=");
}

#[test]
fn json_values_are_url_encoded_and_round_trip() {
    let mut form = Form::new();
    let json = "{\"service\":\"svc A\",\"zone\":\"z&1=2\"}".to_string();
    assert_eq!(form.set("desc", Ok(json.clone())), Ok(()));
    assert_eq!(form.set("lease_id", Ok("42".to_string())), Ok(()));
    let body = form.finish();
    assert_eq!(
        body,
        "desc=%7B%22service%22%3A%22svc+A%22%2C%22zone%22%3A%22z%261%3D2%22%7D&lease_id=42"
    );
    assert_eq!(
        decoded(&body),
        vec![("desc".to_string(), json), ("lease_id".to_string(), "42".to_string())]
    );
}

#[test]
fn a_string_that_reads_null_is_not_null() {
    let mut form = Form::new();
    assert_eq!(form.set("v", Ok("\"null\"".to_string())), Ok(()));
    assert_eq!(form.finish(), "v=%22null%22");
}

#[test]
fn failed_serialisation_becomes_an_error_and_leaves_the_form() {
    let mut form = Form::new();
    form.set("a", Ok("1".to_string())).unwrap();
    let r = form.set("desc", Err("boom".to_string()));
    assert_eq!(r, Err(Error::Serialize("serialize json(desc) fail: boom".to_string())));
    assert_eq!(form.finish(), "a=1");
}

#[test]
fn integers_are_serialised_by_the_form() {
    let mut form = Form::new();
    assert_eq!(form.set_int("ttl", Some(60)), Ok(()));
    assert_eq!(form.set_int("lease_id", None), Ok(()));
    assert_eq!(form.set_int("n", Some(-5)), Ok(()));
    assert_eq!(form.finish(), "ttl=60&lease_id=&n=-5");
}

#[test]
fn empty_form_has_an_empty_body() {
    assert_eq!(Form::new().finish(), "");
}

#[test]
fn url_holds_endpoint_path_and_encoded_query() {
    let r = RequestBuilder::new(
        "https://reg:4433",
        Method::Get,
        "/api/configs",
        Some(Timeout::from_secs(5)),
    )
        .param("keys", "[\"a b\",\"c/d\"]")
        .param("x", "Az09")
        .build();
    assert_eq!(
        r,
        Ok(Request {
            method: Method::Get,
            url: "https://reg:4433/api/configs?keys=%5B%22a%20b%22%2C%22c%2Fd%22%5D&x=Az09"
                .to_string(),
            headers: vec![],
            body: None,
            timeout: Some(Timeout::from_secs(5)),
        })
    );
}

#[test]
fn non_ascii_values_are_encoded_bytewise() {
    let r = RequestBuilder::new("http://h", Method::Get, "/p", None)
        .param("k", "\u{e9}~_-.")
        .build()
        .unwrap();
    assert_eq!(r.url, "http://h/p?k=%C3%A9%7E%5F%2D%2E");
}

#[test]
fn url_without_parameters_has_no_query() {
    let r = RequestBuilder::new("http://h:1", Method::Delete, "/api/leases/7", None)
        .build()
        .unwrap();
    assert_eq!(r.url, "http://h:1/api/leases/7");
    assert_eq!(r.method, Method::Delete);
    assert_eq!(r.timeout, None);
}

#[test]
fn a_parameter_replaces_one_of_the_same_name() {
    let b = RequestBuilder::new("http://h", Method::Get, "/p", None)
        .param("a", "1")
        .param("b", "2")
        .param("a", "3");
    assert_eq!(
        b.params,
        vec![("b".to_string(), "2".to_string()), ("a".to_string(), "3".to_string())]
    );
    assert_eq!(b.build().unwrap().url, "http://h/p?b=2&a=3");
}

#[test]
fn optional_parameter_is_set_only_with_a_value() {
    let b = RequestBuilder::new("http://h", Method::Get, "/p", None)
        .param_opt("label", None)
        .param_opt("zone", Some("z1"));
    assert_eq!(b.params, vec![("zone".to_string(), "z1".to_string())]);
}

#[test]
fn form_sets_body_and_content_type() {
    let mut form = Form::new();
    form.set("a", Ok("1".to_string())).unwrap();
    let r = RequestBuilder::new("http://h", Method::Post, "/p", Some(Timeout::from_secs(3)))
        .header("Dev-App", "me")
        .form(form)
        .build()
        .unwrap();
    assert_eq!(
        r.headers,
        vec![
            ("Dev-App".to_string(), "me".to_string()),
            ("Content-Type".to_string(), "application/x-www-form-urlencoded".to_string()),
        ]
    );
    assert_eq!(r.body, Some("a=1".to_string()));
}

#[test]
fn first_form_error_is_kept_and_ends_the_build() {
    let first = Error::Serialize("first".to_string());
    let second = Error::Serialize("second".to_string());
    let r = RequestBuilder::new("http://h", Method::Post, "/p", None)
        .form_result(Err(first.clone()))
        .form_result(Err(second))
        .build();
    assert_eq!(r, Err(first));
}

#[test]
fn body_replaces_the_body() {
    let b = RequestBuilder::new("http://h", Method::Post, "/p", None)
        .body("one".to_string())
        .body("two".to_string());
    assert_eq!(b.body, Some("two".to_string()));
}

#[test]
fn invalid_url_is_refused() {
    let r = RequestBuilder::new("http://exa mple", Method::Get, "/p", None).build();
    assert_eq!(r, Err(Error::Other("invalid url: http://exa mple/p".to_string())));
}

#[test]
fn envelope_without_error_detail_is_missing_error() {
    assert_eq!(Response::<u8>::convert_err(None), Error::other("missing error"));
}

#[test]
fn not_permitted_carries_message_and_keys() {
    let e = Response::<u8>::convert_err(Some(RespError {
        code: "NOT_PERMITTED".to_string(),
        message: Some("no".to_string()),
        keys: Some(vec!["svcB".to_string()]),
    }));
    assert_eq!(e, Error::NotPermitted("no".to_string(), vec!["svcB".to_string()]));
    let e = Response::<u8>::convert_err(Some(RespError {
        code: "NOT_PERMITTED".to_string(),
        message: None,
        keys: None,
    }));
    assert_eq!(e, Error::NotPermitted(String::new(), vec![]));
}

#[test]
fn other_codes_become_request_errors() {
    let e = Response::<u8>::convert_err(Some(RespError {
        code: "DEADLINE_EXCEEDED".to_string(),
        message: None,
        keys: Some(vec!["k".to_string()]),
    }));
    assert_eq!(e, Error::Request("DEADLINE_EXCEEDED".to_string(), String::new()));
    assert!(e.is_timeout());
    let e = Response::<u8>::convert_err(Some(RespError {
        code: "NOT_FOUND".to_string(),
        message: Some("gone".to_string()),
        keys: None,
    }));
    assert_eq!(e, Error::Request("NOT_FOUND".to_string(), "gone".to_string()));
}

#[test]
fn envelope_yields_its_value_or_its_error() {
    let ok = Response { ok: true, result: Some(5u8), error: None };
    assert_eq!(ok.get(), Ok(5));
    let empty = Response::<u8> { ok: true, result: None, error: None };
    assert_eq!(empty.get(), Err(Error::other("missing result")));
    let failed = Response::<u8> {
        ok: false,
        result: Some(1),
        error: Some(RespError { code: "SYSTEM_ERROR".to_string(), message: None, keys: None }),
    };
    assert_eq!(failed.get(), Err(Error::Request("SYSTEM_ERROR".to_string(), String::new())));
}

#[test]
fn envelope_get_ok_ignores_the_value() {
    assert_eq!(Response::<u8> { ok: true, result: None, error: None }.get_ok(), Ok(()));
    assert_eq!(
        Response::<u8> { ok: false, result: None, error: None }.get_ok(),
        Err(Error::other("missing error"))
    );
}

#[test]
fn envelope_get_option_allows_a_missing_value() {
    assert_eq!(Response::<u8> { ok: true, result: None, error: None }.get_option(), Ok(None));
    assert_eq!(Response { ok: true, result: Some(2u8), error: None }.get_option(), Ok(Some(2)));
    assert_eq!(
        Response::<u8> { ok: false, result: None, error: None }.get_option(),
        Err(Error::other("missing error"))
    );
}

#[test]
fn bad_status_becomes_an_error_with_the_body() {
    assert_eq!(
        status_failure("502 Bad Gateway", "upstream down"),
        Error::Other("[502 Bad Gateway]: upstream down".to_string())
    );
}

#[test]
fn assemble_forms_the_url_without_judging_it() {
    let r = RequestBuilder::new("http://exa mple", Method::Get, "/p", None)
        .param("a", "b c")
        .assemble()
        .unwrap();
    assert_eq!(r.url, "http://exa mple/p?a=b%20c");
    let e = Error::Serialize("first".to_string());
    let r = RequestBuilder::new("http://h", Method::Get, "/p", None)
        .form_result(Err(e.clone()))
        .assemble();
    assert_eq!(r, Err(e));
}

#[test]
fn accept_hands_on_or_refuses_with_the_url() {
    let r = RequestBuilder::new("http://h", Method::Get, "/p", None).assemble().unwrap();
    assert_eq!(r.clone().accept(true), Ok(r.clone()));
    assert_eq!(r.accept(false), Err(Error::Other("invalid url: http://h/p".to_string())));
}
