use chuchi::api_util::{
    setup_request, extraction_error, transform_body_to_response, ApiError, ApiFailure,
    ApiRequestSettings, ResponseSettings,
};
use chuchi::caching::{Caching, Etag};
use chuchi::compose_uri;
use chuchi::fetch::{fetch_method, is_loopback, loopback_response, FetchRequest, loopback_request};
use chuchi::header::{
    header_name_valid, header_value_valid, method_name, parse_method, sanitize_headers,
    valid_status_code, HeaderValues, Method, RequestHeader, Response, ResponseHeader,
};
use chuchi::path_params::{ParamsNames, PathParams};
use chuchi::router::{method_to_num, optional_rest_path, MethodRouter, RouteInsertError};
use chuchi::text::{to_ascii_upper, u64_to_string};
use chuchi::ws::{log_websocket_return, switching_protocols, upgrade, websocket_accept, LogWebSocketReturn};

fn values_of(pairs: &[(&str, &str)]) -> HeaderValues {
    let mut v = HeaderValues::new();
    for (k, val) in pairs {
        v.insert(k, val.to_string());
    }
    v
}

#[test]
fn decimal_rendering() {
    assert_eq!(u64_to_string(0), "0");
    assert_eq!(u64_to_string(7), "7");
    assert_eq!(u64_to_string(86400), "86400");
    assert_eq!(u64_to_string(u64::MAX), "18446744073709551615");
}

#[test]
fn ascii_upper_folds_letters_only() {
    assert_eq!(to_ascii_upper("get"), "GET");
    assert_eq!(to_ascii_upper("x-My-Header9!"), "X-MY-HEADER9!");
    assert_eq!(to_ascii_upper(""), "");
}

#[test]
fn method_parsing() {
    assert_eq!(parse_method("GET"), Method::Get);
    assert_eq!(parse_method("post"), Method::Post);
    assert_eq!(parse_method("PaTcH"), Method::Patch);
    assert_eq!(parse_method("BREW"), Method::Other);
    assert_eq!(method_name(&Method::Delete), "DELETE");
    assert_eq!(fetch_method("options"), Method::Options);
    // an unknown method falls back to a plain GET for fetches
    assert_eq!(fetch_method("BREW"), Method::Get);
}

#[test]
fn method_buckets() {
    assert_eq!(method_to_num(Some(&Method::Get)), 0);
    assert_eq!(method_to_num(Some(&Method::Trace)), 8);
    assert_eq!(method_to_num(Some(&Method::Other)), 9);
    assert_eq!(method_to_num(None), 9);
}

#[test]
fn uri_composition() {
    assert_eq!(compose_uri("/hello", None), "/hello");
    assert_eq!(compose_uri("/hello", Some("a=1&b=2")), "/hello?a=1&b=2");
}

#[test]
fn header_validity_and_sanitizing() {
    assert!(header_name_valid("content-type"));
    assert!(header_name_valid("X-Custom9"));
    assert!(!header_name_valid(""));
    assert!(!header_name_valid("bad key"));
    assert!(header_value_valid("text/plain; charset=utf-8"));
    assert!(!header_value_valid("line\nbreak"));
    let raw = vec![
        ("accept".to_string(), "text/html".to_string()),
        ("bad key".to_string(), "v".to_string()),
        ("x-ok".to_string(), "tab\tis fine".to_string()),
        ("x-bad".to_string(), "no\nnewline".to_string()),
    ];
    let kept = sanitize_headers(&raw);
    assert_eq!(
        kept,
        vec![
            ("accept".to_string(), "text/html".to_string()),
            ("x-ok".to_string(), "tab\tis fine".to_string()),
        ]
    );
}

#[test]
fn header_map_insert_replaces() {
    let mut v = HeaderValues::new();
    v.insert("etag", "one".to_string());
    v.insert("age", "3".to_string());
    v.insert("etag", "two".to_string());
    assert_eq!(v.value("etag"), Some(&"two".to_string()));
    assert_eq!(v.value("age"), Some(&"3".to_string()));
    assert_eq!(v.value("missing"), None);
}

#[test]
fn loopback_classification() {
    assert!(is_loopback("/ping"));
    assert!(is_loopback("/"));
    assert!(!is_loopback("https://example.com/x"));
    assert!(!is_loopback(""));
}

#[test]
fn loopback_request_shape() {
    let req = FetchRequest {
        url: "/ping".to_string(),
        method: "post".to_string(),
        headers: vec![
            ("accept".to_string(), "*/*".to_string()),
            ("bad key".to_string(), "v".to_string()),
        ],
        body: "hi".to_string(),
    };
    let header = loopback_request(&req);
    assert_eq!(header.address, "0.0.0.0:0");
    assert_eq!(header.method, Method::Post);
    assert_eq!(header.uri, "/ping");
    assert_eq!(header.values.entries, vec![("accept".to_string(), "*/*".to_string())]);
}

#[test]
fn loopback_route_found_is_returned_verbatim() {
    let resp = Response {
        header: ResponseHeader {
            status_code: 200,
            content_type: "text/html".to_string(),
            values: HeaderValues::new(),
        },
        body: String::new(),
    };
    let out = loopback_response(Some(resp));
    assert_eq!(out.status, 200);
    assert_eq!(out.body, "");
    assert_eq!(out.headers, vec![("content-type".to_string(), "text/html".to_string())]);
}

#[test]
fn loopback_without_route_is_not_found() {
    let out = loopback_response(None);
    assert_eq!(out.status, 404);
    assert!(out.headers.is_empty());
    assert_eq!(out.body, "");
}

#[test]
fn etag_is_thirty_alphanumerics() {
    let a = Etag::new();
    let b = Etag::new();
    assert_eq!(a.as_str().len(), 30);
    assert!(a.as_str().chars().all(|c| c.is_ascii_alphanumeric()));
    assert_ne!(a.as_str(), b.as_str());
}

#[test]
fn cache_control_text() {
    let c = Caching::new(60);
    assert_eq!(c.cache_control_string(), "max-age=60, public");
    let d = Caching::default();
    assert_eq!(d.cache_control_string(), "max-age=86400, public");
}

#[test]
fn if_none_match_compares_exactly() {
    let tag = "ABCDEFGHIJKLMNOPQRSTUVWXYZabcd".to_string();
    let c = Caching { max_age_secs: 60, etag: Etag(tag.clone()) };
    let hit = RequestHeader {
        address: String::new(),
        method: Method::Get,
        uri: "/".to_string(),
        values: values_of(&[("if-none-match", &tag)]),
    };
    assert!(c.if_none_match(&hit));
    let miss = RequestHeader {
        address: String::new(),
        method: Method::Get,
        uri: "/".to_string(),
        values: values_of(&[("if-none-match", "short")]),
    };
    assert!(!c.if_none_match(&miss));
    let absent = RequestHeader {
        address: String::new(),
        method: Method::Get,
        uri: "/".to_string(),
        values: HeaderValues::new(),
    };
    assert!(!c.if_none_match(&absent));
}

#[test]
fn complete_header_writes_caching_headers() {
    let tag = "ABCDEFGHIJKLMNOPQRSTUVWXYZabcd".to_string();
    let c = Caching { max_age_secs: 60, etag: Etag(tag.clone()) };
    let mut ok = ResponseHeader {
        status_code: 200,
        content_type: String::new(),
        values: HeaderValues::new(),
    };
    c.clone().complete_header(&mut ok);
    assert_eq!(ok.values.value("cache-control"), Some(&"max-age=60, public".to_string()));
    assert_eq!(ok.values.value("etag"), Some(&tag));
    let mut not_found = ResponseHeader {
        status_code: 404,
        content_type: String::new(),
        values: HeaderValues::new(),
    };
    c.complete_header(&mut not_found);
    assert_eq!(not_found.values.value("cache-control"), Some(&"max-age=60, public".to_string()));
    assert_eq!(not_found.values.value("etag"), None);
}

#[test]
fn caching_into_response_is_not_modified() {
    let tag = "ABCDEFGHIJKLMNOPQRSTUVWXYZabcd".to_string();
    let c = Caching { max_age_secs: 60, etag: Etag(tag.clone()) };
    let r = c.into_response();
    assert_eq!(r.header.status_code, 304);
    assert_eq!(r.header.values.value("etag"), Some(&tag));
    assert_eq!(r.body, "");
}

#[test]
fn params_names_from_templates() {
    let n = ParamsNames::parse("/hello/{name}");
    assert!(n.contains("name"));
    assert!(!n.contains("other"));
    assert!(!n.is_empty());
    let wild = ParamsNames::parse("/wild/{*rest}");
    assert!(wild.contains("rest"));
    let opt = ParamsNames::parse("/opt/{*?rest}");
    assert!(opt.contains("rest"));
    let escaped = ParamsNames::parse("/brace/{{literal}}");
    assert!(escaped.is_empty());
    let two = ParamsNames::parse("/{a}/{b}");
    assert!(two.contains("a") && two.contains("b"));
    let none = ParamsNames::parse("/plain");
    assert!(none.is_empty());
}

#[test]
fn path_params_lookup_and_parse() {
    let p = PathParams::new(vec![
        ("name".to_string(), "world".to_string()),
        ("id".to_string(), "123".to_string()),
    ]);
    assert!(p.contains("name"));
    assert!(!p.contains("missing"));
    assert_eq!(p.get("name"), Some("world"));
    assert_eq!(p.get("missing"), None);
    assert_eq!(p.parse::<i32>("id"), Some(123));
    assert_eq!(p.parse::<i32>("name"), None);
    // a missing key reads as the empty string
    assert_eq!(p.parse::<String>("missing"), Some(String::new()));
}

#[test]
fn optional_rest_expansion() {
    let (root, rest) = optional_rest_path("/opt/{*?rest}").unwrap();
    assert_eq!(root, "/opt/");
    assert_eq!(rest, "/opt/{*rest}");
    assert!(optional_rest_path("/plain").is_none());
    assert!(optional_rest_path("/x/{name}").is_none());
    assert!(optional_rest_path("/x/{*rest}").is_none());
}

#[test]
fn method_router_matches_per_method() {
    let mut r: MethodRouter<u32> = MethodRouter::new();
    r.insert(Some(&Method::Get), "/hello/{name}", 1).unwrap();
    r.insert(Some(&Method::Post), "/hello/{name}", 2).unwrap();
    let (v, params) = r.at(Some(&Method::Get), "/hello/world").unwrap();
    assert_eq!(*v, 1);
    assert_eq!(params, vec![("name".to_string(), "world".to_string())]);
    let (v2, _) = r.at(Some(&Method::Post), "/hello/world").unwrap();
    assert_eq!(*v2, 2);
    assert!(r.at(Some(&Method::Get), "/nothing").is_none());
    assert!(r.at(None, "/hello/world").is_none());
}

#[test]
fn method_router_optional_rest_shapes() {
    let mut r: MethodRouter<u32> = MethodRouter::new();
    r.insert(Some(&Method::Get), "/opt/{*?rest}", 7).unwrap();
    let (v, _) = r.at(Some(&Method::Get), "/opt").unwrap();
    assert_eq!(*v, 7);
    let (v, _) = r.at(Some(&Method::Get), "/opt/").unwrap();
    assert_eq!(*v, 7);
    let (v, params) = r.at(Some(&Method::Get), "/opt/123").unwrap();
    assert_eq!(*v, 7);
    assert_eq!(params, vec![("rest".to_string(), "123".to_string())]);
    let clash = r.insert(Some(&Method::Get), "/opt/{*other}", 8);
    assert!(matches!(clash, Err(RouteInsertError::Conflict(_))));
}

#[test]
fn method_router_buckets_are_disjoint() {
    let mut r: MethodRouter<u32> = MethodRouter::new();
    r.insert(Some(&Method::Get), "/hello/{name}", 1).unwrap();
    let (v, params) = r.at(Some(&Method::Get), "/hello/name").unwrap();
    assert_eq!(*v, 1);
    assert_eq!(params, vec![("name".to_string(), "name".to_string())]);
    // the POST bucket was never touched and matches nothing
    assert!(r.at(Some(&Method::Post), "/hello/name").is_none());
}

#[test]
fn status_code_range() {
    assert!(valid_status_code(100));
    assert!(valid_status_code(200));
    assert!(valid_status_code(999));
    assert!(!valid_status_code(99));
    assert!(!valid_status_code(1000));
    assert!(!valid_status_code(0));
}

#[test]
fn method_router_refuses_bad_template() {
    let mut r: MethodRouter<u32> = MethodRouter::new();
    let bad = r.insert(Some(&Method::Get), "/x/{name", 1);
    assert!(matches!(bad, Err(RouteInsertError::InvalidParam)));
}

#[test]
fn websocket_accept_key_matches_known_vector() {
    let key = b"dGhlIHNhbXBsZSBub25jZQ==".to_vec();
    assert_eq!(websocket_accept(&key), "s3pPLMBiTxaQ9kYGzzhZRbK+xOo=");
}

#[test]
fn upgrade_checks_headers() {
    let good = values_of(&[
        ("upgrade", "websocket"),
        ("sec-websocket-version", "13"),
        ("sec-websocket-key", "dGhlIHNhbXBsZSBub25jZQ=="),
    ]);
    assert_eq!(upgrade(&good), Some("s3pPLMBiTxaQ9kYGzzhZRbK+xOo=".to_string()));
    let wrong_version = values_of(&[
        ("upgrade", "websocket"),
        ("sec-websocket-version", "12"),
        ("sec-websocket-key", "dGhlIHNhbXBsZSBub25jZQ=="),
    ]);
    assert_eq!(upgrade(&wrong_version), None);
    let no_key = values_of(&[("upgrade", "websocket"), ("sec-websocket-version", "13")]);
    assert_eq!(upgrade(&no_key), None);
}

#[test]
fn switching_protocols_response() {
    let r = switching_protocols("s3pPLMBiTxaQ9kYGzzhZRbK+xOo=".to_string());
    assert_eq!(r.header.status_code, 101);
    assert_eq!(r.header.values.value("connection"), Some(&"upgrade".to_string()));
    assert_eq!(r.header.values.value("upgrade"), Some(&"websocket".to_string()));
    assert_eq!(
        r.header.values.value("sec-websocket-accept"),
        Some(&"s3pPLMBiTxaQ9kYGzzhZRbK+xOo=".to_string())
    );
    assert_eq!(r.body, "");
}

struct HandlerEnd(Result<(), String>);

impl LogWebSocketReturn for HandlerEnd {
    fn should_log_error(&self) -> bool {
        self.0.is_err()
    }
}

#[test]
fn websocket_return_logging_flag() {
    assert!(!log_websocket_return(&HandlerEnd(Ok(()))));
    assert!(log_websocket_return(&HandlerEnd(Err("closed badly".to_string()))));
}

#[test]
fn setup_request_demands_headers() {
    let values = values_of(&[("x-session", "abc")]);
    let mut settings = ApiRequestSettings { size_limit: None, timeout_secs: None };
    let ok = setup_request(&mut settings, &values, 4096, 60, &vec!["x-session".to_string()]);
    assert!(ok.is_ok());
    assert_eq!(settings.size_limit, Some(4096));
    assert_eq!(settings.timeout_secs, Some(60));
    let required = vec!["x-session".to_string(), "x-token".to_string()];
    let missing = setup_request(&mut settings, &values, 4096, 60, &required);
    match missing {
        Err(ApiError::HeadersMissing(names)) => assert_eq!(names, required),
        _ => panic!("a missing required header must be reported"),
    }
}

#[test]
fn extraction_error_carries_text() {
    match extraction_error("no such resource".to_string()) {
        ApiError::ExtractionError(t) => assert_eq!(t, "no such resource"),
        _ => panic!("wrong variant"),
    }
}

#[test]
fn handler_outcomes_become_responses() {
    let ok = transform_body_to_response(Ok((
        ResponseSettings { status: 201, headers: values_of(&[("x-extra", "1")]) },
        "{\"ok\":true}".to_string(),
    )))
    .unwrap();
    assert_eq!(ok.header.status_code, 201);
    assert_eq!(ok.header.content_type, "application/json");
    assert_eq!(ok.header.values.value("x-extra"), Some(&"1".to_string()));
    assert_eq!(ok.body, "{\"ok\":true}");

    let failed = transform_body_to_response(Err(ApiFailure {
        status: 404,
        serialized: Ok("{\"error\":\"gone\"}".to_string()),
    }))
    .unwrap();
    assert_eq!(failed.header.status_code, 404);
    assert_eq!(failed.body, "{\"error\":\"gone\"}");
    assert!(failed.header.values.entries.is_empty());

    let broken = transform_body_to_response(Err(ApiFailure {
        status: 500,
        serialized: Err("cannot serialize".to_string()),
    }));
    match broken {
        Err(text) => assert_eq!(text, "cannot serialize"),
        _ => panic!("an unserializable failure must be given up on"),
    }
}
