use librqbit::error::{ApiError, ErrorStatus};
use librqbit::json::{get_string_field, object_get, value_to_string, JsonValue};
use librqbit::magnet::{magnet_response_format, torrent_content_disposition, MagnetResponseFormat};
use librqbit::search::{
    decimal_string, normalize_torrent_search_result, parse_torrent_search_body, status_is_success,
    torrent_search_response, torrent_search_results_from_json, torrent_search_url,
    upstream_query_error, client_build_error, validate_torrent_search_website,
    TorrentSearchPathParams, TorrentSearchPathParamsWithPage, TorrentSearchResult,
};

fn s(v: &str) -> JsonValue {
    JsonValue::String(v.to_string())
}

fn member(k: &str, v: JsonValue) -> (String, JsonValue) {
    (k.to_string(), v)
}

fn expect_err(r: Result<Vec<TorrentSearchResult>, ApiError>) -> ApiError {
    match r {
        Ok(v) => panic!("expected an error, got {} results", v.len()),
        Err(e) => e,
    }
}

#[test]
fn website_validation() {
    assert_eq!(validate_torrent_search_website("piratebay").unwrap(), "piratebay");
    assert_eq!(validate_torrent_search_website("rargb").unwrap(), "rarbg");
    assert_eq!(validate_torrent_search_website("rarbg").unwrap(), "rarbg");
    assert_eq!(validate_torrent_search_website("ettv").unwrap(), "ettv");
    assert_eq!(validate_torrent_search_website("zooqle").unwrap(), "zooqle");
    assert_eq!(validate_torrent_search_website("kickass").unwrap(), "kickass");
    assert_eq!(validate_torrent_search_website("torrentproject").unwrap(), "torrentproject");
    let e = validate_torrent_search_website("PirateBay").unwrap_err();
    assert_eq!(e.status, ErrorStatus::BadRequest);
    assert_eq!(e.status.code(), 400);
    assert_eq!(e.message, "unsupported torrent search website");
}

#[test]
fn website_validation_is_idempotent() {
    for w in ["piratebay", "rargb", "rarbg", "ettv", "zooqle", "kickass", "torrentproject"] {
        let site = validate_torrent_search_website(w).unwrap();
        assert_eq!(validate_torrent_search_website(site).unwrap(), site);
    }
}

#[test]
fn value_texts() {
    assert_eq!(value_to_string(Some(&s("abc"))), "abc");
    assert_eq!(value_to_string(Some(&JsonValue::Number("42".to_string()))), "42");
    assert_eq!(value_to_string(Some(&JsonValue::Bool(true))), "true");
    assert_eq!(value_to_string(Some(&JsonValue::Bool(false))), "false");
    assert_eq!(value_to_string(Some(&JsonValue::Null)), "");
    assert_eq!(value_to_string(Some(&JsonValue::Array(vec![s("x")]))), "");
    assert_eq!(value_to_string(Some(&JsonValue::Object(vec![]))), "");
    assert_eq!(value_to_string(None), "");
}

#[test]
fn first_present_key_wins() {
    let object = vec![member("name", JsonValue::Null), member("title", s("T"))];
    assert_eq!(get_string_field(&object, &["Name", "name", "title"]), "");
    let object = vec![member("title", s("T"))];
    assert_eq!(get_string_field(&object, &["Name", "name", "title"]), "T");
    assert_eq!(get_string_field(&object, &["Size", "size"]), "");
    assert!(object_get(&object, "title").is_some());
    assert!(object_get(&object, "Title").is_none());
}

#[test]
fn normalize_canonical_and_alternate_names() {
    let canonical = JsonValue::Object(vec![
        member("Name", s("Ubuntu")),
        member("Size", s("3 GB")),
        member("DateUploaded", s("2024")),
        member("Category", s("Apps")),
        member("Seeders", JsonValue::Number("10".to_string())),
        member("Leechers", s("2")),
        member("UploadedBy", s("canonical")),
        member("Url", s("http://u")),
        member("Magnet", s("magnet:?xt=1")),
    ]);
    let r = normalize_torrent_search_result(&canonical).unwrap();
    assert_eq!(r.name, "Ubuntu");
    assert_eq!(r.size, "3 GB");
    assert_eq!(r.date_uploaded, "2024");
    assert_eq!(r.category, "Apps");
    assert_eq!(r.seeders, "10");
    assert_eq!(r.leechers, "2");
    assert_eq!(r.uploaded_by, "canonical");
    assert_eq!(r.url, "http://u");
    assert_eq!(r.magnet, "magnet:?xt=1");

    let alternate = JsonValue::Object(vec![
        member("title", s("Debian")),
        member("size", s("1 GB")),
        member("Age", s("1 day")),
        member("category", s("OS")),
        member("seeders", JsonValue::Number("5".to_string())),
        member("leechers", JsonValue::Bool(false)),
        member("uploader", s("deb")),
        member("url", s("http://d")),
        member("magnet", s("magnet:?xt=2")),
    ]);
    let r = normalize_torrent_search_result(&alternate).unwrap();
    assert_eq!(r.name, "Debian");
    assert_eq!(r.date_uploaded, "1 day");
    assert_eq!(r.seeders, "5");
    assert_eq!(r.leechers, "false");
    assert_eq!(r.uploaded_by, "deb");
    assert!(normalize_torrent_search_result(&s("not an object")).is_none());
}

#[test]
fn array_results_skip_non_objects() {
    let json = JsonValue::Array(vec![
        JsonValue::Object(vec![member("Name", s("a"))]),
        JsonValue::Number("1".to_string()),
        JsonValue::Object(vec![member("name", s("b"))]),
    ]);
    let results = torrent_search_results_from_json(json).unwrap();
    assert_eq!(results.len(), 2);
    assert_eq!(results[0].name, "a");
    assert_eq!(results[1].name, "b");
    assert_eq!(results[0].magnet, "");
}

#[test]
fn wrapped_results() {
    for key in ["results", "data", "items"] {
        let json = JsonValue::Object(vec![member(
            key,
            JsonValue::Array(vec![JsonValue::Object(vec![member("Name", s("x"))])]),
        )]);
        let results = torrent_search_results_from_json(json).unwrap();
        assert_eq!(results.len(), 1);
        assert_eq!(results[0].name, "x");
    }
    // `results` that is not an array is passed over for `data`.
    let json = JsonValue::Object(vec![
        member("results", s("none")),
        member("data", JsonValue::Array(vec![])),
    ]);
    assert_eq!(torrent_search_results_from_json(json).unwrap().len(), 0);
}

#[test]
fn upstream_error_object() {
    let json = JsonValue::Object(vec![
        member("results", JsonValue::Array(vec![])),
        member("error", s("rate limited")),
    ]);
    let e = expect_err(torrent_search_results_from_json(json));
    assert_eq!(e.status, ErrorStatus::BadGateway);
    assert_eq!(e.message, "torrent search upstream error: rate limited");
    // A non-string `error` is not an upstream error.
    let json = JsonValue::Object(vec![
        member("error", JsonValue::Bool(true)),
        member("items", JsonValue::Array(vec![])),
    ]);
    assert_eq!(torrent_search_results_from_json(json).unwrap().len(), 0);
}

#[test]
fn unsupported_json() {
    let e = expect_err(torrent_search_results_from_json(JsonValue::Object(vec![member("x", s("y"))])));
    assert_eq!(e.status, ErrorStatus::BadGateway);
    assert_eq!(e.status.code(), 502);
    assert_eq!(e.message, "torrent search upstream returned an unsupported JSON object");
    let e = expect_err(torrent_search_results_from_json(JsonValue::Number("3".to_string())));
    assert_eq!(e.message, "torrent search upstream returned unsupported JSON");
    let e = expect_err(torrent_search_results_from_json(JsonValue::Null));
    assert_eq!(e.status, ErrorStatus::BadGateway);
}

#[test]
fn parse_body_end_to_end() {
    let body = r#"[{"Name":"n","Seeders":12,"Leechers":true,"Magnet":"m"}, 7, {"title":"t"}]"#;
    let results = parse_torrent_search_body(body).unwrap();
    assert_eq!(results.len(), 2);
    assert_eq!(results[0].name, "n");
    assert_eq!(results[0].seeders, "12");
    assert_eq!(results[0].leechers, "true");
    assert_eq!(results[0].magnet, "m");
    assert_eq!(results[1].name, "t");

    let body = r#"{"data":[{"name":"d","size":1.5}]}"#;
    let results = parse_torrent_search_body(body).unwrap();
    assert_eq!(results[0].name, "d");
    assert_eq!(results[0].size, "1.5");

    let e = expect_err(parse_torrent_search_body(r#"{"error":"boom"}"#));
    assert_eq!(e.message, "torrent search upstream error: boom");

    let e = expect_err(parse_torrent_search_body("not json"));
    assert_eq!(e.status, ErrorStatus::InternalServerError);
    assert_eq!(e.status.code(), 500);
    assert_eq!(e.message, "error parsing torrent search response");

    let e = expect_err(parse_torrent_search_body("\"text\""));
    assert_eq!(e.message, "torrent search upstream returned unsupported JSON");
}

#[test]
fn wrapped_and_bare_lists_agree() {
    let bare = parse_torrent_search_body(r#"[{"Name":"a"},{"Name":"b"}]"#).unwrap();
    let wrapped = parse_torrent_search_body(r#"{"results":[{"Name":"a"},{"Name":"b"}]}"#).unwrap();
    assert_eq!(bare.len(), wrapped.len());
    for (x, y) in bare.iter().zip(wrapped.iter()) {
        assert_eq!(x.name, y.name);
    }
}

#[test]
fn decimal_strings() {
    assert_eq!(decimal_string(0), "0");
    assert_eq!(decimal_string(7), "7");
    assert_eq!(decimal_string(120), "120");
    assert_eq!(decimal_string(u32::MAX), u32::MAX.to_string());
}

#[test]
fn search_urls() {
    assert_eq!(
        torrent_search_url("piratebay", "ubuntu iso", None).unwrap(),
        "http://127.0.0.1:8080/api/piratebay/ubuntu%20iso"
    );
    assert_eq!(
        torrent_search_url("rargb", "a/b", Some(3)).unwrap(),
        "http://127.0.0.1:8080/api/rarbg/a%2Fb/3"
    );
    let e = torrent_search_url("google", "x", None).unwrap_err();
    assert_eq!(e.status, ErrorStatus::BadRequest);
    let p = TorrentSearchPathParams { website: "ettv".to_string(), query: "q".to_string() };
    assert_eq!(p.search_url().unwrap(), "http://127.0.0.1:8080/api/ettv/q");
    let p = TorrentSearchPathParamsWithPage { website: "kickass".to_string(), query: "q".to_string(), page: 12 };
    assert_eq!(p.search_url().unwrap(), "http://127.0.0.1:8080/api/kickass/q/12");
}

#[test]
fn upstream_responses() {
    assert!(status_is_success(200));
    assert!(status_is_success(299));
    assert!(!status_is_success(300));
    assert!(!status_is_success(199));
    let e = expect_err(torrent_search_response(404, Some("nope")));
    assert_eq!(e.status, ErrorStatus::BadGateway);
    assert_eq!(e.message, "torrent search upstream returned 404 Not Found: nope");
    let e = expect_err(torrent_search_response(503, None));
    assert_eq!(e.message, "torrent search upstream returned 503 Service Unavailable: ");
    let e = expect_err(torrent_search_response(200, None));
    assert_eq!(e.status, ErrorStatus::InternalServerError);
    assert_eq!(e.message, "error reading torrent search response body");
    let ok = torrent_search_response(200, Some(r#"[{"Name":"z"}]"#)).unwrap();
    assert_eq!(ok[0].name, "z");
}

#[test]
fn request_errors() {
    let e = upstream_query_error("connection refused");
    assert_eq!(e.status, ErrorStatus::BadGateway);
    assert_eq!(e.message, "error querying torrent search upstream: connection refused");
    let e = client_build_error();
    assert_eq!(e.status, ErrorStatus::InternalServerError);
    assert_eq!(e.message, "error building torrent search client");
    let e = ApiError::new(ErrorStatus::BadRequest, "m");
    assert_eq!(e.message, "m");
    let e = ApiError::with_detail(ErrorStatus::BadGateway, "a: ", "b");
    assert_eq!(e.message, "a: b");
}

#[test]
fn magnet_format() {
    assert_eq!(magnet_response_format(Some("application/json")), MagnetResponseFormat::Json);
    assert_eq!(magnet_response_format(Some("application/json; q=1")), MagnetResponseFormat::Torrent);
    assert_eq!(magnet_response_format(None), MagnetResponseFormat::Torrent);
    assert_eq!(MagnetResponseFormat::Json.content_type(), "application/json");
    assert_eq!(MagnetResponseFormat::Torrent.content_type(), "application/x-bittorrent");
}

#[test]
fn content_disposition() {
    assert_eq!(
        torrent_content_disposition("ubuntu").unwrap(),
        "attachment; filename=\"ubuntu.torrent\""
    );
    assert_eq!(
        torrent_content_disposition("naïve\tname").unwrap(),
        "attachment; filename=\"naïve\tname.torrent\""
    );
    assert!(torrent_content_disposition("bad\nname").is_none());
    assert!(torrent_content_disposition("del\u{7f}").is_none());
}

#[test]
fn query_length_limit_is_generous() {
    let long = "x".repeat(10_000);
    let url = torrent_search_url("ettv", &long, Some(1)).unwrap();
    assert!(url.ends_with("/1"));
    assert!(librqbit::search::MAX_SEARCH_QUERY_CHARS >= 10_000);
}
