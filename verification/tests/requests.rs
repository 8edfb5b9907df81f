use outline_backup::api::{build_post_request, id_request_body};
use outline_backup::connection::Connection;

#[test]
fn the_secure_flag_picks_the_scheme() {
    let secure = Connection::new(String::from("wiki.example.com"), true, String::new(), 30);
    assert_eq!(secure.server, "https://wiki.example.com");
    let plain = Connection::new(String::from("192.168.1.200:8080"), false, String::new(), 60);
    assert_eq!(plain.server, "http://192.168.1.200:8080");
}

#[test]
fn a_post_request_carries_url_headers_and_body() {
    let conn = Connection::new(
        String::from("wiki.example.com"),
        true,
        String::from("test-api-key"),
        30,
    );
    let body = id_request_body("4fe74dd9").expect("a plain id must yield a body");
    let req = build_post_request(&conn, "fileOperations.info", Some(body));
    assert_eq!(req.url, "https://wiki.example.com/api/fileOperations.info");
    assert_eq!(req.content_type, "application/json");
    assert_eq!(req.accept, "application/json");
    assert_eq!(req.authorization, "Bearer test-api-key");
    assert_eq!(req.body.as_deref(), Some("{\"id\":\"4fe74dd9\"}"));
}

#[test]
fn a_bodyless_request_has_no_body() {
    let conn = Connection::new(String::from("w.example"), true, String::from("k"), 1);
    let req = build_post_request(&conn, "collections.export_all", None);
    assert_eq!(req.url, "https://w.example/api/collections.export_all");
    assert!(req.body.is_none());
}

#[test]
fn an_id_that_would_break_the_json_string_is_refused() {
    assert!(id_request_body("ab\"cd").is_none());
    assert!(id_request_body("ab\\cd").is_none());
    assert!(id_request_body("ab\ncd").is_none());
    assert_eq!(
        id_request_body("0b9363f9-39db-47b5-9e9e-93d1d5ab85b3").as_deref(),
        Some("{\"id\":\"0b9363f9-39db-47b5-9e9e-93d1d5ab85b3\"}")
    );
}
