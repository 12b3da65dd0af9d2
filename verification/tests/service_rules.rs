use mule::config::{db_file_path, debug_enabled, log_level_for, LogLevel};
use mule::coordinator::CacheError;
use mule::render::render_mappings;
use mule::service::{
    cors_headers, file_serve_response, health_response, ingest_response, parse_ingest_body,
    route_management, status_for, ManagementRoute, ReadOutcome,
};
use mule::store::resolve_request_path;

#[test]
fn health_is_always_ok() {
    let resp = health_response();
    assert_eq!(resp.status, 200);
    assert_eq!(resp.body, "OK");
}

#[test]
fn management_routes_exactly_two_requests() {
    assert_eq!(route_management("POST", "/cache"), ManagementRoute::CacheFile);
    assert_eq!(route_management("GET", "/mappings"), ManagementRoute::GetMappings);
    assert_eq!(route_management("GET", "/cache"), ManagementRoute::Unknown);
    assert_eq!(route_management("POST", "/mappings"), ManagementRoute::Unknown);
    assert_eq!(route_management("PUT", "/cache"), ManagementRoute::Unknown);
    assert_eq!(route_management("GET", "/"), ManagementRoute::Unknown);
}

#[test]
fn each_error_has_its_own_status() {
    assert_eq!(status_for(&CacheError::OriginFetch), 400);
    assert_eq!(status_for(&CacheError::Storage), 500);
    assert_eq!(status_for(&CacheError::NotFound), 404);
    assert_eq!(status_for(&CacheError::MalformedRequest), 400);
}

#[test]
fn storage_failure_responds_500() {
    let resp = ingest_response(Err(CacheError::Storage));
    assert_eq!(resp.status, 500);
    assert_eq!(resp.body, "Internal Server Error");
}

#[test]
fn malformed_body_responds_400() {
    let resp = ingest_response(Err(CacheError::MalformedRequest));
    assert_eq!(resp.status, 400);
    assert_eq!(resp.body, "Malformed Request");
}

#[test]
fn read_failure_is_distinct_from_absence() {
    let failure = file_serve_response(ReadOutcome::ReadFailure);
    assert_eq!(failure.status, 500);
    assert_eq!(failure.body.as_slice(), b"Internal Server Error");
    let absent = file_serve_response(ReadOutcome::Absent);
    assert_eq!(absent.status, 404);
    assert_eq!(absent.body.as_slice(), b"File Not Found");
}

#[test]
fn body_is_the_raw_url_text() {
    let r = parse_ingest_body(b"https://example.com/a.txt".to_vec());
    assert_eq!(r.unwrap(), "https://example.com/a.txt");
}

#[test]
fn undecodable_body_is_malformed() {
    let r = parse_ingest_body(vec![0xff, 0xfe, 0x00]);
    assert_eq!(r.unwrap_err(), CacheError::MalformedRequest);
}

#[test]
fn cors_allows_any_origin() {
    let headers = cors_headers();
    assert_eq!(headers.len(), 3);
    assert_eq!(headers[0].0, "Access-Control-Allow-Origin");
    assert_eq!(headers[0].1, "*");
    assert_eq!(headers[1].0, "Access-Control-Allow-Methods");
    assert_eq!(headers[1].1, "GET, POST, OPTIONS");
    assert_eq!(headers[2].0, "Access-Control-Allow-Headers");
    assert_eq!(headers[2].1, "Content-Type");
}

#[test]
fn request_paths_resolve_to_single_segments() {
    assert_eq!(resolve_request_path("/abc").as_deref(), Some("abc"));
    assert_eq!(resolve_request_path("//abc").as_deref(), Some("abc"));
    assert_eq!(resolve_request_path("abc").as_deref(), Some("abc"));
    assert_eq!(
        resolve_request_path("/e23a1e463a3d07a258a5fcdf4e5e30cd80eaa0b10aeaf7cae3ceeb4727ec598a")
            .as_deref(),
        Some("e23a1e463a3d07a258a5fcdf4e5e30cd80eaa0b10aeaf7cae3ceeb4727ec598a")
    );
    assert_eq!(resolve_request_path("/a..b").as_deref(), Some("a..b"));
}

#[test]
fn traversal_paths_are_rejected() {
    assert_eq!(resolve_request_path(""), None);
    assert_eq!(resolve_request_path("/"), None);
    assert_eq!(resolve_request_path("/."), None);
    assert_eq!(resolve_request_path("/.."), None);
    assert_eq!(resolve_request_path("/../etc"), None);
    assert_eq!(resolve_request_path("/a/b"), None);
    assert_eq!(resolve_request_path("/a\\b"), None);
}

#[test]
fn mappings_render_as_a_json_array_of_pairs() {
    assert_eq!(render_mappings(&vec![]), "[]");
    let one = vec![("d1".to_string(), "u1".to_string())];
    assert_eq!(render_mappings(&one), r#"[["d1","u1"]]"#);
    let two = vec![
        ("d1".to_string(), "u1".to_string()),
        ("d2".to_string(), "u2".to_string()),
    ];
    assert_eq!(render_mappings(&two), r#"[["d1","u1"],["d2","u2"]]"#);
}

#[test]
fn rendering_escapes_json_specials() {
    let tricky = vec![("d".to_string(), "a\"b\\c\nd".to_string())];
    assert_eq!(render_mappings(&tricky), "[[\"d\",\"a\\\"b\\\\c\\u000ad\"]]");
}

#[test]
fn debug_toggle_reads_exactly_true() {
    assert!(debug_enabled(Some("true")));
    assert!(!debug_enabled(Some("false")));
    assert!(!debug_enabled(Some("TRUE")));
    assert!(!debug_enabled(None));
    assert_eq!(log_level_for(true), LogLevel::Trace);
    assert_eq!(log_level_for(false), LogLevel::Info);
}

#[test]
fn index_urls_name_their_backing_file() {
    assert_eq!(
        db_file_path("sqlite://./data/cache_mappings.db").as_deref(),
        Some("./data/cache_mappings.db")
    );
    assert_eq!(db_file_path("sqlite://").as_deref(), Some(""));
    assert_eq!(db_file_path("mysql://db"), None);
    assert_eq!(db_file_path("sqlite:/x"), None);
}
