use kangaroo_axum::dev_server::starts_with;
use kangaroo_axum::routing::not_found_document_path;
use kangaroo_axum::{FallbackStep, FrontendDevelopmentServerClient, KangarooConfig};

#[test]
fn request_url_adds_a_slash_when_missing() {
    let client = FrontendDevelopmentServerClient::new("http://localhost:5173", "static");
    assert_eq!(client.request_url("index.css"), "http://localhost:5173/index.css");
    assert_eq!(client.request_url("/index.css"), "http://localhost:5173/index.css");
    assert_eq!(client.request_url(""), "http://localhost:5173/");
    assert_eq!(client.request_url("/"), "http://localhost:5173/");
}

#[test]
fn content_url_strips_the_folder() {
    let client = FrontendDevelopmentServerClient::new("http://dev", "tests/static");
    assert!(client.lies_in_folder("tests/static/index.html"));
    assert_eq!(client.content_url("tests/static/index.html"), "http://dev/index.html");
    assert_eq!(client.content_url("tests/staticindex.html"), "http://dev/index.html");
    assert!(!client.lies_in_folder("other/index.html"));
    assert!(!client.lies_in_folder("tests/stat"));
}

#[test]
fn starts_with_matches_std() {
    for (s, p) in [("abc", "a"), ("abc", "abc"), ("abc", ""), ("abc", "abcd"), ("äbc", "ä"), ("abc", "b")] {
        assert_eq!(starts_with(s, p), s.starts_with(p));
    }
}

#[test]
fn fallback_keeps_found_pages() {
    let client = FrontendDevelopmentServerClient::new("http://dev", "tests/static");
    assert!(matches!(client.fallback_step(200, "tests/static/index.html"), FallbackStep::KeepResponse));
    assert!(matches!(client.fallback_step(500, "tests/static/500.html"), FallbackStep::KeepResponse));
}

#[test]
fn fallback_refetches_the_not_found_document() {
    let config = KangarooConfig::new("tests/static");
    let client = FrontendDevelopmentServerClient::new("http://dev", &config.get_folder_path());
    let not_found = not_found_document_path(&config);
    match client.fallback_step(404, &not_found) {
        FallbackStep::Refetch { url, status } => {
            assert_eq!(status, 404);
            assert_eq!(url, "http://dev/index.html");
        }
        FallbackStep::KeepResponse => panic!("expected a refetch"),
    }
}

