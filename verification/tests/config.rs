use kangaroo_axum::routing::{not_found_document_path, serving_plan, ServingPlan};
use kangaroo_axum::KangarooConfig;

const SEP: &str = std::path::MAIN_SEPARATOR_STR;

fn joined(folder: &str, relative: &str) -> String {
    format!("{}{}{}", folder, SEP, relative)
}

#[test]
fn new_config_serves_index_html_by_default() {
    let config = KangarooConfig::new("tests/static");
    assert_eq!(config.get_default_path(), joined("tests/static", "index.html"));
    assert_eq!(config.get_folder_path(), "tests/static");
    assert_eq!(config.get_full_path_from_status_code(404), None);
    assert_eq!(config.get_frontend_development_server_url(), None);
    assert_eq!(SEP.chars().count(), 1);
}

#[test]
fn default_document_can_be_replaced() {
    let config = KangarooConfig::new("static").with_default_document("main.html");
    assert_eq!(config.get_default_path(), joined("static", "main.html"));
}

#[test]
fn status_document_is_read_back() {
    let config = KangarooConfig::new("tests/static").with_document_for_status(410, "gone.html");
    assert_eq!(
        config.get_full_path_from_status_code(410),
        Some(joined("tests/static", "gone.html"))
    );
    assert_eq!(config.get_full_path_from_status_code(404), None);
    assert_eq!(config.get_default_path(), joined("tests/static", "index.html"));
}

#[test]
fn last_status_document_wins() {
    let config = KangarooConfig::new("f")
        .with_document_for_status(404, "a.html")
        .with_document_for_status(404, "b.html");
    assert_eq!(config.get_full_path_from_status_code(404), Some(joined("f", "b.html")));
}

#[test]
fn status_documents_commute() {
    let one = KangarooConfig::new("f")
        .with_document_for_status(404, "a.html")
        .with_document_for_status(410, "b.html");
    let two = KangarooConfig::new("f")
        .with_document_for_status(410, "b.html")
        .with_document_for_status(404, "a.html");
    for code in [404u16, 410, 500] {
        assert_eq!(
            one.get_full_path_from_status_code(code),
            two.get_full_path_from_status_code(code)
        );
    }
}

#[test]
fn default_document_does_not_touch_status_documents() {
    let config = KangarooConfig::new("f")
        .with_document_for_status(404, "404.html")
        .with_default_document("main.html");
    assert_eq!(config.get_full_path_from_status_code(404), Some(joined("f", "404.html")));
    assert_eq!(config.get_default_path(), joined("f", "main.html"));
}

#[test]
fn relative_paths_are_joined_to_the_folder() {
    let config = KangarooConfig::new("examples/static");
    assert_eq!(
        config.get_full_path_from_relative("user.html"),
        joined("examples/static", "user.html")
    );
    assert_eq!(config.get_full_path_from_relative(""), joined("examples/static", ""));
}

#[test]
fn development_server_is_set_and_cleared() {
    let config = KangarooConfig::new("f").with_frontend_development_server(Some("http://127.0.0.1:5173"));
    assert_eq!(
        config.get_frontend_development_server_url(),
        Some("http://127.0.0.1:5173".to_string())
    );
    assert_eq!(config.get_default_path(), joined("f", "index.html"));
    let config = config.with_frontend_development_server(None);
    assert_eq!(config.get_frontend_development_server_url(), None);
}

#[test]
fn not_found_document_falls_back_to_default() {
    let config = KangarooConfig::new("examples/static");
    assert_eq!(not_found_document_path(&config), joined("examples/static", "index.html"));
    let config = config.with_document_for_status(404, "404.html");
    assert_eq!(not_found_document_path(&config), joined("examples/static", "404.html"));
}

#[test]
fn static_files_plan_without_development_server() {
    let config = KangarooConfig::new("tests/static").with_document_for_status(410, "gone.html");
    match serving_plan(&config) {
        ServingPlan::StaticFiles { folder, not_found_path } => {
            assert_eq!(folder, "tests/static");
            assert_eq!(not_found_path, joined("tests/static", "index.html"));
        }
        ServingPlan::DevelopmentServer { .. } => panic!("expected static files"),
    }
}

#[test]
fn development_server_plan_with_development_server() {
    let config = KangarooConfig::new("tests/static").with_frontend_development_server(Some("http://127.0.0.1:9"));
    match serving_plan(&config) {
        ServingPlan::DevelopmentServer { client } => {
            assert_eq!(client.get_url(), "http://127.0.0.1:9");
            assert_eq!(client.request_url("index.css"), "http://127.0.0.1:9/index.css");
        }
        ServingPlan::StaticFiles { .. } => panic!("expected a development server"),
    }
}
