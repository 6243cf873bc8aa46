use kangaroo_axum::page::insert_at;
use kangaroo_axum::{plain_page_data, result_page_data, select_document_source, DocumentSource};
use kangaroo_axum::{
    data_script, inject_data_script, render_page, select_document_path, InjectionError, KangarooConfig,
};

const SEP: &str = std::path::MAIN_SEPARATOR_STR;

const INDEX: &str = "<html>
    <head>
        <title>Example</title>
    </head>
    <body>
        <h1>Home Page</h1>
    </body>
</html>
";

const CUSTOM: &str = "<html>
    <head>
        <title>Example</title>
    </head>
    <body>
        <h1>Custom</h1>
    </body>
</html>
";

const GONE: &str = "<html>
    <head>
        <title>Example</title>
    </head>
    <body>
        <h1>Gone</h1>
    </body>
</html>
";

const INVALID: &str = "<html>
    <body>
        <h1>No head</h1>
    </body>
</html>
";

fn joined(folder: &str, relative: &str) -> String {
    format!("{}{}{}", folder, SEP, relative)
}

fn mock_config() -> KangarooConfig {
    KangarooConfig::new("tests/static").with_document_for_status(410, "gone.html")
}

/// Reads the documents of the mock application, as the server would from disk.
fn read_document(path: &str) -> Option<&'static str> {
    if path == joined("tests/static", "index.html") {
        Some(INDEX)
    } else if path == joined("tests/static", "custom.html") {
        Some(CUSTOM)
    } else if path == joined("tests/static", "gone.html") {
        Some(GONE)
    } else if path == joined("tests/static", "invalid.html") {
        Some(INVALID)
    } else {
        None
    }
}

/// Renders a page of the mock application the way its handlers do.
fn render(
    custom_files: Vec<(u16, String)>,
    default_file: Option<&str>,
    status: u16,
    json: &str,
) -> (u16, String, String) {
    let config = mock_config();
    let path = select_document_path(&config, &custom_files, default_file, status);
    let response = render_page(status, Some(json), read_document(&path));
    (response.status, response.content_type, response.body)
}

fn with_script(document: &str, json: &str) -> String {
    document.replacen(
        "<head>",
        &format!("<head><script type=\"application/json\" id=\"kangaroo-data\">{}</script>", json),
        1,
    )
}

#[test]
fn home_succeeds() {
    let (status, content_type, body) = render(vec![], None, 200, "{\"resource\":\"sample resource\"}");
    assert_eq!(status, 200);
    assert_eq!(content_type, "text/html");
    assert_eq!(&body, "<html>
    <head><script type=\"application/json\" id=\"kangaroo-data\">{\"resource\":\"sample resource\"}</script>
        <title>Example</title>
    </head>
    <body>
        <h1>Home Page</h1>
    </body>
</html>
");
}

#[test]
fn not_found_error_gives_404() {
    let (status, _, body) = render(vec![], None, 404, "\"example error\"");
    assert_eq!(status, 404);
    assert_eq!(&body, "<html>
    <head><script type=\"application/json\" id=\"kangaroo-data\">\"example error\"</script>
        <title>Example</title>
    </head>
    <body>
        <h1>Home Page</h1>
    </body>
</html>
");
}

#[test]
fn parametrised_path_succeeds() {
    for parameter in &["example-1", "example-2", "example-3"] {
        let json = format!("{{\"resource\":\"{}\"}}", parameter);
        let (status, _, body) = render(vec![], None, 200, &json);
        assert_eq!(status, 200);
        assert_eq!(
            body,
            format!(
                "<html>
    <head><script type=\"application/json\" id=\"kangaroo-data\">{{\"resource\":\"{}\"}}</script>
        <title>Example</title>
    </head>
    <body>
        <h1>Home Page</h1>
    </body>
</html>
",
                parameter
            )
        );
    }
}

#[test]
fn custom_succeeds() {
    let (status, _, body) =
        render(vec![], Some("custom.html"), 200, "{\"resource\":\"sample resource\"}");
    assert_eq!(status, 200);
    assert_eq!(&body, "<html>
    <head><script type=\"application/json\" id=\"kangaroo-data\">{\"resource\":\"sample resource\"}</script>
        <title>Example</title>
    </head>
    <body>
        <h1>Custom</h1>
    </body>
</html>
");
}

#[test]
fn absent_document_gives_internal_error() {
    let (status, content_type, body) =
        render(vec![], Some("absent.html"), 200, "{\"resource\":\"sample resource\"}");
    assert_eq!(status, 500);
    assert_eq!(content_type, "text/plain");
    assert_eq!(&body, "error reading document");
}

#[test]
fn invalid_document_gives_internal_error() {
    let (status, content_type, body) =
        render(vec![], Some("invalid.html"), 200, "{\"resource\":\"sample resource\"}");
    assert_eq!(status, 500);
    assert_eq!(content_type, "text/plain");
    assert_eq!(&body, "invalid html document");
}

#[test]
fn deleted_resources_gives_status_code_specific_page() {
    let (status, _, body) = render(vec![], None, 410, "\"example error\"");
    assert_eq!(status, 410);
    assert_eq!(&body, "<html>
    <head><script type=\"application/json\" id=\"kangaroo-data\">\"example error\"</script>
        <title>Example</title>
    </head>
    <body>
        <h1>Gone</h1>
    </body>
</html>
");
}

#[test]
fn custom_deleted_resources_gives_custom_status_code_specific_page() {
    let (status, _, body) =
        render(vec![(410, "custom.html".to_string())], None, 410, "\"example error\"");
    assert_eq!(status, 410);
    assert_eq!(&body, "<html>
    <head><script type=\"application/json\" id=\"kangaroo-data\">\"example error\"</script>
        <title>Example</title>
    </head>
    <body>
        <h1>Custom</h1>
    </body>
</html>
");
}

#[test]
fn json_failure_gives_internal_error() {
    let response = render_page(200, None, Some(INDEX));
    assert_eq!(response.status, 500);
    assert_eq!(response.content_type, "text/plain");
    assert_eq!(response.body, "JSON serialization error");
    let response = render_page(200, None, None);
    assert_eq!(response.body, "JSON serialization error");
}

#[test]
fn data_script_wraps_json() {
    assert_eq!(
        data_script("{\"a\":1}"),
        "<script type=\"application/json\" id=\"kangaroo-data\">{\"a\":1}</script>"
    );
}

#[test]
fn head_tag_is_found_case_insensitively_with_attributes() {
    let html = "<!doctype html><HTML><HEAD lang=\"en\"><title>t</title></HEAD></HTML>";
    assert_eq!(
        inject_data_script(html, "1"),
        Ok(with_script(html, "1").replacen(
            "<HEAD lang=\"en\">",
            "<HEAD lang=\"en\"><script type=\"application/json\" id=\"kangaroo-data\">1</script>",
            1
        ))
    );
}

#[test]
fn header_tag_is_no_head_tag() {
    assert_eq!(
        inject_data_script("<html><header></header></html>", "1"),
        Err(InjectionError::InvalidDocument)
    );
    assert_eq!(
        inject_data_script("<html><header></header><head></head></html>", "1"),
        Ok("<html><header></header><head><script type=\"application/json\" id=\"kangaroo-data\">1</script></head></html>".to_string())
    );
}

#[test]
fn only_the_first_head_tag_gets_the_script() {
    let html = "<head></head><head></head>";
    assert_eq!(
        inject_data_script(html, "x"),
        Ok("<head><script type=\"application/json\" id=\"kangaroo-data\">x</script></head><head></head>".to_string())
    );
}

#[test]
fn non_ascii_text_before_the_head_is_kept() {
    let html = "<!-- héllo wörld --><head></head>";
    let injected = inject_data_script(html, "\"ü\"").unwrap();
    assert_eq!(
        injected,
        "<!-- héllo wörld --><head><script type=\"application/json\" id=\"kangaroo-data\">\"ü\"</script></head>"
    );
    assert_eq!(injected.replacen(&data_script("\"ü\""), "", 1), html);
}

#[test]
fn insert_at_uses_byte_offsets() {
    assert_eq!(insert_at("äb", 2, "X"), "äXb");
    assert_eq!(insert_at("ab", 0, "X"), "Xab");
    assert_eq!(insert_at("ab", 2, "X"), "abX");
}

#[test]
fn custom_file_wins_over_configured_document() {
    let config = mock_config();
    let custom = vec![(410, "custom.html".to_string()), (410, "other.html".to_string())];
    assert_eq!(
        select_document_path(&config, &custom, Some("x.html"), 410),
        joined("tests/static", "custom.html")
    );
    assert_eq!(
        select_document_path(&config, &custom, Some("x.html"), 404),
        joined("tests/static", "x.html")
    );
    assert_eq!(select_document_path(&config, &vec![], Some("x.html"), 410), joined("tests/static", "gone.html"));
    assert_eq!(select_document_path(&config, &vec![], None, 404), joined("tests/static", "index.html"));
}

#[test]
fn page_document_comes_from_the_development_server_when_one_is_set() {
    let config = mock_config().with_frontend_development_server(Some("http://127.0.0.1:5173"));
    match select_document_source(&config, &vec![], None, 200) {
        DocumentSource::DevelopmentServer(url) => assert_eq!(url, "http://127.0.0.1:5173/index.html"),
        DocumentSource::File(_) => panic!("expected the development server"),
    }
    match select_document_source(&config, &vec![], None, 410) {
        DocumentSource::DevelopmentServer(url) => assert_eq!(url, "http://127.0.0.1:5173/gone.html"),
        DocumentSource::File(_) => panic!("expected the development server"),
    }
    match select_document_source(&mock_config(), &vec![], Some("custom.html"), 200) {
        DocumentSource::File(path) => assert_eq!(path, joined("tests/static", "custom.html")),
        DocumentSource::DevelopmentServer(_) => panic!("expected a file"),
    }
}

#[test]
fn result_handlers_take_their_status_from_the_error() {
    let ok: Result<u32, &str> = Ok(7);
    assert_eq!(
        result_page_data(ok, |v: &u32| Some(v.to_string()), |_e: &str| -> (u16, Option<String>) {
            panic!("the error conversion must not run for Ok")
        }),
        (200, Some("7".to_string()))
    );
    let mut calls = 0;
    let err: Result<u32, &str> = Err("gone");
    let out = result_page_data(err, |v: &u32| Some(v.to_string()), |e: &str| {
        calls += 1;
        (410, Some(format!("\"{}\"", e)))
    });
    assert_eq!(out, (410, Some("\"gone\"".to_string())));
    assert_eq!(calls, 1);
    assert_eq!(plain_page_data("x", |_v: &&str| None), (200, None));
}
