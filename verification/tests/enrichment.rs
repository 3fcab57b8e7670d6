use notion_to_jarkup::enrich::{bookmark_preview, favicon_by_url, origin, prefer, resolve_favicon, Preview};

fn some(s: &str) -> Option<String> {
    Some(s.to_string())
}

#[test]
fn favicon_is_resolved_against_the_origin_not_the_path() {
    let page = some(r#"<html><head><link rel="icon" href="/fav.ico"></head></html>"#);
    assert_eq!(
        favicon_by_url("https://example.com/articles/x", &page),
        some("https://example.com/fav.ico")
    );
}

#[test]
fn relative_favicon_ignores_the_page_path() {
    let page = some(r#"<link rel="icon" href="fav.ico">"#);
    assert_eq!(
        favicon_by_url("https://example.com/articles/deep/x", &page),
        some("https://example.com/fav.ico")
    );
}

#[test]
fn absolute_favicon_is_kept() {
    let page = some(r#"<link rel="shortcut icon" href="https://cdn.example.net/i.png">"#);
    assert_eq!(
        favicon_by_url("https://example.com/a", &page),
        some("https://cdn.example.net/i.png")
    );
}

#[test]
fn favicon_absent_when_page_was_not_fetched() {
    assert_eq!(favicon_by_url("https://example.com/a", &None), None);
}

#[test]
fn favicon_absent_when_page_names_no_icon() {
    let page = some("<html><head><title>t</title></head></html>");
    assert_eq!(favicon_by_url("https://example.com/a", &page), None);
}

#[test]
fn favicon_absent_for_a_malformed_url() {
    let page = some(r#"<link rel="icon" href="/fav.ico">"#);
    assert_eq!(favicon_by_url("not a url", &page), None);
}

#[test]
fn favicon_is_resolved_against_an_ip_address_host() {
    let page = some(r#"<link rel="icon" href="/fav.ico">"#);
    assert_eq!(
        favicon_by_url("http://127.0.0.1/docs/x", &page),
        some("http://127.0.0.1/fav.ico")
    );
    assert_eq!(
        favicon_by_url("http://[::1]/docs/x", &page),
        some("http://[::1]/fav.ico")
    );
}

#[test]
fn favicon_absent_for_a_url_without_a_host() {
    let page = some(r#"<link rel="icon" href="/fav.ico">"#);
    assert_eq!(favicon_by_url("mailto:someone@example.com", &page), None);
}

#[test]
fn favicon_drops_the_port_of_the_page() {
    let page = some(r#"<link rel="icon" href="/fav.ico">"#);
    assert_eq!(
        favicon_by_url("http://example.com:8080/a/b", &page),
        some("http://example.com/fav.ico")
    );
}

#[test]
fn origin_is_scheme_and_host() {
    assert_eq!(origin("https", "example.com"), "https://example.com");
    assert_eq!(origin("", ""), "://");
}

#[test]
fn resolve_favicon_needs_all_three_parts() {
    assert_eq!(resolve_favicon(None, some("example.com"), some("/f.ico")), None);
    assert_eq!(resolve_favicon(some("https"), None, some("/f.ico")), None);
    assert_eq!(resolve_favicon(some("https"), some("example.com"), None), None);
    assert_eq!(
        resolve_favicon(some("https"), some("example.com"), some("/f.ico")),
        some("https://example.com/f.ico")
    );
}

#[test]
fn open_graph_reading_wins() {
    assert_eq!(prefer(some("og"), some("generic")), some("og"));
    assert_eq!(prefer(None, some("generic")), some("generic"));
    assert_eq!(prefer(some("og"), None), some("og"));
    assert_eq!(prefer(None, None), None);
}

#[test]
fn preview_is_empty_when_page_was_not_fetched() {
    assert_eq!(
        bookmark_preview(&None),
        Preview { title: None, description: None, image: None }
    );
}

#[test]
fn preview_prefers_open_graph_over_generic_tags() {
    let page = some(
        r#"<html><head>
        <title>Native Title</title>
        <meta name="description" content="Native description">
        <meta property="og:title" content="OG Title">
        <meta property="og:description" content="OG description">
        <meta property="og:image" content="https://example.com/cover.jpg">
        </head></html>"#,
    );
    assert_eq!(
        bookmark_preview(&page),
        Preview {
            title: some("OG Title"),
            description: some("OG description"),
            image: some("https://example.com/cover.jpg"),
        }
    );
}

#[test]
fn preview_falls_back_to_generic_tags() {
    let page = some(
        r#"<html><head>
        <title>  Native Title </title>
        <meta name="description" content="Native description">
        </head></html>"#,
    );
    assert_eq!(
        bookmark_preview(&page),
        Preview {
            title: some("Native Title"),
            description: some("Native description"),
            image: None,
        }
    );
}

#[test]
fn preview_of_a_page_without_tags_is_empty() {
    assert_eq!(
        bookmark_preview(&some("<p>hello</p>")),
        Preview { title: None, description: None, image: None }
    );
}
