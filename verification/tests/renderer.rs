use rdesktop::config::{RendererConfig, RendererKind as ConfigRendererKind};
use rdesktop::renderer::{html_with_base_url, RendererKind};

#[test]
fn injects_base_into_head() {
    let html = "<!doctype html><html><head><title>Test</title></head></html>";
    let result = html_with_base_url(html, "file:///C:/app/frontend");
    assert!(result.contains(r#"<base href="file:///C:/app/frontend/">"#));
    assert!(result.contains("<head>\n<base"));
}

#[test]
fn preserves_existing_base() {
    let html = r#"<head><base href="custom://app/"></head>"#;
    assert_eq!(html_with_base_url(html, "file:///ignored"), html);
}

#[test]
fn base_tag_goes_in_front_without_head() {
    let result = html_with_base_url("<p>hi</p>", "https://x.test/app/");
    assert_eq!(result, "<base href=\"https://x.test/app/\">\n<p>hi</p>");
}

#[test]
fn base_url_is_attribute_escaped() {
    let result = html_with_base_url("<HEAD lang=\"en\"><title>t</title></HEAD>", "a\"b<c>&d");
    assert_eq!(
        result,
        "<HEAD lang=\"en\">\n<base href=\"a&quot;b&lt;c&gt;&amp;d/\"><title>t</title></HEAD>"
    );
}

#[test]
fn base_injection_is_idempotent() {
    let once = html_with_base_url("<html><head></head></html>", "file:///app");
    let twice = html_with_base_url(&once, "file:///other");
    assert_eq!(once, twice);
}

#[test]
fn uppercase_base_tag_is_kept() {
    let html = "<HEAD><BASE href=\"x\"></HEAD>";
    assert_eq!(html_with_base_url(html, "file:///y"), html);
}

#[test]
fn renderer_kind_follows_config() {
    let mut config = RendererConfig::default();
    assert_eq!(RendererKind::from(&config), RendererKind::WebView);
    config.kind = ConfigRendererKind::Chrome;
    assert_eq!(RendererKind::from(&config), RendererKind::Chrome);
    assert_eq!(RendererKind::from(&ConfigRendererKind::WebView), RendererKind::WebView);
}

#[test]
fn removing_the_inserted_base_gives_the_page_back() {
    let html = "<html><head lang=\"en\"><title>T</title></head></html>";
    let result = html_with_base_url(html, "app://x");
    let piece = "\n<base href=\"app://x/\">";
    let at = result.find(piece).unwrap();
    assert_eq!(format!("{}{}", &result[..at], &result[at + piece.len()..]), html);

    let bare = "<p>no head</p>";
    let result = html_with_base_url(bare, "app://x/");
    assert_eq!(result, format!("<base href=\"app://x/\">\n{bare}"));
}
