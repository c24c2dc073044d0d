use feed_collector::collector::HttpCollector;
use feed_collector::error::ErrorKind;
use feed_collector::models::FeedKind;

fn pairs(v: &[(&str, FeedKind)]) -> Vec<(String, FeedKind)> {
    v.iter().map(|(u, k)| (u.to_string(), *k)).collect()
}

#[test]
fn test_detect_possible_feeds() {
    let content = r#"
        <html>
        <head>
        <link type="application/rss+xml" href="https://test_detect_possible_feeds.rss">
        <link type="application/atom+xml" href="https://test_detect_possible_feeds.atom">
        <link rel="https://api.w.org/" href="https://wp-url.wp">
        </head>
        <body>
        <div>
        <a href="https://a.com/feeds/rss/"></a>
        <a href="https://a.com/feeds/rss"></a>
        <a href="/feeds/rss"></a>
        </div>
        </body>
        </html>
        "#;
    let collector = HttpCollector::new();
    let detected = collector.detect_possible_feeds("https://test.test", content).unwrap();
    assert_eq!(
        detected,
        vec![
            ("https://test_detect_possible_feeds.rss".to_string(), FeedKind::RSS),
            ("https://test_detect_possible_feeds.atom".to_string(), FeedKind::Atom),
            ("https://wp-url.wp/wp/v2/posts".to_string(), FeedKind::WP),
            ("https://test.test/wp/v2/posts".to_string(), FeedKind::WP),
            ("https://wp-url.wp/feed/".to_string(), FeedKind::RSS),
            ("https://test.test/feed/".to_string(), FeedKind::RSS),
        ]
    )
}

#[test]
fn relative_rss_link_is_joined() {
    let html = r#"<html><head><link type="application/rss+xml" href="/feed.xml"></head></html>"#;
    let c = HttpCollector::new();
    let d = c.detect_possible_feeds("https://example.com/", html).unwrap();
    assert_eq!(d, pairs(&[("https://example.com/feed.xml", FeedKind::RSS)]));
}

#[test]
fn wp_marker_adds_four_candidates() {
    let html = r#"<html><head><link rel="https://api.w.org/" href="https://example.com/"></head></html>"#;
    let c = HttpCollector::new();
    let d = c.detect_possible_feeds("https://example.com/", html).unwrap();
    assert_eq!(
        d,
        pairs(&[
            ("https://example.com/wp/v2/posts", FeedKind::WP),
            ("https://example.com/wp/v2/posts", FeedKind::WP),
            ("https://example.com/feed/", FeedKind::RSS),
            ("https://example.com/feed/", FeedKind::RSS),
        ])
    );
}

#[test]
fn wp_marker_with_existing_feed_link() {
    let html = r#"<html><head>
        <link type="application/rss+xml" href="https://example.com/feed/">
        <link rel="https://api.w.org/" href="https://example.com/wp-json/">
        </head></html>"#;
    let c = HttpCollector::new();
    let d = c.detect_possible_feeds("https://example.com/", html).unwrap();
    assert_eq!(
        d,
        pairs(&[
            ("https://example.com/feed/", FeedKind::RSS),
            ("https://example.com/wp-json/wp/v2/posts", FeedKind::WP),
            ("https://example.com/wp/v2/posts", FeedKind::WP),
        ])
    );
}

#[test]
fn anchors_are_a_fallback_only() {
    let html = r#"<html><body>
        <a href="https://a.com/feeds/rss/"></a>
        <a href="/news"></a>
        <a href="/feeds/rss"></a>
        </body></html>"#;
    let c = HttpCollector::new();
    let d = c.detect_possible_feeds("https://test.test", html).unwrap();
    assert_eq!(
        d,
        pairs(&[("https://a.com/feeds/rss/", FeedKind::RSS), ("https://test.test/feeds/rss", FeedKind::RSS)])
    );
    let with_link = r#"<html><head><link type="application/atom+xml" href="https://b.com/atom"></head>
        <body><a href="https://a.com/feeds/rss/"></a></body></html>"#;
    let d = c.detect_possible_feeds("https://test.test", with_link).unwrap();
    assert_eq!(d, pairs(&[("https://b.com/atom", FeedKind::Atom)]));
}

#[test]
fn page_without_markers_has_no_candidates() {
    let html = r#"<html><head><title>x</title></head><body><a href="/about">about</a></body></html>"#;
    let c = HttpCollector::new();
    let s = c.scan_page("https://example.com/", html).unwrap();
    assert!(s.candidates.is_empty());
    assert!(s.feeds.is_empty());
    assert_eq!(s.favicon, None);
}

#[test]
fn scan_page_reads_favicon_and_page_feed() {
    let html = r#"<html><head><link rel="icon" href="https://example.com/favicon.ico">
        <link type="application/rss+xml" href="/rss"></head></html>"#;
    let c = HttpCollector::new();
    let s = c.scan_page("https://example.com/", html).unwrap();
    assert_eq!(s.favicon, Some("https://example.com/favicon.ico".to_string()));
    assert_eq!(s.candidates, pairs(&[("https://example.com/rss", FeedKind::RSS)]));
}

#[test]
fn invalid_page_url_is_an_error() {
    let c = HttpCollector::new();
    let e = c.detect_possible_feeds("not a url", "<html></html>").unwrap_err();
    assert_eq!(e.kind, ErrorKind::UrlParse);
}

#[test]
fn relative_href_without_slash_is_joined() {
    let html = r#"<html><head><link type="application/rss+xml" href="feed.xml"></head></html>"#;
    let c = HttpCollector::new();
    let d = c.detect_possible_feeds("https://example.com/blog/", html).unwrap();
    assert_eq!(d, pairs(&[("https://example.com/blog/feed.xml", FeedKind::RSS)]));
    let anchors = r#"<html><body><a href="feeds/rss"></a></body></html>"#;
    let d = c.detect_possible_feeds("https://test.test/", anchors).unwrap();
    assert_eq!(d, pairs(&[("https://test.test/feeds/rss", FeedKind::RSS)]));
}

#[test]
fn candidate_that_cannot_be_built_is_dropped() {
    let html = r#"<html><head><link rel="https://api.w.org/" href="not a url"></head></html>"#;
    let c = HttpCollector::new();
    let s = c.scan_page("https://example.com/", html).unwrap();
    assert_eq!(
        s.candidates,
        pairs(&[
            ("https://example.com/wp/v2/posts", FeedKind::WP),
            ("https://example.com/feed/", FeedKind::RSS),
        ])
    );
}
