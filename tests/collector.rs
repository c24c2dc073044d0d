use feed_collector::collector::{
    outcome, scrape_and_process_content, select_feed, Cache, CacheStub, HttpCollector, ResultsHandler,
    ScrapePlan,
};
use feed_collector::error::{Error, ErrorKind, Result};
use feed_collector::models::{Feed, FeedItem, FeedKind, RssEntry};
use feed_collector::normalize::{build_rss_feed, get_image, parse_atom_feed, parse_rss_feed};
use feed_collector::scan::collect_discovered;
use std::cell::RefCell;

fn feed(kind: FeedKind, name: &str, image: Option<&str>) -> Feed {
    Feed {
        image: image.map(|s| s.to_string()),
        link: "https://example.com/feed".to_string(),
        kind,
        name: name.to_string(),
        content: vec![],
    }
}

fn entry(guid: Option<&str>, link: Option<&str>, date: Option<&str>) -> RssEntry {
    RssEntry {
        title: Some("t".to_string()),
        link: link.map(|s| s.to_string()),
        description: Some("<p>d</p>".to_string()),
        content: None,
        guid: guid.map(|s| s.to_string()),
        pub_date: date.map(|s| s.to_string()),
    }
}

const TWO_ITEMS: &str = r#"<?xml version="1.0"?>
<rss version="2.0"><channel><title>Chan</title><link>https://example.com/</link><description>d</description>
<item><title>A</title><guid>abc</guid><description>first</description></item>
<item><title>B</title><description>second</description></item>
</channel></rss>"#;

const ATOM_DOC: &str = r#"<?xml version="1.0" encoding="utf-8"?>
<feed xmlns="http://www.w3.org/2005/Atom">
<title>Atom Chan</title><id>urn:feed</id><updated>2020-01-01T00:00:00Z</updated>
<icon>https://example.com/icon.png</icon>
<entry><title>E1</title><id>urn:e1</id><updated>2020-01-02T00:00:00Z</updated>
<published>2020-01-01T12:00:00Z</published>
<content type="html">&lt;img src="https://example.com/a.png"&gt;</content></entry>
<entry><title>E2</title><id>urn:e2</id><updated>2020-01-03T00:00:00Z</updated><summary>plain</summary></entry>
</feed>"#;

#[test]
fn it_works() {
    assert_eq!(2 + 2, 4);
}

#[test]
fn test_get_image() {
    let content = "\
        <p><img src=\"https://habrastorage.org/webt/4n/c1/v0/4nc1v0ifaa8rzyrzq5q1q7r4t8q.png\"></p>
        <br>
        <p>В этой статье я хочу разобрать один из самых популярных опенсорс-инструментов,
        <a href=\"https://nodered.org\" rel=\"nofollow\">Node-RED</a>,\
        с точки зрения создания простых прототипов приложений с минимумом программирования</p>";
    let image = get_image(content);
    assert_eq!(
        image,
        Some("https://habrastorage.org/webt/4n/c1/v0/4nc1v0ifaa8rzyrzq5q1q7r4t8q.png".to_string())
    )
}

#[test]
fn get_image_absent_without_img() {
    assert_eq!(get_image("<p>no picture</p>"), None);
}

#[test]
fn rss_item_without_guid_or_link_is_dropped() {
    let parsed = parse_rss_feed("https://example.com/rss", TWO_ITEMS).unwrap();
    assert_eq!(parsed.content.len(), 1);
    assert_eq!(parsed.content[0].guid, "abc");
    assert_eq!(parsed.content[0].title, Some("A".to_string()));
    assert_eq!(parsed.content[0].content, "first");
    assert_eq!(parsed.name, "Chan");
    assert_eq!(parsed.link, "https://example.com/rss");
    assert_eq!(parsed.kind, FeedKind::RSS);
    assert_eq!(parsed.image, None);
}

#[test]
fn rss_items_keep_feed_order() {
    let entries = vec![
        entry(Some("g1"), None, None),
        entry(None, None, None),
        entry(None, Some("https://example.com/2"), None),
        entry(Some(""), Some("https://example.com/3"), None),
        entry(Some(""), Some(""), None),
    ];
    let f = build_rss_feed("https://example.com/rss", "n".to_string(), None, &entries, 7);
    let guids: Vec<&str> = f.content.iter().map(|i| i.guid.as_str()).collect();
    assert_eq!(guids, vec!["g1", "https://example.com/2", "https://example.com/3"]);
    assert!(f.content.iter().all(|i| !i.guid.is_empty()));
}

#[test]
fn missing_date_is_the_parse_time() {
    let before = chrono::Utc::now().timestamp();
    let parsed = parse_rss_feed("https://example.com/rss", TWO_ITEMS).unwrap();
    let after = chrono::Utc::now().timestamp();
    let d = parsed.content[0].pub_date;
    assert!(before <= d && d <= after);
}

#[test]
fn bad_date_falls_back_to_now() {
    let entries = vec![entry(Some("g"), None, Some("not a date"))];
    let f = build_rss_feed("l", "n".to_string(), None, &entries, 42);
    assert_eq!(f.content[0].pub_date, 42);
}

#[test]
fn rfc2822_date_is_read() {
    let entries = vec![entry(Some("g"), None, Some("Mon, 02 Jan 2006 15:04:05 GMT"))];
    let f = build_rss_feed("l", "n".to_string(), Some("https://example.com/i.png".to_string()), &entries, 42);
    assert_eq!(f.content[0].pub_date, 1136214245);
    assert_eq!(f.image, Some("https://example.com/i.png".to_string()));
}

#[test]
fn content_is_preferred_over_description() {
    let mut e = entry(Some("g"), None, None);
    e.content = Some("<img src=\"https://example.com/c.png\">".to_string());
    let f = build_rss_feed("l", "n".to_string(), None, &vec![e], 0);
    assert_eq!(f.content[0].content, "<img src=\"https://example.com/c.png\">");
    assert_eq!(f.content[0].image_link, Some("https://example.com/c.png".to_string()));
}

#[test]
fn atom_feed_is_normalized() {
    let parsed = parse_atom_feed("https://example.com/atom", ATOM_DOC).unwrap();
    assert_eq!(parsed.kind, FeedKind::RSS);
    assert_eq!(parsed.name, "Atom Chan");
    assert_eq!(parsed.image, Some("https://example.com/icon.png".to_string()));
    assert_eq!(parsed.content.len(), 2);
    assert_eq!(parsed.content[0].guid, "urn:e1");
    assert_eq!(parsed.content[0].pub_date, 1577880000);
    assert_eq!(parsed.content[0].image_link, Some("https://example.com/a.png".to_string()));
    assert_eq!(parsed.content[1].pub_date, 1578009600);
    assert_eq!(parsed.content[1].content, "plain");
    assert_eq!(parsed.content[1].title, Some("E2".to_string()));
}

#[test]
fn atom_entry_without_dates_gets_parse_time() {
    let doc = r#"<?xml version="1.0" encoding="utf-8"?>
<feed xmlns="http://www.w3.org/2005/Atom"><title>T</title><id>urn:f</id>
<entry><title>E</title><id>urn:e</id></entry></feed>"#;
    let before = chrono::Utc::now().timestamp();
    let parsed = parse_atom_feed("https://example.com/atom", doc).unwrap();
    let after = chrono::Utc::now().timestamp();
    let d = parsed.content[0].pub_date;
    assert!(before <= d && d <= after);
}

#[test]
fn cache_stub_always_misses() {
    let stub = CacheStub {};
    assert_eq!(stub.get("https://example.com/"), None);
    assert!(stub.set("https://example.com/", &FeedKind::RSS).is_ok());
    assert_eq!(stub.get("https://example.com/"), None);
}

#[test]
fn parse_errors_by_format() {
    let e = parse_rss_feed("l", "not xml at all").unwrap_err();
    assert_eq!(e.kind, ErrorKind::RssParse);
    let e = parse_atom_feed("l", TWO_ITEMS).unwrap_err();
    assert_eq!(e.kind, ErrorKind::AtomParse);
}

#[test]
fn wp_source_is_unsupported() {
    let c = HttpCollector::new();
    assert_eq!(c.plan(Some(FeedKind::WP), "https://example.com/"), ScrapePlan::Unsupported);
    let e = c.parse_known(FeedKind::WP, "https://example.com/", TWO_ITEMS).unwrap_err();
    assert_eq!(e.kind, ErrorKind::SourceNotSupported);
}

#[test]
fn plan_follows_kind_and_cache() {
    let c = HttpCollector::new();
    assert_eq!(c.plan(Some(FeedKind::Atom), "u"), ScrapePlan::Parse(FeedKind::Atom));
    assert_eq!(c.plan(Some(FeedKind::RSS), "u"), ScrapePlan::Parse(FeedKind::RSS));
    assert_eq!(c.plan(None, "u"), ScrapePlan::Resolve);
}

struct FixedCache(Option<FeedKind>);

impl Cache for FixedCache {
    fn get(&self, _link: &str) -> Option<FeedKind> {
        self.0
    }

    fn set(&self, _link: &str, _feed_kind: &FeedKind) -> Result<()> {
        Err(Error::new(ErrorKind::Network, "read only".to_string()))
    }
}

#[test]
fn cache_hit_decides_the_kind() {
    let mut c = HttpCollector { cache: FixedCache(None) };
    c.with_cache(FixedCache(Some(FeedKind::Atom)));
    assert_eq!(c.plan(None, "u"), ScrapePlan::Parse(FeedKind::Atom));
    c.with_cache(FixedCache(Some(FeedKind::WP)));
    assert_eq!(c.plan(None, "u"), ScrapePlan::Unsupported);
    // a failing cache write does not fail resolution
    assert!(c.resolve_unknown("u", TWO_ITEMS).is_ok());
}

#[test]
fn traverse_parsers_runs_both() {
    let c = HttpCollector::new();
    assert_eq!(c.traverse_parsers("l", TWO_ITEMS).len(), 1);
    assert_eq!(c.traverse_parsers("l", ATOM_DOC).len(), 1);
    assert_eq!(c.traverse_parsers("l", "<html></html>").len(), 0);
}

#[test]
fn tie_break_prefers_rss() {
    let r = select_feed(vec![feed(FeedKind::Atom, "a", None), feed(FeedKind::RSS, "r", None)]).unwrap();
    assert_eq!(r.name, "r");
    let r = select_feed(vec![feed(FeedKind::Atom, "a", None), feed(FeedKind::WP, "w", None)]).unwrap();
    assert_eq!(r.name, "a");
    let again = select_feed(vec![feed(FeedKind::Atom, "a", None), feed(FeedKind::RSS, "r", None)]).unwrap();
    assert_eq!(again.name, "r");
    let e = select_feed(vec![]).unwrap_err();
    assert_eq!(e.kind, ErrorKind::NoFeed);
}

#[test]
fn resolve_unknown_outcomes() {
    let c = HttpCollector::new();
    let f = c.resolve_unknown("https://example.com/rss", TWO_ITEMS).unwrap();
    assert_eq!(f.name, "Chan");
    let f = c.resolve_unknown("https://example.com/atom", ATOM_DOC).unwrap();
    assert_eq!(f.name, "Atom Chan");
    let e = c.resolve_unknown("https://example.com/", "<html></html>").unwrap_err();
    assert_eq!(e.kind, ErrorKind::NoFeed);
}

struct Recorder(RefCell<Vec<String>>);

impl ResultsHandler for Recorder {
    fn process(&self, result: Result<(&Feed, FeedKind, String)>) {
        let line = match result {
            Ok((f, k, l)) => {
                let guids: Vec<String> = f.content.iter().map(|i| i.guid.clone()).collect();
                format!("{:?} {} {} {}", k, l, f.link, guids.join(","))
            }
            Err(e) => format!("error {:?}", e.kind),
        };
        self.0.borrow_mut().push(line);
    }
}

#[test]
fn handler_receives_feed_unchanged() {
    let entries = vec![entry(Some("x"), None, None), entry(Some("y"), None, None)];
    let f = build_rss_feed("https://example.com/rss", "n".to_string(), None, &entries, 0);
    let o = outcome(Ok(f), "https://example.com/rss".to_string()).unwrap();
    assert_eq!(o.1, FeedKind::RSS);
    assert_eq!(o.2, "https://example.com/rss");
    assert_eq!(o.0.content[1].guid, "y");

    let rec = Recorder(RefCell::new(vec![]));
    let f = build_rss_feed("https://example.com/rss", "n".to_string(), None, &entries, 0);
    scrape_and_process_content(&rec, Ok(f), "https://example.com/rss".to_string());
    scrape_and_process_content(&rec, Err(Error::network("down".to_string())), "u".to_string());
    assert_eq!(
        rec.0.borrow().clone(),
        vec![
            "RSS https://example.com/rss https://example.com/rss x,y".to_string(),
            "error Network".to_string()
        ]
    );
}

#[test]
fn discovery_backfills_missing_image_only() {
    let direct = vec![feed(FeedKind::RSS, "page", None)];
    let checked = vec![
        Ok(feed(FeedKind::RSS, "a", None)),
        Err(Error::network("down".to_string())),
        Ok(feed(FeedKind::RSS, "b", Some("https://example.com/own.png"))),
    ];
    let fav = Some("https://example.com/favicon.ico".to_string());
    let r = collect_discovered(direct, checked, &fav);
    let names: Vec<&str> = r.iter().map(|f| f.name.as_str()).collect();
    assert_eq!(names, vec!["page", "a", "b"]);
    assert_eq!(r[0].image, None);
    assert_eq!(r[1].image, fav);
    assert_eq!(r[2].image, Some("https://example.com/own.png".to_string()));
}

#[test]
fn error_text_and_kind() {
    let e = Error::network("timed out".to_string());
    assert_eq!(e.kind, ErrorKind::Network);
    assert_eq!(e.to_string(), "timed out");
}

#[test]
fn unused_item_fields_compile() {
    let _ = FeedItem {
        title: None,
        content: String::new(),
        pub_date: 0,
        guid: "g".to_string(),
        image_link: None,
    };
    let _ = CacheStub {};
}
