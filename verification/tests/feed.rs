use feed_digest::feed::{feed_outcome, RawEntry};
use feed_digest::config::{Config, FeedConfig};
use feed_digest::text::u64_to_string;

// The same conversion the shell makes around feed-rs: per entry the title
// text, the first link's target, the summary text and the published stamp
// as Unix milliseconds.
fn parse_to_raws(bytes: &[u8]) -> Result<Vec<RawEntry>, String> {
    feed_rs::parser::parse(bytes)
        .map(|feed| {
            feed.entries
                .into_iter()
                .map(|e| RawEntry {
                    title: e.title.map(|t| t.content),
                    link: e.links.first().map(|l| l.href.clone()),
                    summary: e.summary.map(|s| s.content),
                    published: e.published.map(|d| d.timestamp_millis()),
                })
                .collect()
        })
        .map_err(|e| e.to_string())
}

#[test]
fn rss_document_parses_to_normalized_items() {
    let rss = "<?xml version=\"1.0\"?><rss version=\"2.0\"><channel><title>T</title>\
<item><title>Hello</title><link>http://x/1</link><description>World</description>\
<pubDate>Mon, 01 Jan 2024 00:00:00 GMT</pubDate></item>\
<item><link>http://x/2</link></item>\
</channel></rss>";
    let parsed = parse_to_raws(rss.as_bytes());
    let articles = feed_outcome(parsed, "src1").expect("a well-formed feed parses");
    assert_eq!(articles.len(), 2);
    assert_eq!(articles[0].title, "Hello");
    assert_eq!(articles[0].link, "http://x/1");
    assert_eq!(articles[0].summary.as_deref(), Some("World"));
    assert_eq!(articles[0].published, Some(1704067200000));
    assert_eq!(articles[0].source, "src1");
    assert_eq!(articles[1].title, "");
    assert_eq!(articles[1].link, "http://x/2");
    assert_eq!(articles[1].summary, None);
    assert_eq!(articles[1].published, None);
    assert_eq!(articles[1].source, "src1");
}

#[test]
fn junk_bytes_fail_to_parse() {
    let parsed = parse_to_raws(b"this is not a feed");
    assert!(parsed.is_err());
    assert!(feed_outcome(parsed, "src1").is_err());
}

#[test]
fn parse_failure_detail_is_carried_verbatim() {
    match feed_outcome(Err("boom at line 3".to_string()), "src1") {
        Err(e) => assert_eq!(e, "boom at line 3"),
        Ok(_) => panic!("a parse failure must stay a failure"),
    }
}

#[test]
fn feeds_become_url_name_tuples() {
    let config = Config {
        gemini_api_key: "g".to_string(),
        resend_api_key: "r".to_string(),
        from_email: "me@example.com".to_string(),
        to_email: "you@example.com".to_string(),
        gemini_model: None,
        feeds: vec![
            FeedConfig { name: "alpha".to_string(), url: "http://a/rss".to_string() },
            FeedConfig { name: "beta".to_string(), url: "http://b/rss".to_string() },
        ],
    };
    let tuples = config.feeds_as_tuples();
    assert_eq!(tuples, vec![("http://a/rss", "alpha"), ("http://b/rss", "beta")]);
}

#[test]
fn decimal_rendering() {
    assert_eq!(u64_to_string(0), "0");
    assert_eq!(u64_to_string(7), "7");
    assert_eq!(u64_to_string(1234), "1234");
    assert_eq!(u64_to_string(1000000), "1000000");
}
