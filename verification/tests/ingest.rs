use feed_digest::Article;
use feed_digest::ingest::{sort_by_published, ingest_outcomes, FetchOutcome};

fn art(title: &str, published: Option<i64>, source: &str) -> Article {
    Article {
        title: title.to_string(),
        link: String::new(),
        summary: None,
        published,
        source: source.to_string(),
    }
}

fn titles(v: &[Article]) -> Vec<String> {
    v.iter().map(|a| a.title.clone()).collect()
}

#[test]
fn sort_is_descending_with_dateless_last_and_stable() {
    let input = vec![
        art("a", Some(300), "s"),
        art("b", None, "s"),
        art("c", Some(500), "s"),
        art("d", Some(300), "s"),
        art("e", None, "s"),
    ];
    let sorted = sort_by_published(input);
    assert_eq!(titles(&sorted), vec!["c", "a", "d", "b", "e"]);
}

#[test]
fn sort_of_empty_and_single() {
    assert_eq!(sort_by_published(Vec::new()).len(), 0);
    let one = sort_by_published(vec![art("x", None, "s")]);
    assert_eq!(titles(&one), vec!["x"]);
}

#[test]
fn partial_failure_merges_and_warns() {
    let alpha = vec![
        art("a1", Some(50), "alpha"),
        art("a2", Some(40), "alpha"),
        art("a3", None, "alpha"),
        art("a4", Some(30), "alpha"),
        art("a5", Some(20), "alpha"),
    ];
    let gamma = vec![
        art("g1", Some(45), "gamma"),
        art("g2", None, "gamma"),
        art("g3", Some(35), "gamma"),
    ];
    let outcomes = vec![
        FetchOutcome { source: "alpha".to_string(), result: Ok(alpha) },
        FetchOutcome { source: "slowfeed".to_string(), result: Err("request timed out".to_string()) },
        FetchOutcome { source: "gamma".to_string(), result: Ok(gamma) },
    ];
    let report = ingest_outcomes(outcomes);
    assert_eq!(report.articles.len(), 8);
    assert_eq!(
        titles(&report.articles),
        vec!["a1", "g1", "a2", "g3", "a4", "a5", "a3", "g2"]
    );
    // the two dateless items come after every dated one, in fetch order
    assert!(report.articles[6].published.is_none());
    assert!(report.articles[7].published.is_none());
    assert_eq!(
        report.diagnostics,
        vec![
            "Fetched 5 articles from alpha".to_string(),
            "Failed to fetch slowfeed: request timed out".to_string(),
            "Fetched 3 articles from gamma".to_string(),
        ]
    );
}

#[test]
fn no_sources_yields_empty_report() {
    let report = ingest_outcomes(Vec::new());
    assert_eq!(report.articles.len(), 0);
    assert_eq!(report.diagnostics.len(), 0);
}
