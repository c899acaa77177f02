use feed_digest::Article;
use feed_digest::summarize::{
    build_prompt, build_request, extract_text, Candidate, CandidateContent, GeminiClient,
    GeminiResponse, ResponsePart, SummarizeStep,
};

fn art(title: &str, summary: Option<&str>, source: &str) -> Article {
    Article {
        title: title.to_string(),
        link: String::new(),
        summary: summary.map(|s| s.to_string()),
        published: None,
        source: source.to_string(),
    }
}

const PROMPT_HEAD: &str = "You are a financial analyst assistant. Analyze these news articles and provide:\n\n1. **Market Overview**: A brief summary of the overall market sentiment\n2. **Key Stories**: The most important stories and why they matter\n3. **Market Impact Analysis**: How these stories might affect:\n   - Stock markets (US, global)\n   - Cryptocurrency markets\n   - Interest rates and bonds\n   - Specific sectors or companies\n4. **Actionable Insights**: Key takeaways for investors\n\nArticles:\n";
const PROMPT_TAIL: &str = "\n\nProvide a concise, well-structured analysis suitable for a morning market briefing.";

#[test]
fn empty_collection_gets_sentinel_without_any_call() {
    let client = GeminiClient::new("k".to_string());
    match client.summarize_step(&Vec::new()) {
        SummarizeStep::Done(s) => assert_eq!(s, "No articles to summarize."),
        SummarizeStep::Request(_) => panic!("an empty collection must not produce a request"),
    }
}

#[test]
fn nonempty_collection_gets_the_prompt() {
    let client = GeminiClient::new("k".to_string());
    let items = vec![art("Hello", Some("World"), "src")];
    match client.summarize_step(&items) {
        SummarizeStep::Done(_) => panic!("a non-empty collection must produce a request"),
        SummarizeStep::Request(p) => assert_eq!(p, build_prompt(&items)),
    }
}

#[test]
fn prompt_enumerates_items_exactly() {
    let items = vec![
        art("Hello", Some("World"), "alpha"),
        art("Again", None, "beta"),
    ];
    let expected = format!(
        "{}1. [alpha] Hello\n   World\n2. [beta] Again\n   No summary available\n{}",
        PROMPT_HEAD, PROMPT_TAIL
    );
    assert_eq!(build_prompt(&items), expected);
}

#[test]
fn prompt_stops_at_twenty_items() {
    let mut items = Vec::new();
    for i in 0..25 {
        items.push(art(&format!("t{}", i), None, "s"));
    }
    let prompt = build_prompt(&items);
    assert!(prompt.contains("20. [s] t19\n"));
    assert!(!prompt.contains("21. [s]"));
    assert!(!prompt.contains("t20"));
}

#[test]
fn default_and_overridden_model_in_url() {
    let client = GeminiClient::new("KEY".to_string());
    assert_eq!(
        client.generate_url(),
        "https://generativelanguage.googleapis.com/v1beta/models/gemini-3:generateContent?key=KEY"
    );
    let client = client.with_model("other-model");
    assert_eq!(
        client.generate_url(),
        "https://generativelanguage.googleapis.com/v1beta/models/other-model:generateContent?key=KEY"
    );
}

#[test]
fn request_wraps_prompt_once() {
    let r = build_request("the prompt".to_string());
    assert_eq!(r.contents.len(), 1);
    assert_eq!(r.contents[0].parts.len(), 1);
    assert_eq!(r.contents[0].parts[0].text, "the prompt");
}

#[test]
fn empty_candidates_yield_fallback_text() {
    let resp = GeminiResponse { candidates: Vec::new() };
    assert_eq!(extract_text(&resp), "No response generated.");
    let resp = GeminiResponse {
        candidates: vec![Candidate { content: CandidateContent { parts: Vec::new() } }],
    };
    assert_eq!(extract_text(&resp), "No response generated.");
}

#[test]
fn first_part_of_first_candidate_wins() {
    let resp = GeminiResponse {
        candidates: vec![
            Candidate {
                content: CandidateContent {
                    parts: vec![
                        ResponsePart { text: "first".to_string() },
                        ResponsePart { text: "second".to_string() },
                    ],
                },
            },
            Candidate {
                content: CandidateContent {
                    parts: vec![ResponsePart { text: "third".to_string() }],
                },
            },
        ],
    };
    assert_eq!(extract_text(&resp), "first");
}
