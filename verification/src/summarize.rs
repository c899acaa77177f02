use vstd::prelude::*;

use crate::Article;
use crate::text::{dec_str, u64_to_string};

verus! {

// ---------------------------------------------------------------------------
// Request and response shapes of the generation service
// ---------------------------------------------------------------------------

pub struct Part {
    pub text: String,
}

pub struct Content {
    pub parts: Vec<Part>,
}

/// The generation service's request body: a list of contents, each a list
/// of text parts.
pub struct GeminiRequest {
    pub contents: Vec<Content>,
}

pub struct ResponsePart {
    pub text: String,
}

pub struct CandidateContent {
    pub parts: Vec<ResponsePart>,
}

pub struct Candidate {
    pub content: CandidateContent,
}

/// The generation service's response body: a list of candidates, each
/// wrapping a list of text parts.
pub struct GeminiResponse {
    pub candidates: Vec<Candidate>,
}

// ---------------------------------------------------------------------------
// The prompt
// ---------------------------------------------------------------------------

/// The one-line summary shown for an item, or the fixed placeholder when
/// the source supplied none.
pub open spec fn summary_or_placeholder(a: Article) -> Seq<char> {
    match a.summary {
        Some(s) => s@,
        None => "No summary available"@,
    }
}

/// The enumeration line for the item at one-based position `idx`.
pub open spec fn item_line(idx: nat, a: Article) -> Seq<char> {
    dec_str(idx) + ". ["@ + a.source@ + "] "@ + a.title@ + "\n   "@ + summary_or_placeholder(a)
        + "\n"@
}

/// The enumeration of `items`, numbered from one in order.
pub open spec fn items_text(items: Seq<Article>) -> Seq<char>
    decreases items.len(),
{
    if items.len() == 0 {
        Seq::empty()
    } else {
        items_text(items.drop_last()) + item_line(items.len(), items.last())
    }
}

/// How many items at most go into one prompt, so the payload stays bounded.
pub const PROMPT_ITEM_LIMIT: usize = 20;

/// The items the prompt enumerates: the first twenty at most, in the
/// incoming (already most-recent-first) order. Items beyond the bound are
/// silently left out of the prompt, not out of the collection.
pub open spec fn selected(items: Seq<Article>) -> Seq<Article> {
    if items.len() <= PROMPT_ITEM_LIMIT {
        items
    } else {
        items.take(PROMPT_ITEM_LIMIT as int)
    }
}

/// The fixed instruction above the enumeration.
pub open spec fn prompt_head() -> Seq<char> {
    "You are a financial analyst assistant. Analyze these news articles and provide:\n\n1. **Market Overview**: A brief summary of the overall market sentiment\n2. **Key Stories**: The most important stories and why they matter\n3. **Market Impact Analysis**: How these stories might affect:\n   - Stock markets (US, global)\n   - Cryptocurrency markets\n   - Interest rates and bonds\n   - Specific sectors or companies\n4. **Actionable Insights**: Key takeaways for investors\n\nArticles:\n"@
}

/// The fixed instruction below the enumeration.
pub open spec fn prompt_tail() -> Seq<char> {
    "\n\nProvide a concise, well-structured analysis suitable for a morning market briefing."@
}

/// The whole prompt for a non-empty collection.
pub open spec fn prompt_of(items: Seq<Article>) -> Seq<char> {
    prompt_head() + items_text(selected(items)) + prompt_tail()
}

/// Builds the enumeration line for the item at one-based position `idx`.
fn build_item_line(idx: u64, a: &Article) -> (r: String)
    requires
        idx >= 1,
    ensures
        r@ == item_line(idx as nat, *a),
{
    let num = u64_to_string(idx);
    let mut line = num;
    line.append(". [");
    line.append(a.source.as_str());
    line.append("] ");
    line.append(a.title.as_str());
    line.append("\n   ");
    match &a.summary {
        Some(s) => line.append(s.as_str()),
        None => line.append("No summary available"),
    }
    line.append("\n");
    line
}

/// Builds the prompt that enumerates at most the first twenty items.
pub fn build_prompt(items: &Vec<Article>) -> (r: String)
    ensures
        r@ == prompt_of(items@),
{
    let count: usize = if items.len() > PROMPT_ITEM_LIMIT {
        PROMPT_ITEM_LIMIT
    } else {
        items.len()
    };
    let ghost sel = selected(items@);
    proof {
        assert(sel =~= items@.take(count as int));
        assert(items@.take(0) =~= Seq::<Article>::empty());
    }
    let mut body = String::new();
    let mut i: usize = 0;
    while i < count
        invariant
            count <= items@.len(),
            i <= count,
            body@ == items_text(items@.take(i as int)),
        decreases count - i,
    {
        let line = build_item_line((i as u64) + 1, &items[i]);
        body.append(line.as_str());
        proof {
            let t = items@.take(i + 1 as int);
            assert(t.drop_last() =~= items@.take(i as int));
            assert(t.last() == items@[i as int]);
            assert(items_text(t) == items_text(items@.take(i as int)) + item_line(
                (i + 1) as nat,
                items@[i as int],
            ));
        }
        i = i + 1;
    }
    let mut out = String::from_str(
        "You are a financial analyst assistant. Analyze these news articles and provide:\n\n1. **Market Overview**: A brief summary of the overall market sentiment\n2. **Key Stories**: The most important stories and why they matter\n3. **Market Impact Analysis**: How these stories might affect:\n   - Stock markets (US, global)\n   - Cryptocurrency markets\n   - Interest rates and bonds\n   - Specific sectors or companies\n4. **Actionable Insights**: Key takeaways for investors\n\nArticles:\n",
    );
    out.append(body.as_str());
    out.append(
        "\n\nProvide a concise, well-structured analysis suitable for a morning market briefing.",
    );
    out
}

// ---------------------------------------------------------------------------
// The client
// ---------------------------------------------------------------------------

/// The synthesis stage's configuration: the service credential and the
/// model to address. The network round trip itself lives outside this
/// library; everything the round trip sends and everything decided about
/// what it returns is specified here.
pub struct GeminiClient {
    pub api_key: String,
    pub model: String,
}

/// What one call to `summarize_articles` must do: an empty collection gets
/// the fixed sentinel and no service call; anything else gets the bounded
/// prompt submitted to the service.
pub enum SummarizeStep {
    Done(String),
    Request(String),
}

impl GeminiClient {
    /// A client for the default model.
    pub fn new(api_key: String) -> (c: Self)
        ensures
            c.api_key == api_key,
            c.model@ == "gemini-3"@,
    {
        GeminiClient { api_key, model: String::from_str("gemini-3") }
    }

    /// The same client addressing `model` instead.
    pub fn with_model(self, model: &str) -> (c: Self)
        ensures
            c.api_key == self.api_key,
            c.model@ == model@,
    {
        GeminiClient { api_key: self.api_key, model: String::from_str(model) }
    }

    /// The endpoint for one generation call, addressing this client's model
    /// and carrying its credential.
    pub fn generate_url(&self) -> (r: String)
        ensures
            r@ == "https://generativelanguage.googleapis.com/v1beta/models/"@ + self.model@
                + ":generateContent?key="@ + self.api_key@,
    {
        let mut url = String::from_str(
            "https://generativelanguage.googleapis.com/v1beta/models/",
        );
        url.append(self.model.as_str());
        url.append(":generateContent?key=");
        url.append(self.api_key.as_str());
        url
    }

    /// Decides the synthesis step for a merged collection: the fixed
    /// sentinel for an empty one — with no call owed — and otherwise the
    /// prompt to submit.
    pub fn summarize_step(&self, articles: &Vec<Article>) -> (r: SummarizeStep)
        ensures
            match r {
                SummarizeStep::Done(s) => articles@.len() == 0 && s@
                    == "No articles to summarize."@,
                SummarizeStep::Request(p) => articles@.len() > 0 && p@ == prompt_of(articles@),
            },
    {
        if articles.len() == 0 {
            SummarizeStep::Done(String::from_str("No articles to summarize."))
        } else {
            SummarizeStep::Request(build_prompt(articles))
        }
    }
}

/// Wraps a prompt in the service's request shape: one content holding one
/// text part, the prompt itself.
pub fn build_request(prompt: String) -> (r: GeminiRequest)
    ensures
        r.contents@.len() == 1,
        r.contents@[0].parts@.len() == 1,
        r.contents@[0].parts@[0].text == prompt,
{
    GeminiRequest { contents: vec![Content { parts: vec![Part { text: prompt }] }] }
}

/// The narrative a response yields: the first candidate's first text part,
/// or the fixed fallback when the response, though well-formed, holds no
/// candidate or no part — that case is an answer, not a failure.
pub open spec fn extracted_text(resp: GeminiResponse) -> Seq<char> {
    if resp.candidates@.len() > 0 && resp.candidates@[0].content.parts@.len() > 0 {
        resp.candidates@[0].content.parts@[0].text@
    } else {
        "No response generated."@
    }
}

/// Extracts the narrative from a generation response.
pub fn extract_text(resp: &GeminiResponse) -> (r: String)
    ensures
        r@ == extracted_text(*resp),
{
    if resp.candidates.len() > 0 {
        let parts = &resp.candidates[0].content.parts;
        if parts.len() > 0 {
            return parts[0].text.clone();
        }
    }
    String::from_str("No response generated.")
}

} // verus!
