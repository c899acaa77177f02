use vstd::prelude::*;

verus! {

/// One configured source: its endpoint and its human-readable name.
pub struct FeedConfig {
    pub name: String,
    pub url: String,
}

/// The run's configuration, supplied by an external collaborator: the two
/// service credentials, the addressing, an optional model override and the
/// ordered source list.
pub struct Config {
    pub gemini_api_key: String,
    pub resend_api_key: String,
    pub from_email: String,
    pub to_email: String,
    pub gemini_model: Option<String>,
    pub feeds: Vec<FeedConfig>,
}

impl Config {
    /// The configured sources as (endpoint, name) pairs, in order.
    pub fn feeds_as_tuples<'a>(&'a self) -> (r: Vec<(&'a str, &'a str)>)
        ensures
            r@.len() == self.feeds@.len(),
            forall|i: int|
                0 <= i < r@.len() ==> (#[trigger] r@[i]).0@ == self.feeds@[i].url@ && r@[i].1@
                    == self.feeds@[i].name@,
    {
        let mut out: Vec<(&str, &str)> = Vec::new();
        let mut i: usize = 0;
        while i < self.feeds.len()
            invariant
                i <= self.feeds@.len(),
                out@.len() == i,
                forall|m: int|
                    0 <= m < i ==> (#[trigger] out@[m]).0@ == self.feeds@[m].url@ && out@[m].1@
                        == self.feeds@[m].name@,
            decreases self.feeds@.len() - i,
        {
            let f = &self.feeds[i];
            out.push((f.url.as_str(), f.name.as_str()));
            i = i + 1;
        }
        out
    }
}

} // verus!
