use vstd::prelude::*;

use crate::Article;

verus! {

/// What one feed entry supplies before normalization: each field exactly as
/// the source document had it, or absent. `published` is a Unix timestamp
/// in milliseconds.
///
/// The syndication parser itself lives with the surrounding shell, which
/// also contains its failure modes; the library takes the parser's outcome
/// as plain values and settles everything that follows from it.
pub struct RawEntry {
    pub title: Option<String>,
    pub link: Option<String>,
    pub summary: Option<String>,
    pub published: Option<i64>,
}

/// How one normalized item relates to the entry it came from: title and
/// link fall back to empty text, an absent summary stays absent, the stamp
/// carries over, and `source` is the configured name — never feed content.
pub open spec fn article_matches(a: Article, raw: RawEntry, source: Seq<char>) -> bool {
    &&& a.title@ == match raw.title {
        Some(t) => t@,
        None => Seq::<char>::empty(),
    }
    &&& a.link@ == match raw.link {
        Some(l) => l@,
        None => Seq::<char>::empty(),
    }
    &&& match (a.summary, raw.summary) {
        (Some(s1), Some(s2)) => s1@ == s2@,
        (None, None) => true,
        _ => false,
    }
    &&& a.published == raw.published
    &&& a.source@ == source
}

/// Normalizes parsed entries into items, stamping each with the source's
/// configured name.
pub fn entries_to_articles(raws: Vec<RawEntry>, source_name: &str) -> (v: Vec<Article>)
    ensures
        v@.len() == raws@.len(),
        forall|i: int|
            0 <= i < raws@.len() ==> article_matches(#[trigger] v@[i], raws@[i], source_name@),
{
    let ghost orig = raws@;
    let mut rem = raws;
    let mut out: Vec<Article> = Vec::new();
    proof {
        assert(orig.skip(0) =~= rem@);
    }
    let ghost mut i: int = 0;
    while rem.len() > 0
        invariant
            0 <= i <= orig.len(),
            orig.skip(i) == rem@,
            out@.len() == i,
            forall|m: int| 0 <= m < i ==> article_matches(#[trigger] out@[m], orig[m], source_name@),
        decreases rem.len(),
    {
        let raw = rem.remove(0);
        proof {
            assert(raw == orig[i]) by {
                assert(orig.skip(i)[0] == orig[i]);
            }
            assert(rem@ =~= orig.skip(i + 1)) by {
                assert(orig.skip(i).remove(0) =~= orig.skip(i + 1));
            }
        }
        let title = match raw.title {
            Some(t) => t,
            None => String::new(),
        };
        let link = match raw.link {
            Some(l) => l,
            None => String::new(),
        };
        let a = Article {
            title,
            link,
            summary: raw.summary,
            published: raw.published,
            source: String::from_str(source_name),
        };
        out.push(a);
        proof {
            i = i + 1;
        }
    }
    out
}

/// Settles one source's parse outcome. A parsed document's entries are
/// normalized, each item stamped with the source's configured name; a parse
/// failure's detail is carried through verbatim, so the per-source
/// diagnostic can surface exactly what went wrong.
pub fn feed_outcome(parsed: Result<Vec<RawEntry>, String>, source_name: &str) -> (r: Result<
    Vec<Article>,
    String,
>)
    ensures
        r is Ok <==> parsed is Ok,
        match parsed {
            Ok(raws) => r is Ok && r->Ok_0@.len() == raws@.len() && forall|i: int|
                0 <= i < raws@.len() ==> article_matches(
                    #[trigger] r->Ok_0@[i],
                    raws@[i],
                    source_name@,
                ),
            Err(detail) => r is Err && r->Err_0@ == detail@,
        },
{
    match parsed {
        Ok(raws) => Ok(entries_to_articles(raws, source_name)),
        Err(detail) => Err(detail),
    }
}

} // verus!
