use vstd::prelude::*;

use crate::{Article, stamp_le};
use crate::text::dec_str;
use crate::text::u64_to_string;

verus! {

// ---------------------------------------------------------------------------
// The merged collection's order
// ---------------------------------------------------------------------------

/// Sorted most-recent-first, dateless items after every dated one.
pub open spec fn sorted_digest(s: Seq<Article>) -> bool {
    forall|i: int, j: int|
        0 <= i < j < s.len() ==> stamp_le(s[i].published, s[j].published)
}

/// The items carrying publication stamp `k`.
pub open spec fn stamp_pred(k: Option<i64>) -> spec_fn(Article) -> bool {
    |a: Article| a.published == k
}

/// The subsequence of `s` whose items carry publication stamp `k`, in their
/// order in `s`.
pub open spec fn with_stamp(s: Seq<Article>, k: Option<i64>) -> Seq<Article> {
    s.filter(stamp_pred(k))
}

fn stamp_le_exec(a: Option<i64>, b: Option<i64>) -> (r: bool)
    ensures
        r == stamp_le(a, b),
{
    match (a, b) {
        (Some(x), Some(y)) => x >= y,
        (Some(_), None) => true,
        (None, Some(_)) => false,
        (None, None) => true,
    }
}

proof fn lemma_with_stamp_add(a: Seq<Article>, b: Seq<Article>, k: Option<i64>)
    ensures
        with_stamp(a + b, k) == with_stamp(a, k) + with_stamp(b, k),
{
    Seq::filter_distributes_over_add(a, b, stamp_pred(k));
}

proof fn lemma_with_stamp_singleton(x: Article, k: Option<i64>)
    ensures
        x.published == k ==> with_stamp(seq![x], k) == seq![x],
        x.published != k ==> with_stamp(seq![x], k) == Seq::<Article>::empty(),
{
    reveal(Seq::filter);
    assert(seq![x].drop_last() =~= Seq::<Article>::empty());
    assert(Seq::<Article>::empty().filter(stamp_pred(k)) == Seq::<Article>::empty());
    assert(seq![x].last() == x);
    if x.published == k {
        assert(with_stamp(seq![x], k) =~= seq![x]);
    }
}

proof fn lemma_with_stamp_absent(s: Seq<Article>, k: Option<i64>)
    requires
        forall|i: int| 0 <= i < s.len() ==> s[i].published != k,
    ensures
        with_stamp(s, k) == Seq::<Article>::empty(),
    decreases s.len(),
{
    reveal(Seq::filter);
    if s.len() > 0 {
        assert(forall|i: int|
            0 <= i < s.drop_last().len() ==> s.drop_last()[i] == s[i]);
        lemma_with_stamp_absent(s.drop_last(), k);
        assert(s[s.len() - 1].published != k);
    }
}

/// Sorts a merged collection by `published`, most recent first. Items
/// without a date go after every dated item, and the order within every
/// class of items carrying one and the same stamp is kept as it came in —
/// a stable sort, so the three clauses pin the result completely.
pub fn sort_by_published(items: Vec<Article>) -> (r: Vec<Article>)
    ensures
        sorted_digest(r@),
        r@.len() == items@.len(),
        r@.to_multiset() == items@.to_multiset(),
        forall|k: Option<i64>| #[trigger] with_stamp(r@, k) == with_stamp(items@, k),
{
    let mut v = items;
    if v.len() <= 1 {
        return v;
    }
    let mut i: usize = 1;
    proof {
        assert(v@.take(1) =~= items@.take(1));
        assert(v@.skip(1) =~= items@.skip(1));
    }
    while i < v.len()
        invariant
            v@.len() == items@.len(),
            1 <= i <= v.len(),
            sorted_digest(v@.take(i as int)),
            v@.to_multiset() == items@.to_multiset(),
            v@.skip(i as int) == items@.skip(i as int),
            forall|k: Option<i64>|
                #[trigger] with_stamp(v@.take(i as int), k) == with_stamp(
                    items@.take(i as int),
                    k,
                ),
        decreases v.len() - i,
    {
        let stamp = v[i].published;
        let mut j: usize = 0;
        while j < i && stamp_le_exec(v[j].published, stamp)
            invariant
                j <= i < v@.len(),
                stamp == v@[i as int].published,
                forall|m: int| 0 <= m < j ==> stamp_le(v@[m].published, stamp),
            decreases i - j,
        {
            j = j + 1;
        }
        let ghost w = v@;
        proof {
            assert(w[i as int] == items@[i as int]) by {
                assert(w.skip(i as int)[0] == w[i as int]);
            }
            // everything from the insertion point up to i comes strictly
            // after the element being placed
            assert forall|m: int| j <= m < i implies !stamp_le(w[m].published, stamp) by {
                if m > j {
                    assert(stamp_le(w[j as int].published, w[m].published)) by {
                        assert(w.take(i as int)[j as int] == w[j as int]);
                        assert(w.take(i as int)[m] == w[m]);
                    }
                }
            }
        }
        let x = v.remove(i);
        v.insert(j, x);
        proof {
            let a1 = w.subrange(0, j as int);
            let a2 = w.subrange(j as int, i as int);
            let rest = w.subrange(i + 1 as int, w.len() as int);
            assert(v@ =~= a1 + seq![x] + a2 + rest);
            let t = a1 + seq![x] + a2;
            assert(v@.take(i + 1 as int) =~= t);
            assert(v@.skip(i + 1 as int) =~= rest);
            assert(v@.to_multiset() == w.to_multiset()) by {
                broadcast use vstd::seq_lib::lemma_multiset_commutative;
                broadcast use vstd::multiset::group_multiset_axioms;

                assert(w =~= ((a1 + a2) + seq![x]) + rest);
                assert((((a1 + seq![x]) + a2) + rest).to_multiset() =~= (((a1 + a2) + seq![x])
                    + rest).to_multiset());
            }
            assert(rest =~= items@.skip(i + 1 as int)) by {
                assert forall|m: int| 0 <= m < rest.len() implies rest[m] == items@.skip(
                    i + 1 as int,
                )[m] by {
                    assert(w.skip(i as int)[m + 1] == w[i + 1 + m]);
                    assert(items@.skip(i as int)[m + 1] == items@[i + 1 + m]);
                }
            }
            // the extended prefix is sorted
            assert forall|p: int, q: int|
                0 <= p < q < t.len() implies stamp_le(t[p].published, t[q].published) by {
                assert(forall|m: int| 0 <= m < j ==> t[m] == w[m]);
                assert(t[j as int] == x);
                assert(forall|m: int| j < m < t.len() ==> t[m] == w[m - 1]);
                assert(forall|m1: int, m2: int|
                    0 <= m1 < m2 < i ==> stamp_le(w[m1].published, w[m2].published)) by {
                    assert(forall|m: int| 0 <= m < i ==> w.take(i as int)[m] == w[m]);
                }
            }
            // stability of the extended prefix, stamp class by stamp class
            assert forall|k: Option<i64>|
                #[trigger] with_stamp(v@.take(i + 1 as int), k) == with_stamp(
                    items@.take(i + 1 as int),
                    k,
                ) by {
                lemma_with_stamp_add(a1 + seq![x], a2, k);
                lemma_with_stamp_add(a1, seq![x], k);
                lemma_with_stamp_add(a1 + a2, seq![x], k);
                lemma_with_stamp_add(a1, a2, k);
                lemma_with_stamp_singleton(x, k);
                assert(w.take(i as int) =~= a1 + a2);
                assert(items@.take(i + 1 as int) =~= items@.take(i as int) + seq![
                    items@[i as int],
                ]);
                lemma_with_stamp_add(items@.take(i as int), seq![items@[i as int]], k);
                if x.published == k {
                    lemma_with_stamp_absent(a2, k);
                    assert(with_stamp(t, k) =~= with_stamp(a1, k) + seq![x]);
                    assert(with_stamp(w.take(i as int), k) =~= with_stamp(a1, k));
                    assert(with_stamp(items@.take(i + 1 as int), k) =~= with_stamp(
                        items@.take(i as int),
                        k,
                    ) + seq![x]);
                } else {
                    assert(with_stamp(t, k) =~= with_stamp(a1, k) + with_stamp(a2, k));
                    assert(with_stamp(w.take(i as int), k) =~= with_stamp(a1, k) + with_stamp(
                        a2,
                        k,
                    ));
                    assert(with_stamp(items@.take(i + 1 as int), k) =~= with_stamp(
                        items@.take(i as int),
                        k,
                    ));
                }
            }
        }
        i = i + 1;
    }
    proof {
        assert(v@.take(v@.len() as int) =~= v@);
        assert(items@.take(items@.len() as int) =~= items@);
    }
    v
}

/// In a sorted digest every dateless item stands after every dated one:
/// absence of a date is never mistaken for recency.
pub proof fn lemma_dateless_after_dated(s: Seq<Article>, i: int, j: int)
    requires
        sorted_digest(s),
        0 <= i < s.len(),
        0 <= j < s.len(),
        s[i].published is None,
        s[j].published is Some,
    ensures
        j < i,
{
    if i < j {
        assert(stamp_le(s[i].published, s[j].published));
    }
}

// ---------------------------------------------------------------------------
// Merging the per-source outcomes
// ---------------------------------------------------------------------------

/// What one source's fetch-and-parse attempt came to: either its items or
/// the failure's detail. `source` is the configured name of the source.
pub struct FetchOutcome {
    pub source: String,
    pub result: Result<Vec<Article>, String>,
}

/// The items one outcome contributes: none when the source failed.
pub open spec fn ok_items(o: FetchOutcome) -> Seq<Article> {
    match o.result {
        Ok(v) => v@,
        Err(_) => Seq::empty(),
    }
}

/// All contributed items, in source order, each source's items in the order
/// it supplied them.
pub open spec fn oks_concat(s: Seq<FetchOutcome>) -> Seq<Article>
    decreases s.len(),
{
    if s.len() == 0 {
        Seq::empty()
    } else {
        oks_concat(s.drop_last()) + ok_items(s.last())
    }
}

/// The diagnostic line one outcome earns: a success count, or the failure's
/// reason naming the source.
pub open spec fn diag_of(o: FetchOutcome) -> Seq<char> {
    match o.result {
        Ok(v) => "Fetched "@ + dec_str(v@.len()) + " articles from "@ + o.source@,
        Err(e) => "Failed to fetch "@ + o.source@ + ": "@ + e@,
    }
}

/// The merged collection plus one diagnostic line per attempted source.
pub struct IngestReport {
    pub articles: Vec<Article>,
    pub diagnostics: Vec<String>,
}

/// Merges the per-source outcomes into the run's collection: a failed
/// source contributes no items and never aborts the others; every source,
/// failed or not, earns exactly one diagnostic line; and the merged items
/// are sorted most-recent-first with dateless items at the end, stably.
pub fn ingest_outcomes(outcomes: Vec<FetchOutcome>) -> (r: IngestReport)
    ensures
        sorted_digest(r.articles@),
        r.articles@.len() == oks_concat(outcomes@).len(),
        r.articles@.to_multiset() == oks_concat(outcomes@).to_multiset(),
        forall|k: Option<i64>|
            #[trigger] with_stamp(r.articles@, k) == with_stamp(oks_concat(outcomes@), k),
        r.diagnostics.deep_view() == outcomes@.map_values(|o: FetchOutcome| diag_of(o)),
{
    let ghost orig = outcomes@;
    let mut rem = outcomes;
    let mut all: Vec<Article> = Vec::new();
    let mut diags: Vec<String> = Vec::new();
    let ghost mut i: int = 0;
    proof {
        assert(orig.skip(0) =~= rem@);
        assert(orig.take(0) =~= Seq::<FetchOutcome>::empty());
        assert(all@ =~= oks_concat(orig.take(0)));
        assert(diags.deep_view() =~= orig.take(0).map_values(|o: FetchOutcome| diag_of(o)));
    }
    while rem.len() > 0
        invariant
            0 <= i <= orig.len(),
            orig.skip(i) == rem@,
            all@ == oks_concat(orig.take(i)),
            diags.deep_view() == orig.take(i).map_values(|o: FetchOutcome| diag_of(o)),
        decreases rem.len(),
    {
        proof {
            assert(orig.skip(i).len() == rem@.len());
        }
        let o = rem.remove(0);
        proof {
            assert(o == orig[i]) by {
                assert(orig.skip(i)[0] == orig[i]);
            }
            assert(rem@ =~= orig.skip(i + 1)) by {
                assert(rem@ == orig.skip(i).remove(0));
                assert(orig.skip(i).remove(0) =~= orig.skip(i + 1));
            }
            assert(orig.take(i + 1).drop_last() =~= orig.take(i));
            assert(orig.take(i + 1).last() == orig[i]);
        }
        let ghost all_before = all@;
        let ghost diags_before = diags.deep_view();
        let FetchOutcome { source, result } = o;
        match result {
            Ok(mut articles) => {
                let n: u64 = articles.len() as u64;
                all.append(&mut articles);
                let num = u64_to_string(n);
                let mut line = String::from_str("Fetched ");
                line.append(num.as_str());
                line.append(" articles from ");
                line.append(source.as_str());
                proof {
                    assert(line@ == diag_of(orig[i]));
                }
                diags.push(line);
            },
            Err(detail) => {
                let mut line = String::from_str("Failed to fetch ");
                line.append(source.as_str());
                line.append(": ");
                line.append(detail.as_str());
                proof {
                    assert(line@ == diag_of(orig[i]));
                    assert(all@ == all_before + ok_items(orig[i])) by {
                        assert(all_before + Seq::<Article>::empty() =~= all_before);
                    }
                }
                diags.push(line);
            },
        }
        proof {
            assert(oks_concat(orig.take(i + 1)) == oks_concat(orig.take(i)) + ok_items(
                orig[i],
            ));
            assert(all@ == oks_concat(orig.take(i + 1)));
            assert(diags.deep_view() =~= diags_before.push(diag_of(orig[i])));
            assert(orig.take(i + 1).map_values(|o2: FetchOutcome| diag_of(o2)) =~= orig.take(
                i,
            ).map_values(|o2: FetchOutcome| diag_of(o2)).push(diag_of(orig[i])));
            i = i + 1;
        }
    }
    proof {
        assert(orig.take(orig.len() as int) =~= orig);
    }
    let articles = sort_by_published(all);
    IngestReport { articles, diagnostics: diags }
}

} // verus!
