//! A verified core for a periodic content digest. Items fetched from
//! configured syndication sources are normalized into one model, merged
//! and ordered deterministically while tolerating per-source failure,
//! bounded into a synthesis prompt, and the synthesis result is rendered
//! and packaged for delivery. The network round trips live in the
//! surrounding shell; every data shape and every decision between the
//! round trips is specified and proved here.

use vstd::prelude::*;

pub mod config;
pub mod deliver;
pub mod feed;
pub mod ingest;
pub mod render;
pub mod summarize;
pub mod text;

verus! {

/// One normalized content entry, shared by every stage of the digest
/// pipeline. `published` is a Unix timestamp in milliseconds; `None` means the
/// source supplied no publication date, which is distinct from any concrete
/// time. `source` is the configured name of the originating feed; it is
/// assigned by the ingestion stage, never parsed out of feed content.
pub struct Article {
    pub title: String,
    pub link: String,
    pub summary: Option<String>,
    pub published: Option<i64>,
    pub source: String,
}

/// Digest order on publication stamps: `a` may stand at or before `b` when
/// the merged collection is sorted most-recent-first, with dateless items
/// after every dated one.
pub open spec fn stamp_le(a: Option<i64>, b: Option<i64>) -> bool {
    match (a, b) {
        (Some(x), Some(y)) => x >= y,
        (Some(_), None) => true,
        (None, Some(_)) => false,
        (None, None) => true,
    }
}

} // verus!
