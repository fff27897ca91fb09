//! The process-wide season-title cache: a memo of normalized season titles
//! keyed by season id.  The caller guards one instance with a lock and does
//! the fetching; lookup, insertion and the acceptance of a fetched title are
//! verified here.  There is no invalidation: the title of a season is
//! deterministic, so a duplicated fetch on concurrent misses is harmless.
use vstd::prelude::*;
use vstd::string::*;

use crate::textnorm::{normalize_title, spec_normalized_title};

verus! {

/// One memoized title.
#[derive(Debug)]
pub struct SeasonTitleEntry {
    pub season_id: String,
    pub title: String,
}

/// The title stored for `id`: the latest insertion wins, as a map insert
/// would.
pub open spec fn spec_cached(entries: Seq<SeasonTitleEntry>, id: Seq<char>) -> Option<Seq<char>>
    decreases entries.len(),
{
    if entries.len() == 0 {
        None
    } else if entries.last().season_id@ == id {
        Some(entries.last().title@)
    } else {
        spec_cached(entries.drop_last(), id)
    }
}

/// The memo of season titles, keyed by season id.
#[derive(Debug)]
pub struct SeasonTitleCache {
    pub entries: Vec<SeasonTitleEntry>,
}

impl SeasonTitleCache {
    pub fn new() -> (c: Self)
        ensures
            c.entries@.len() == 0,
    {
        SeasonTitleCache { entries: Vec::new() }
    }

    /// Look a season's title up.
    pub fn get(&self, season_id: &str) -> (r: Option<String>)
        ensures
            match r {
                Option::Some(t) => spec_cached(self.entries@, season_id@) == Some(t@),
                Option::None => spec_cached(self.entries@, season_id@) is None,
            },
    {
        let n = self.entries.len();
        let mut i: usize = n;
        proof {
            assert(self.entries@.subrange(0, n as int) =~= self.entries@);
        }
        while i > 0
            invariant
                n == self.entries@.len(),
                i <= n,
                spec_cached(self.entries@, season_id@) == spec_cached(
                    self.entries@.subrange(0, i as int),
                    season_id@,
                ),
            decreases i,
        {
            proof {
                assert(self.entries@.subrange(0, i as int).last() == self.entries@[i - 1]);
                assert(self.entries@.subrange(0, i as int).drop_last() =~= self.entries@.subrange(
                    0,
                    i - 1,
                ));
            }
            i -= 1;
            if crate::strutil::str_eq(self.entries[i].season_id.as_str(), season_id) {
                return Some(self.entries[i].title.clone());
            }
        }
        None
    }

    /// Memoize a season's title; a later insertion for the same id shadows
    /// an earlier one, as a map insert would.
    pub fn insert(&mut self, season_id: String, title: String)
        ensures
            final(self).entries@ == old(self).entries@.push(
                SeasonTitleEntry { season_id, title },
            ),
            spec_cached(final(self).entries@, season_id@) == Some(title@),
            forall|other: Seq<char>|
                other != season_id@ ==> spec_cached(final(self).entries@, other) == spec_cached(
                    old(self).entries@,
                    other,
                ),
    {
        self.entries.push(SeasonTitleEntry { season_id, title });
        proof {
            assert(self.entries@.drop_last() =~= old(self).entries@);
        }
    }
}

/// Accept what the unauthenticated season endpoint returned: a title comes
/// back, normalized, exactly when the envelope code is zero and a title is
/// present; on anything else the caller falls back to its heuristics.
pub fn accept_season_title(code: Option<i64>, title: Option<String>) -> (r: Option<String>)
    ensures
        r is Some <==> (code == Some(0i64) && title is Some),
        r matches Some(t) ==> t@ == spec_normalized_title(title->0@),
{
    match (code, title) {
        (Option::Some(c), Option::Some(t)) => {
            if c == 0 {
                Some(normalize_title(t.as_str()))
            } else {
                None
            }
        },
        _ => None,
    }
}

} // verus!
