//! The video table as ingestion sees it: an append-only collection of rows
//! that is unique on the composite key, filled by idempotent upserts.
use vstd::prelude::*;

use crate::model::{same_key, video_key, VideoModel};

verus! {

/// The composite unique key of a video row.
pub type VideoKey = (int, int, int, int, int, int, int, Seq<char>);

/// The keys of a row sequence, in row order.
pub open spec fn keys_of(rows: Seq<VideoModel>) -> Seq<VideoKey> {
    rows.map_values(|r: VideoModel| video_key(r))
}

/// Whether some row of `rows` has key `k`.
pub open spec fn contains_key(rows: Seq<VideoModel>, k: VideoKey) -> bool {
    exists|i: int| 0 <= i < rows.len() && video_key(rows[i]) == k
}

/// An upsert against the composite unique index: a row whose key is already
/// present is left alone, a new key is appended.
pub open spec fn spec_upsert(rows: Seq<VideoModel>, m: VideoModel) -> Seq<VideoModel> {
    if contains_key(rows, video_key(m)) {
        rows
    } else {
        rows.push(m)
    }
}

/// A batch of upserts, first item first.
pub open spec fn spec_ingest(rows: Seq<VideoModel>, items: Seq<VideoModel>) -> Seq<VideoModel>
    decreases items.len(),
{
    if items.len() == 0 {
        rows
    } else {
        spec_ingest(spec_upsert(rows, items[0]), items.drop_first())
    }
}

/// The video table.  Ingestion only ever appends; nothing is deleted here.
#[derive(Debug)]
pub struct VideoTable {
    pub rows: Vec<VideoModel>,
}

impl VideoTable {
    /// The composite key is unique across the table.
    pub open spec fn wf(&self) -> bool {
        keys_of(self.rows@).no_duplicates()
    }

    pub fn new() -> (t: Self)
        ensures
            t.wf(),
            t.rows@.len() == 0,
    {
        let t = VideoTable { rows: Vec::new() };
        proof {
            assert(keys_of(t.rows@) =~= Seq::<VideoKey>::empty());
        }
        t
    }

    /// Insert `m` unless a row with its composite key already exists.
    pub fn upsert(&mut self, m: VideoModel) -> (inserted: bool)
        requires
            old(self).wf(),
        ensures
            final(self).wf(),
            final(self).rows@ == spec_upsert(old(self).rows@, m),
            inserted == !contains_key(old(self).rows@, video_key(m)),
    {
        let n = self.rows.len();
        let mut i: usize = 0;
        while i < n
            invariant
                n == self.rows@.len(),
                i <= n,
                *self == *old(self),
                self.wf(),
                forall|j: int| 0 <= j < i ==> video_key(self.rows@[j]) != video_key(m),
            decreases n - i,
        {
            if same_key(&self.rows[i], &m) {
                return false;
            }
            i += 1;
        }
        proof {
            assert(!contains_key(self.rows@, video_key(m)));
            lemma_keys_push(self.rows@, m);
            assert(forall|j: int|
                0 <= j < keys_of(self.rows@).len() ==> keys_of(self.rows@)[j] == video_key(
                    self.rows@[j],
                ));
        }
        self.rows.push(m);
        true
    }

    /// Upsert a chunk of new rows, first item first.
    pub fn insert_chunk(&mut self, chunk: Vec<VideoModel>)
        requires
            old(self).wf(),
        ensures
            final(self).wf(),
            final(self).rows@ == spec_ingest(old(self).rows@, chunk@),
    {
        let ghost all = chunk@;
        let mut chunk = chunk;
        while chunk.len() > 0
            invariant
                self.wf(),
                spec_ingest(old(self).rows@, all) == spec_ingest(self.rows@, chunk@),
            decreases chunk@.len(),
        {
            let m = chunk.remove(0);
            self.upsert(m);
        }
    }

    /// The number of rows, which `lemma_row_count_is_key_count` ties to the
    /// number of distinct composite keys.
    pub fn row_count(&self) -> (n: usize)
        ensures
            n == self.rows@.len(),
    {
        self.rows.len()
    }
}

/// Mapping a pushed row to its key commutes with pushing the key.
proof fn lemma_keys_push(rows: Seq<VideoModel>, m: VideoModel)
    ensures
        keys_of(rows.push(m)) == keys_of(rows).push(video_key(m)),
{
    assert(keys_of(rows.push(m)) =~= keys_of(rows).push(video_key(m)));
}

/// Uniqueness: in a well-formed table the row count equals the cardinality of
/// the set of composite unique keys.
pub proof fn lemma_row_count_is_key_count(t: VideoTable)
    requires
        t.wf(),
    ensures
        t.rows@.len() == keys_of(t.rows@).to_set().len(),
{
    keys_of(t.rows@).unique_seq_to_set();
}

/// After an upsert the table holds the upserted key, and everything it held
/// before.
proof fn lemma_upsert_keys(rows: Seq<VideoModel>, m: VideoModel)
    ensures
        contains_key(spec_upsert(rows, m), video_key(m)),
        forall|k: VideoKey| contains_key(rows, k) ==> contains_key(spec_upsert(rows, m), k),
{
    let after = spec_upsert(rows, m);
    if !contains_key(rows, video_key(m)) {
        assert(after[rows.len() as int] == m);
        assert(forall|k: VideoKey|
            contains_key(rows, k) ==> contains_key(after, k)) by {
            assert forall|k: VideoKey| contains_key(rows, k) implies contains_key(after, k) by {
                let i = choose|i: int| 0 <= i < rows.len() && video_key(rows[i]) == k;
                assert(after[i] == rows[i]);
            }
        }
    }
}

/// After a batch of upserts the table holds every key of the batch, and
/// everything it held before.
pub proof fn lemma_ingest_keys(rows: Seq<VideoModel>, items: Seq<VideoModel>)
    ensures
        forall|i: int|
            0 <= i < items.len() ==> contains_key(
                spec_ingest(rows, items),
                video_key(items[i]),
            ),
        forall|k: VideoKey| contains_key(rows, k) ==> contains_key(spec_ingest(rows, items), k),
    decreases items.len(),
{
    if items.len() > 0 {
        let step = spec_upsert(rows, items[0]);
        lemma_upsert_keys(rows, items[0]);
        lemma_ingest_keys(step, items.drop_first());
        assert forall|i: int| 0 <= i < items.len() implies contains_key(
            spec_ingest(rows, items),
            video_key(items[i]),
        ) by {
            if i > 0 {
                assert(items.drop_first()[i - 1] == items[i]);
            }
        }
    }
}

/// A batch whose keys are all present already changes nothing.
proof fn lemma_ingest_noop(rows: Seq<VideoModel>, items: Seq<VideoModel>)
    requires
        forall|i: int| 0 <= i < items.len() ==> contains_key(rows, video_key(items[i])),
    ensures
        spec_ingest(rows, items) == rows,
    decreases items.len(),
{
    if items.len() > 0 {
        assert(contains_key(rows, video_key(items[0])));
        lemma_ingest_noop(rows, items.drop_first());
    }
}

/// Idempotence of ingestion: replaying the same batch against the table it
/// already produced inserts nothing and changes nothing.
pub proof fn lemma_ingest_idempotent(rows: Seq<VideoModel>, items: Seq<VideoModel>)
    ensures
        spec_ingest(spec_ingest(rows, items), items) == spec_ingest(rows, items),
{
    lemma_ingest_keys(rows, items);
    lemma_ingest_noop(spec_ingest(rows, items), items);
}

} // verus!
