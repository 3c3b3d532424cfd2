//! Bookkeeping for the long-term vector memory: the collection's name and
//! dimension, the monotonically increasing record-identifier counter, and
//! the plain-value requests handed to the vector database.
//!
//! The database and the embedding model are external collaborators; the
//! service performs their calls and reports back. An upsert is begun with
//! [`LongTermMemoryStore::begin_upsert`], which assigns the next identifier
//! without advancing the counter, and committed with
//! [`LongTermMemoryStore::commit_upsert`] only once the embedding and the
//! store call have succeeded — a failed upsert therefore never advances the
//! counter.

use vstd::prelude::*;

verus! {

/// Relies on chrono's `Utc::now` and `DateTime::format`: the current UTC
/// time rendered as a calendar timestamp with millisecond precision. The
/// result depends on the clock, so nothing is promised of it.
#[verifier::external_body]
fn now_timestamp() -> String {
    chrono::Utc::now().format("%Y-%m-%dT%H:%M:%S%.3f").to_string()
}

/// Payload stored beside a vector record: when it was said, and by whom.
#[derive(Debug)]
pub struct MetaData {
    pub timestamp: String,
    pub author: String,
}

impl MetaData {
    /// Metadata stamped with the current time.
    pub fn new(author: String) -> (r: MetaData)
        ensures
            r.author@ == author@,
    {
        MetaData { timestamp: now_timestamp(), author }
    }

    /// Metadata with an explicit timestamp.
    pub fn with_timestamp(timestamp: String, author: String) -> (r: MetaData)
        ensures
            r.timestamp@ == timestamp@,
            r.author@ == author@,
    {
        MetaData { timestamp, author }
    }

    /// The payload as key-value pairs, as the vector database stores it.
    pub fn to_payload(&self) -> (r: Vec<(String, String)>)
        ensures
            r@.len() == 2,
            r@[0].0@ == "datetime"@ && r@[0].1@ == self.timestamp@,
            r@[1].0@ == "author"@ && r@[1].1@ == self.author@,
    {
        let mut out: Vec<(String, String)> = Vec::new();
        out.push(("datetime".to_owned(), self.timestamp.clone()));
        out.push(("author".to_owned(), self.author.clone()));
        out
    }
}

/// Distance metric of a vector collection.
#[derive(Clone, Copy, Debug, PartialEq, Eq, Structural)]
pub enum Metric {
    Cosine,
}

/// A request to destroy and recreate the collection.
#[derive(Debug)]
pub struct ResetRequest {
    pub collection: String,
    pub dimension: u64,
    pub metric: Metric,
}

/// A record ready to be embedded and stored: the identifier the store
/// assigned it, the collection and dimension it must be stored under, the
/// text to embed, and the payload.
#[derive(Debug)]
pub struct PendingRecord {
    pub id: u64,
    pub collection: String,
    pub dimension: u64,
    pub text: String,
    pub meta: MetaData,
}

/// A nearest-neighbour query ready to be embedded and searched, restricted
/// by an optional payload condition.
#[derive(Debug)]
pub struct SearchRequest {
    pub collection: String,
    pub query: String,
    pub limit: u64,
    pub filter: Option<(String, String)>,
    pub with_payload: bool,
    pub with_vectors: bool,
}

/// Bookkeeping half of the long-term vector memory.
pub struct LongTermMemoryStore {
    collection: String,
    dimension: u64,
    next_id: u64,
    assigned: Ghost<Seq<u64>>,
}

impl LongTermMemoryStore {
    /// The collection's name.
    pub closed spec fn spec_collection(self) -> Seq<char> {
        self.collection@
    }

    /// The dimension every stored vector must have, fixed at creation from
    /// the embedding provider's output dimension.
    pub closed spec fn spec_dimension(self) -> u64 {
        self.dimension
    }

    /// The identifier the next committed upsert receives.
    pub closed spec fn spec_next_id(self) -> u64 {
        self.next_id
    }

    /// The identifiers of the committed upserts, in commit order.
    pub closed spec fn spec_assigned(self) -> Seq<u64> {
        self.assigned@
    }

    /// Identifiers are assigned consecutively from the initial counter
    /// value, zero for a freshly created store.
    pub closed spec fn wf(self) -> bool {
        &&& self.assigned@.len() == self.next_id
        &&& forall|i: int| 0 <= i < self.assigned@.len() ==> self.assigned@[i] == i
    }

    /// Identifiers of committed upserts are strictly increasing: the store
    /// assigns them consecutively starting from the initial counter value.
    pub proof fn lemma_ids_strictly_increasing(self)
        requires
            self.wf(),
        ensures
            forall|i: int| 0 <= i < self.spec_assigned().len() ==> self.spec_assigned()[i] == i,
            forall|i: int, j: int|
                0 <= i < j < self.spec_assigned().len() ==> self.spec_assigned()[i]
                    < self.spec_assigned()[j],
    {
    }

    /// A store for a freshly created collection: the counter starts at zero.
    pub fn new(collection: String, dimension: u64) -> (r: LongTermMemoryStore)
        ensures
            r.spec_collection() == collection@,
            r.spec_dimension() == dimension,
            r.spec_next_id() == 0,
            r.spec_assigned() =~= Seq::<u64>::empty(),
            r.wf(),
    {
        LongTermMemoryStore {
            collection,
            dimension,
            next_id: 0,
            assigned: Ghost(Seq::empty()),
        }
    }

    /// The request that destroys and recreates the collection, configured
    /// for cosine-similarity search with the store's dimension.
    pub fn reset_request(&self) -> (r: ResetRequest)
        ensures
            r.collection@ == self.spec_collection(),
            r.dimension == self.spec_dimension(),
            r.metric == Metric::Cosine,
    {
        ResetRequest {
            collection: self.collection.clone(),
            dimension: self.dimension,
            metric: Metric::Cosine,
        }
    }

    /// Assigns the next identifier to a record about to be embedded and
    /// stored. The counter does not advance until the record is committed,
    /// so a failed upsert assigns the same identifier again.
    pub fn begin_upsert(&self, text: String, meta: MetaData) -> (r: PendingRecord)
        ensures
            r.id == self.spec_next_id(),
            r.collection@ == self.spec_collection(),
            r.dimension == self.spec_dimension(),
            r.text@ == text@,
            r.meta.timestamp@ == meta.timestamp@,
            r.meta.author@ == meta.author@,
    {
        PendingRecord {
            id: self.next_id,
            collection: self.collection.clone(),
            dimension: self.dimension,
            text,
            meta,
        }
    }

    /// Advances the counter past a record that the database accepted.
    pub fn commit_upsert(&mut self, record: &PendingRecord)
        requires
            old(self).wf(),
            record.id == old(self).spec_next_id(),
            old(self).spec_next_id() < u64::MAX,
        ensures
            final(self).wf(),
            final(self).spec_collection() == old(self).spec_collection(),
            final(self).spec_dimension() == old(self).spec_dimension(),
            final(self).spec_next_id() == old(self).spec_next_id() + 1,
            final(self).spec_assigned() =~= old(self).spec_assigned().push(record.id),
    {
        proof {
            self.assigned@ = self.assigned@.push(self.next_id);
        }
        self.next_id = self.next_id + 1;
    }

    /// The nearest-neighbour request for a query text: up to `limit`
    /// results, each carrying its stored payload and vector.
    pub fn search_request(&self, query: String, limit: u64, filter: Option<(String, String)>) -> (r:
        SearchRequest)
        ensures
            r.collection@ == self.spec_collection(),
            r.query@ == query@,
            r.limit == limit,
            (r.filter matches Some(f) ==> filter matches Some(g) && f.0@ == g.0@ && f.1@ == g.1@),
            (r.filter is None <==> filter is None),
            r.with_payload,
            r.with_vectors,
    {
        SearchRequest {
            collection: self.collection.clone(),
            query,
            limit,
            filter,
            with_payload: true,
            with_vectors: true,
        }
    }
}

} // verus!
