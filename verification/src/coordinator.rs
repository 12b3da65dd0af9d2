//! The Cache Coordinator: the one owner of the Blob Store and the Mapping
//! Index, and the only code that writes either. One ingestion is
//! fetch → hash → blob write → index append, in that order; the order is the
//! point, because a crash between the two writes then leaves at worst an
//! orphan blob, never a mapping whose blob is missing.

use vstd::prelude::*;

use crate::digest::hash_url;
use crate::digest::url_digest;
use crate::index::MappingIndex;
use crate::store::BlobStore;

verus! {

/// What the origin fetch produced: the body bytes of a success response, or
/// failure — the origin unreachable or answering with a non-success status.
pub enum FetchOutcome {
    Fetched(Vec<u8>),
    Unreachable,
}

/// The cache's error taxonomy. Every failure surfaces as exactly one of
/// these, so a client can tell an origin problem from a storage problem from
/// a miss.
#[derive(Clone, Copy, Debug, PartialEq, Eq, Structural)]
pub enum CacheError {
    /// The origin could not be fetched; surfaced as 400, never retried.
    OriginFetch,
    /// Local disk or index I/O failed; surfaced as 500.
    Storage,
    /// The requested blob is absent; surfaced as 404, expected and benign.
    NotFound,
    /// The request body was missing or undecodable; surfaced as 400.
    MalformedRequest,
}

/// The coordinator's durable state, abstractly: the stored blobs by digest,
/// and the mapping log in insertion order.
pub struct CacheState {
    pub blobs: Map<Seq<char>, Seq<u8>>,
    pub mappings: Seq<(Seq<char>, Seq<char>)>,
}

impl CacheState {
    /// No dangling mapping: every digest the log mentions has a stored blob.
    /// An orphan blob — stored but never logged — is allowed.
    pub open spec fn wf(self) -> bool {
        forall|i: int|
            0 <= i < self.mappings.len() ==> self.blobs.contains_key(
                #[trigger] self.mappings[i].0,
            )
    }

    /// The durable effect of the first write of an ingestion: the blob is
    /// stored, the log not yet touched. A crash here strands an orphan blob.
    pub open spec fn after_blob_write(self, url: Seq<char>, bytes: Seq<u8>) -> CacheState {
        CacheState { blobs: self.blobs.insert(url_digest(url), bytes), mappings: self.mappings }
    }

    /// The durable effect of one completed ingestion: the blob stored under
    /// the URL's digest, and one record appended to the log.
    pub open spec fn after_ingest(self, url: Seq<char>, bytes: Seq<u8>) -> CacheState {
        CacheState {
            blobs: self.blobs.insert(url_digest(url), bytes),
            mappings: self.mappings.push((url_digest(url), url)),
        }
    }
}

/// The two durable writes one successful ingestion performs, in their fixed
/// order: first the blob under `digest`, then the (digest, URL) record.
#[derive(Debug)]
pub struct IngestPlan {
    pub digest: String,
    pub source_url: String,
    pub bytes: Vec<u8>,
}

/// Decides one ingestion from the fetch outcome alone. A successful fetch
/// always yields the plan of the two writes — the digest the URL's, the
/// bytes the origin's; a failed fetch yields the origin error and no write
/// at all. Whoever executes the plan must write the blob before the record.
pub fn plan_ingest(url: &str, fetched: FetchOutcome) -> (r: Result<IngestPlan, CacheError>)
    ensures
        (fetched matches FetchOutcome::Fetched(b) ==> {
            &&& r matches Ok(p)
            &&& p.digest@ == url_digest(url@)
            &&& p.source_url@ == url@
            &&& p.bytes@ == b@
        }),
        (fetched matches FetchOutcome::Unreachable ==> r == Err::<IngestPlan, CacheError>(
            CacheError::OriginFetch,
        )),
{
    match fetched {
        FetchOutcome::Fetched(bytes) => Ok(
            IngestPlan { digest: hash_url(url), source_url: url.to_owned(), bytes },
        ),
        FetchOutcome::Unreachable => Err(CacheError::OriginFetch),
    }
}

/// The Cache Coordinator. The Service Layer holds it by shared reference and
/// never touches storage directly.
pub struct CacheCoordinator {
    store: BlobStore,
    index: MappingIndex,
}

impl View for CacheCoordinator {
    type V = CacheState;

    closed spec fn view(&self) -> CacheState {
        CacheState { blobs: self.store@, mappings: self.index@ }
    }
}

impl CacheCoordinator {
    /// An empty cache: nothing stored, nothing logged.
    pub fn new() -> (c: Self)
        ensures
            c@.blobs == Map::<Seq<char>, Seq<u8>>::empty(),
            c@.mappings == Seq::<(Seq<char>, Seq<char>)>::empty(),
            c@.wf(),
    {
        CacheCoordinator { store: BlobStore::new(), index: MappingIndex::new() }
    }

    /// Ingests one URL, given what the origin fetch produced. On fetched
    /// bytes it always succeeds: the blob is written first, the mapping
    /// appended second, and the URL's digest returned. On a failed fetch
    /// nothing is written and the origin error is surfaced.
    pub fn ingest(&mut self, url: &str, fetched: FetchOutcome) -> (r: Result<String, CacheError>)
        requires
            old(self)@.wf(),
        ensures
            final(self)@.wf(),
            (fetched matches FetchOutcome::Fetched(bytes) ==> {
                &&& r matches Ok(d) && d@ == url_digest(url@)
                &&& final(self)@ == old(self)@.after_ingest(url@, bytes@)
            }),
            (fetched matches FetchOutcome::Unreachable ==> {
                &&& r == Err::<String, CacheError>(CacheError::OriginFetch)
                &&& final(self)@ == old(self)@
            }),
    {
        match plan_ingest(url, fetched) {
            Ok(plan) => {
                let IngestPlan { digest, source_url, bytes } = plan;
                let ghost b = bytes@;
                self.store.put(digest.as_str(), bytes);
                self.index.append(digest.as_str(), source_url.as_str());
                proof {
                    assert(self@ == old(self)@.after_ingest(url@, b));
                    lemma_ingest_preserves_wf(old(self)@, url@, b);
                }
                Ok(digest)
            },
            Err(e) => Err(e),
        }
    }

    /// Reads the blob stored under `digest`, if any; absence is the benign
    /// miss the file-serve path answers with 404.
    pub fn get_blob(&self, digest: &str) -> (r: Option<&Vec<u8>>)
        ensures
            match r {
                Some(b) => self@.blobs.contains_key(digest@) && b@ == self@.blobs[digest@],
                None => !self@.blobs.contains_key(digest@),
            },
    {
        self.store.get(digest)
    }

    /// Whether a blob is stored under `digest`.
    pub fn has_blob(&self, digest: &str) -> (r: bool)
        ensures
            r == self@.blobs.contains_key(digest@),
    {
        self.store.contains(digest)
    }

    /// Returns the full mapping log, in insertion order, with no
    /// transformation.
    pub fn list_mappings(&self) -> (r: Vec<(String, String)>)
        ensures
            r@.len() == self@.mappings.len(),
            forall|i: int|
                0 <= i < r@.len() ==> (#[trigger] r@[i].0@, r@[i].1@) == self@.mappings[i],
    {
        self.index.scan_all()
    }
}

/// A completed ingestion preserves the no-dangling-mapping invariant.
pub proof fn lemma_ingest_preserves_wf(s: CacheState, url: Seq<char>, bytes: Seq<u8>)
    requires
        s.wf(),
    ensures
        s.after_ingest(url, bytes).wf(),
{
    let t = s.after_ingest(url, bytes);
    assert forall|i: int| 0 <= i < t.mappings.len() implies t.blobs.contains_key(
        #[trigger] t.mappings[i].0,
    ) by {
        if i < s.mappings.len() {
            assert(s.blobs.contains_key(s.mappings[i].0));
        }
    }
}

/// Crash safety: terminated after the blob write but before the index
/// append, the cache still satisfies the invariant — the log references no
/// digest without a blob; the stranded blob is merely an orphan.
pub proof fn lemma_crash_after_blob_write_is_safe(s: CacheState, url: Seq<char>, bytes: Seq<u8>)
    requires
        s.wf(),
    ensures
        s.after_blob_write(url, bytes).wf(),
        s.after_blob_write(url, bytes).mappings == s.mappings,
{
    let t = s.after_blob_write(url, bytes);
    assert forall|i: int| 0 <= i < t.mappings.len() implies t.blobs.contains_key(
        #[trigger] t.mappings[i].0,
    ) by {
        assert(s.blobs.contains_key(s.mappings[i].0));
    }
}

/// Idempotence: ingesting the same URL twice, the origin serving the same
/// bytes, yields the same digest both times and leaves exactly one
/// retrievable blob for it, byte-identical to what the origin served; the
/// log, append-only, holds one record per ingestion.
pub proof fn lemma_ingest_idempotent(s: CacheState, url: Seq<char>, bytes: Seq<u8>)
    ensures
        ({
            let once = s.after_ingest(url, bytes);
            let twice = once.after_ingest(url, bytes);
            &&& twice.blobs == once.blobs
            &&& twice.blobs[url_digest(url)] == bytes
            &&& twice.mappings.len() == s.mappings.len() + 2
        }),
{
    let d = url_digest(url);
    assert(s.blobs.insert(d, bytes).insert(d, bytes) =~= s.blobs.insert(d, bytes));
}

/// Round trip: after an ingestion of `url` whose fetch produced `bytes`, a
/// file-serve lookup of the returned digest finds exactly those bytes.
pub proof fn lemma_round_trip(s: CacheState, url: Seq<char>, bytes: Seq<u8>)
    ensures
        s.after_ingest(url, bytes).blobs.contains_key(url_digest(url)),
        s.after_ingest(url, bytes).blobs[url_digest(url)] == bytes,
{
}

/// The mapping log only grows, and only by what was ingested: one completed
/// ingestion appends exactly its own record and leaves every earlier record
/// in place.
pub proof fn lemma_mappings_append_only(s: CacheState, url: Seq<char>, bytes: Seq<u8>)
    ensures
        s.after_ingest(url, bytes).mappings.len() == s.mappings.len() + 1,
        forall|i: int|
            0 <= i < s.mappings.len() ==> s.after_ingest(url, bytes).mappings[i] == s.mappings[i],
        s.after_ingest(url, bytes).mappings.last() == (url_digest(url), url),
{
}

/// A run of successful ingestions, applied in order.
pub open spec fn after_ingest_all(s: CacheState, runs: Seq<(Seq<char>, Seq<u8>)>) -> CacheState
    decreases runs.len(),
{
    if runs.len() == 0 {
        s
    } else {
        after_ingest_all(s, runs.drop_last()).after_ingest(runs.last().0, runs.last().1)
    }
}

/// The no-dangling-mapping invariant survives any run of successful
/// ingestions.
pub proof fn lemma_ingest_all_preserves_wf(s: CacheState, runs: Seq<(Seq<char>, Seq<u8>)>)
    requires
        s.wf(),
    ensures
        after_ingest_all(s, runs).wf(),
    decreases runs.len(),
{
    if runs.len() > 0 {
        lemma_ingest_all_preserves_wf(s, runs.drop_last());
        lemma_ingest_preserves_wf(
            after_ingest_all(s, runs.drop_last()),
            runs.last().0,
            runs.last().1,
        );
    }
}

/// After N successful ingestions the log holds at least N records: every
/// record present before survives unchanged, and each ingestion contributes
/// exactly the record of its own URL — none is ever fabricated or dropped.
pub proof fn lemma_mappings_after_n_ingestions(s: CacheState, runs: Seq<(Seq<char>, Seq<u8>)>)
    ensures
        after_ingest_all(s, runs).mappings.len() == s.mappings.len() + runs.len(),
        forall|i: int|
            0 <= i < s.mappings.len() ==> after_ingest_all(s, runs).mappings[i] == s.mappings[i],
        forall|i: int|
            0 <= i < runs.len() ==> after_ingest_all(s, runs).mappings[s.mappings.len() + i] == (
                url_digest(runs[i].0),
                runs[i].0,
            ),
    decreases runs.len(),
{
    if runs.len() > 0 {
        lemma_mappings_after_n_ingestions(s, runs.drop_last());
        let prev = after_ingest_all(s, runs.drop_last());
        assert forall|i: int|
            0 <= i < runs.len() implies after_ingest_all(s, runs).mappings[s.mappings.len() + i]
            == (url_digest(runs[i].0), runs[i].0) by {
            if i < runs.len() - 1 {
                assert(runs.drop_last()[i] == runs[i]);
                assert(prev.mappings[s.mappings.len() + i] == (
                    url_digest(runs.drop_last()[i].0),
                    runs.drop_last()[i].0,
                ));
            }
        }
    }
}

} // verus!
