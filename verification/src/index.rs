//! The Mapping Index: a durable, append-only log of (digest, source URL)
//! records. It is a log, not a unique-keyed dictionary — re-ingesting a URL
//! appends a second record for the same digest, and that is deliberate.
//! A full scan returns every record in insertion order.

use vstd::prelude::*;

verus! {

/// One provenance record: the digest a blob is stored under, and the source
/// URL its bytes were fetched from.
pub struct MappingRecord {
    pub digest: String,
    pub source_url: String,
}

impl View for MappingRecord {
    type V = (Seq<char>, Seq<char>);

    open spec fn view(&self) -> (Seq<char>, Seq<char>) {
        (self.digest@, self.source_url@)
    }
}

/// The append-only table of mapping records.
pub struct MappingIndex {
    records: Vec<MappingRecord>,
}

impl View for MappingIndex {
    type V = Seq<(Seq<char>, Seq<char>)>;

    closed spec fn view(&self) -> Seq<(Seq<char>, Seq<char>)> {
        self.records@.map_values(|r: MappingRecord| r@)
    }
}

impl MappingIndex {
    /// A fresh index with no records; creating it anew is idempotent in the
    /// sense that it imposes nothing on records appended later.
    pub fn new() -> (s: Self)
        ensures
            s@ == Seq::<(Seq<char>, Seq<char>)>::empty(),
    {
        let s = MappingIndex { records: Vec::new() };
        proof {
            assert(s@ =~= Seq::<(Seq<char>, Seq<char>)>::empty());
        }
        s
    }

    /// The number of records appended so far.
    pub fn len(&self) -> (n: usize)
        ensures
            n == self@.len(),
    {
        self.records.len()
    }

    /// Durably appends one record; every earlier record is untouched.
    pub fn append(&mut self, digest: &str, url: &str)
        ensures
            final(self)@ == old(self)@.push((digest@, url@)),
    {
        self.records.push(MappingRecord { digest: digest.to_owned(), source_url: url.to_owned() });
        proof {
            assert(self@ =~= old(self)@.push((digest@, url@)));
        }
    }

    /// Returns every record, in insertion order, as (digest, URL) pairs.
    /// Each call re-reads the full current state.
    pub fn scan_all(&self) -> (r: Vec<(String, String)>)
        ensures
            r@.len() == self@.len(),
            forall|i: int| 0 <= i < r@.len() ==> (#[trigger] r@[i].0@, r@[i].1@) == self@[i],
    {
        let mut out: Vec<(String, String)> = Vec::new();
        let mut i: usize = 0;
        while i < self.records.len()
            invariant
                i <= self.records@.len(),
                out@.len() == i,
                forall|j: int| 0 <= j < i ==> (#[trigger] out@[j].0@, out@[j].1@) == self@[j],
            decreases self.records@.len() - i,
        {
            out.push((self.records[i].digest.clone(), self.records[i].source_url.clone()));
            i += 1;
        }
        out
    }
}

} // verus!
