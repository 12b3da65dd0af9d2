//! The Blob Store: write-once byte storage keyed by digest, modelled as a
//! map from key to content. A later write to the same key wins, which is the
//! safe overwrite the cache relies on: the same URL fetches the same bytes.
//! The module also holds the rule that confines a file-serve request path to
//! one opaque segment under the store's root.

use vstd::prelude::*;

verus! {

/// The map a sequence of writes denotes: the latest write to a key wins.
spec fn kv_map(entries: Seq<(String, Vec<u8>)>) -> Map<Seq<char>, Seq<u8>>
    decreases entries.len(),
{
    if entries.len() == 0 {
        Map::empty()
    } else {
        kv_map(entries.drop_last()).insert(entries.last().0@, entries.last().1@)
    }
}

/// Byte storage keyed by digest: a log of writes read as a map.
pub struct BlobStore {
    entries: Vec<(String, Vec<u8>)>,
}

impl View for BlobStore {
    type V = Map<Seq<char>, Seq<u8>>;

    closed spec fn view(&self) -> Map<Seq<char>, Seq<u8>> {
        kv_map(self.entries@)
    }
}

proof fn lemma_kv_map_found(entries: Seq<(String, Vec<u8>)>, k: Seq<char>, i: int)
    requires
        0 <= i < entries.len(),
        entries[i].0@ == k,
        forall|j: int| i < j < entries.len() ==> entries[j].0@ != k,
    ensures
        kv_map(entries).contains_key(k),
        kv_map(entries)[k] == entries[i].1@,
    decreases entries.len(),
{
    if i < entries.len() - 1 {
        lemma_kv_map_found(entries.drop_last(), k, i);
    }
}

proof fn lemma_kv_map_absent(entries: Seq<(String, Vec<u8>)>, k: Seq<char>)
    requires
        forall|j: int| 0 <= j < entries.len() ==> entries[j].0@ != k,
    ensures
        !kv_map(entries).contains_key(k),
    decreases entries.len(),
{
    if entries.len() > 0 {
        lemma_kv_map_absent(entries.drop_last(), k);
    }
}

impl BlobStore {
    /// An empty store: no key holds a blob.
    pub fn new() -> (s: Self)
        ensures
            s@ == Map::<Seq<char>, Seq<u8>>::empty(),
    {
        BlobStore { entries: Vec::new() }
    }

    /// Writes `bytes` under `digest`, overwriting any blob already there.
    pub fn put(&mut self, digest: &str, bytes: Vec<u8>)
        ensures
            final(self)@ == old(self)@.insert(digest@, bytes@),
    {
        let ghost b = bytes@;
        self.entries.push((digest.to_owned(), bytes));
        proof {
            assert(self.entries@.drop_last() =~= old(self).entries@);
            assert(self.entries@.last().0@ == digest@);
            assert(self.entries@.last().1@ == b);
        }
    }

    /// Reads the blob under `digest`, if one has been written.
    pub fn get(&self, digest: &str) -> (r: Option<&Vec<u8>>)
        ensures
            match r {
                Some(b) => self@.contains_key(digest@) && b@ == self@[digest@],
                None => !self@.contains_key(digest@),
            },
    {
        let mut i: usize = self.entries.len();
        while i > 0
            invariant
                i <= self.entries@.len(),
                forall|j: int| i <= j < self.entries@.len() ==> self.entries@[j].0@ != digest@,
            decreases i,
        {
            i = i - 1;
            if crate::text::str_eq(self.entries[i].0.as_str(), digest) {
                proof {
                    lemma_kv_map_found(self.entries@, digest@, i as int);
                }
                return Some(&self.entries[i].1);
            }
        }
        proof {
            lemma_kv_map_absent(self.entries@, digest@);
        }
        None
    }

    /// Whether a blob has been written under `digest`.
    pub fn contains(&self, digest: &str) -> (r: bool)
        ensures
            r == self@.contains_key(digest@),
    {
        self.get(digest).is_some()
    }
}

/// A key the file-serve path may hand to the store: one non-empty segment,
/// free of path separators and not a dot segment, so a resolved path can
/// never climb out of the store's root directory.
pub open spec fn valid_blob_key(k: Seq<char>) -> bool {
    &&& k.len() > 0
    &&& forall|i: int| 0 <= i < k.len() ==> k[i] != '/' && k[i] != '\\'
    &&& k != "."@
    &&& k != ".."@
}

/// Every digest the hasher returns is a safe blob key: all lowercase hex,
/// so free of separators and dot segments — the file-serve path accepts
/// unchanged what the ingest path returned.
pub proof fn lemma_digest_is_valid_blob_key(d: Seq<char>)
    requires
        d.len() == 64,
        forall|i: int| 0 <= i < d.len() ==> crate::digest::is_hex_char(#[trigger] d[i]),
    ensures
        valid_blob_key(d),
{
    reveal_strlit(".");
    reveal_strlit("..");
    assert(d.len() != "."@.len());
    assert(d.len() != ".."@.len());
    assert forall|i: int| 0 <= i < d.len() implies d[i] != '/' && d[i] != '\\' by {
        assert(crate::digest::is_hex_char(d[i]));
    }
}

/// A request path with its leading slashes removed.
pub open spec fn strip_leading_slashes(s: Seq<char>) -> Seq<char>
    decreases s.len(),
{
    if s.len() > 0 && s[0] == '/' {
        strip_leading_slashes(s.skip(1))
    } else {
        s
    }
}

proof fn lemma_strip_skip(s: Seq<char>, i: int)
    requires
        0 <= i <= s.len(),
        forall|j: int| 0 <= j < i ==> s[j] == '/',
    ensures
        strip_leading_slashes(s) == strip_leading_slashes(s.skip(i)),
    decreases i,
{
    if i > 0 {
        assert(s[0] == '/');
        assert(forall|j: int| 0 <= j < i - 1 ==> s.skip(1)[j] == s[j + 1]);
        lemma_strip_skip(s.skip(1), i - 1);
        assert(s.skip(1).skip(i - 1) =~= s.skip(i));
    } else {
        assert(s.skip(0) =~= s);
    }
}

/// Resolves a raw request path to a blob key: strips leading slashes and
/// accepts exactly the keys that stay confined to the store's root.
pub fn resolve_request_path(path: &str) -> (r: Option<String>)
    ensures
        match r {
            Some(k) => k@ == strip_leading_slashes(path@) && valid_blob_key(k@),
            None => !valid_blob_key(strip_leading_slashes(path@)),
        },
{
    let n = path.unicode_len();
    let mut i: usize = 0;
    while i < n && path.get_char(i) == '/'
        invariant
            n == path@.len(),
            i <= n,
            forall|j: int| 0 <= j < i ==> path@[j] == '/',
        decreases n - i,
    {
        i += 1;
    }
    let rest = path.substring_char(i, n);
    proof {
        lemma_strip_skip(path@, i as int);
        assert(rest@ =~= path@.skip(i as int));
        assert(strip_leading_slashes(rest@) == rest@);
    }
    let m = rest.unicode_len();
    if m == 0 {
        return None;
    }
    let mut j: usize = 0;
    while j < m
        invariant
            m == rest@.len(),
            m > 0,
            j <= m,
            rest@ == strip_leading_slashes(path@),
            forall|t: int| 0 <= t < j ==> rest@[t] != '/' && rest@[t] != '\\',
        decreases m - j,
    {
        let c = rest.get_char(j);
        if c == '/' || c == '\\' {
            return None;
        }
        j += 1;
    }
    if crate::text::str_eq(rest, ".") || crate::text::str_eq(rest, "..") {
        return None;
    }
    Some(rest.to_owned())
}

} // verus!
