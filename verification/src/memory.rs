use vstd::prelude::*;

use vstd::slice::slice_to_vec;

use crate::source::Source;
use crate::source::SourceError;

verus! {

/// An in-memory backend over a small fixed table of resources: each
/// entry maps a path to the resource's bytes and its modification
/// timestamp. A query is answered by the first entry whose path
/// matches; a path with no entry fails with `SourceError::NotFound`.
#[derive(Clone)]
pub struct MemorySource {
    pub entries: Vec<(String, Vec<u8>, u64)>,
}

/// The bytes-and-timestamp pair of the first entry whose path is
/// `path`; `None` when no entry matches.
pub open spec fn entry_for(
    entries: Seq<(String, Vec<u8>, u64)>,
    path: Seq<char>,
) -> Option<(Seq<u8>, u64)>
    decreases entries.len(),
{
    if entries.len() == 0 {
        None
    } else if entries[0].0@ == path {
        Some((entries[0].1@, entries[0].2))
    } else {
        entry_for(entries.subrange(1, entries.len() as int), path)
    }
}

/// When every entry before position `k` has a different path and the
/// entry at `k` matches, the table answers with entry `k`'s contents.
pub proof fn lemma_entry_for_found(entries: Seq<(String, Vec<u8>, u64)>, path: Seq<char>, k: int)
    requires
        0 <= k < entries.len(),
        forall|j: int| 0 <= j < k ==> #[trigger] entries[j].0@ != path,
        entries[k].0@ == path,
    ensures
        entry_for(entries, path) == Some::<(Seq<u8>, u64)>((entries[k].1@, entries[k].2)),
    decreases k,
{
    if k > 0 {
        let tail = entries.subrange(1, entries.len() as int);
        assert forall|j: int| 0 <= j < k - 1 implies #[trigger] tail[j].0@ != path by {
            assert(tail[j] == entries[j + 1]);
        }
        assert(tail[k - 1] == entries[k]);
        lemma_entry_for_found(tail, path, k - 1);
    }
}

/// When no entry's path is `path`, the table has nothing for it.
pub proof fn lemma_entry_for_absent(entries: Seq<(String, Vec<u8>, u64)>, path: Seq<char>)
    requires
        forall|j: int| 0 <= j < entries.len() ==> #[trigger] entries[j].0@ != path,
    ensures
        entry_for(entries, path) is None,
    decreases entries.len(),
{
    if entries.len() > 0 {
        let tail = entries.subrange(1, entries.len() as int);
        assert forall|j: int| 0 <= j < tail.len() implies #[trigger] tail[j].0@ != path by {
            assert(tail[j] == entries[j + 1]);
        }
        lemma_entry_for_absent(tail, path);
    }
}

impl MemorySource {
    /// A backend with no entries: every query fails.
    pub fn new() -> (r: Self)
        ensures
            r.entries@ == Seq::<(String, Vec<u8>, u64)>::empty(),
    {
        MemorySource { entries: Vec::new() }
    }

    /// Appends one entry mapping `path` to `bytes` with modification
    /// timestamp `modified`. An entry added earlier for the same path
    /// keeps precedence, since lookups take the first match.
    pub fn with_entry(self, path: String, bytes: Vec<u8>, modified: u64) -> (r: Self)
        ensures
            r.entries@ == self.entries@.push((path, bytes, modified)),
    {
        let mut entries = self.entries;
        entries.push((path, bytes, modified));
        MemorySource { entries }
    }
}

impl Source for MemorySource {
    open spec fn modified_spec(&self, path: Seq<char>) -> Option<u64> {
        match entry_for(self.entries@, path) {
            Some(m) => Some(m.1),
            None => None,
        }
    }

    open spec fn load_spec(&self, path: Seq<char>) -> Option<Seq<u8>> {
        match entry_for(self.entries@, path) {
            Some(m) => Some(m.0),
            None => None,
        }
    }

    open spec fn load_with_metadata_spec(&self, path: Seq<char>) -> Option<(Seq<u8>, u64)> {
        entry_for(self.entries@, path)
    }

    fn modified(&self, path: &str) -> (r: Result<u64, SourceError>) {
        let owned: String = path.to_owned();
        let mut i: usize = 0;
        while i < self.entries.len()
            invariant
                i <= self.entries.len(),
                owned@ == path@,
                forall|j: int| 0 <= j < i ==> #[trigger] self.entries@[j].0@ != path@,
            decreases self.entries.len() - i,
        {
            if self.entries[i].0 == owned {
                proof {
                    lemma_entry_for_found(self.entries@, path@, i as int);
                }
                return Ok(self.entries[i].2);
            }
            i += 1;
        }
        proof {
            lemma_entry_for_absent(self.entries@, path@);
        }
        Err(SourceError::NotFound)
    }

    fn load(&self, path: &str) -> (r: Result<Vec<u8>, SourceError>) {
        let owned: String = path.to_owned();
        let mut i: usize = 0;
        while i < self.entries.len()
            invariant
                i <= self.entries.len(),
                owned@ == path@,
                forall|j: int| 0 <= j < i ==> #[trigger] self.entries@[j].0@ != path@,
            decreases self.entries.len() - i,
        {
            if self.entries[i].0 == owned {
                proof {
                    lemma_entry_for_found(self.entries@, path@, i as int);
                }
                return Ok(slice_to_vec(self.entries[i].1.as_slice()));
            }
            i += 1;
        }
        proof {
            lemma_entry_for_absent(self.entries@, path@);
        }
        Err(SourceError::NotFound)
    }

    fn load_with_metadata(&self, path: &str) -> (r: Result<(Vec<u8>, u64), SourceError>) {
        let owned: String = path.to_owned();
        let mut i: usize = 0;
        while i < self.entries.len()
            invariant
                i <= self.entries.len(),
                owned@ == path@,
                forall|j: int| 0 <= j < i ==> #[trigger] self.entries@[j].0@ != path@,
            decreases self.entries.len() - i,
        {
            if self.entries[i].0 == owned {
                proof {
                    lemma_entry_for_found(self.entries@, path@, i as int);
                }
                let bytes = slice_to_vec(self.entries[i].1.as_slice());
                return Ok((bytes, self.entries[i].2));
            }
            i += 1;
        }
        proof {
            lemma_entry_for_absent(self.entries@, path@);
        }
        Err(SourceError::NotFound)
    }
}

} // verus!
