use vstd::prelude::*;

use crate::source::Source;
use crate::source::SourceError;

verus! {

/// Composes an ordered sequence of backends of one concrete type.
/// Every query walks the sequence in order (insertion order is
/// priority order) and returns the first success; when the sequence is
/// empty or every element fails, the query fails with
/// `SourceError::NotFound`. The value is immutable after construction.
#[derive(Clone)]
pub struct ManySources<S>(pub Vec<S>);

/// The first timestamp that any element of `sources`, in order,
/// reports for `path`; `None` when every element fails.
pub open spec fn first_modified<S: Source>(sources: Seq<S>, path: Seq<char>) -> Option<u64>
    decreases sources.len(),
{
    if sources.len() == 0 {
        None
    } else {
        match sources[0].modified_spec(path) {
            Some(t) => Some(t),
            None => first_modified(sources.subrange(1, sources.len() as int), path),
        }
    }
}

/// The first byte sequence that any element of `sources`, in order,
/// loads for `path`; `None` when every element fails.
pub open spec fn first_load<S: Source>(sources: Seq<S>, path: Seq<char>) -> Option<Seq<u8>>
    decreases sources.len(),
{
    if sources.len() == 0 {
        None
    } else {
        match sources[0].load_spec(path) {
            Some(bytes) => Some(bytes),
            None => first_load(sources.subrange(1, sources.len() as int), path),
        }
    }
}

/// The first bytes-and-timestamp pair that any element of `sources`,
/// in order, loads for `path`; `None` when every element fails.
pub open spec fn first_load_with_metadata<S: Source>(
    sources: Seq<S>,
    path: Seq<char>,
) -> Option<(Seq<u8>, u64)>
    decreases sources.len(),
{
    if sources.len() == 0 {
        None
    } else {
        match sources[0].load_with_metadata_spec(path) {
            Some(m) => Some(m),
            None => first_load_with_metadata(sources.subrange(1, sources.len() as int), path),
        }
    }
}

/// Group-ordering law for `modified`: when every element before
/// position `k` fails on `path` and the element at `k` succeeds, the
/// whole group answers with element `k`'s timestamp — the earliest
/// success in the supplied order wins.
pub proof fn lemma_first_modified_found<S: Source>(sources: Seq<S>, path: Seq<char>, k: int)
    requires
        0 <= k < sources.len(),
        forall|j: int| 0 <= j < k ==> sources[j].modified_spec(path) is None,
        sources[k].modified_spec(path) is Some,
    ensures
        first_modified(sources, path) == sources[k].modified_spec(path),
    decreases k,
{
    if k > 0 {
        let tail = sources.subrange(1, sources.len() as int);
        assert forall|j: int| 0 <= j < k - 1 implies tail[j].modified_spec(path) is None by {
            assert(tail[j] == sources[j + 1]);
        }
        assert(tail[k - 1] == sources[k]);
        lemma_first_modified_found(tail, path, k - 1);
    }
}

/// Group-ordering law for `load`: the earliest element that succeeds
/// on `path` supplies the group's answer.
pub proof fn lemma_first_load_found<S: Source>(sources: Seq<S>, path: Seq<char>, k: int)
    requires
        0 <= k < sources.len(),
        forall|j: int| 0 <= j < k ==> sources[j].load_spec(path) is None,
        sources[k].load_spec(path) is Some,
    ensures
        first_load(sources, path) == sources[k].load_spec(path),
    decreases k,
{
    if k > 0 {
        let tail = sources.subrange(1, sources.len() as int);
        assert forall|j: int| 0 <= j < k - 1 implies tail[j].load_spec(path) is None by {
            assert(tail[j] == sources[j + 1]);
        }
        assert(tail[k - 1] == sources[k]);
        lemma_first_load_found(tail, path, k - 1);
    }
}

/// Group-ordering law for `load_with_metadata`: the earliest element
/// that succeeds on `path` supplies the group's answer.
pub proof fn lemma_first_load_with_metadata_found<S: Source>(
    sources: Seq<S>,
    path: Seq<char>,
    k: int,
)
    requires
        0 <= k < sources.len(),
        forall|j: int| 0 <= j < k ==> sources[j].load_with_metadata_spec(path) is None,
        sources[k].load_with_metadata_spec(path) is Some,
    ensures
        first_load_with_metadata(sources, path) == sources[k].load_with_metadata_spec(path),
    decreases k,
{
    if k > 0 {
        let tail = sources.subrange(1, sources.len() as int);
        assert forall|j: int| 0 <= j < k - 1 implies tail[j].load_with_metadata_spec(path) is None
            by {
            assert(tail[j] == sources[j + 1]);
        }
        assert(tail[k - 1] == sources[k]);
        lemma_first_load_with_metadata_found(tail, path, k - 1);
    }
}

/// Failure-aggregation law for `modified`: when every element of the
/// group fails on `path`, the group as a whole fails.
pub proof fn lemma_first_modified_all_fail<S: Source>(sources: Seq<S>, path: Seq<char>)
    requires
        forall|j: int| 0 <= j < sources.len() ==> sources[j].modified_spec(path) is None,
    ensures
        first_modified(sources, path) is None,
    decreases sources.len(),
{
    if sources.len() > 0 {
        let tail = sources.subrange(1, sources.len() as int);
        assert forall|j: int| 0 <= j < tail.len() implies tail[j].modified_spec(path) is None by {
            assert(tail[j] == sources[j + 1]);
        }
        lemma_first_modified_all_fail(tail, path);
    }
}

/// Failure-aggregation law for `load`: when every element of the group
/// fails on `path`, the group as a whole fails.
pub proof fn lemma_first_load_all_fail<S: Source>(sources: Seq<S>, path: Seq<char>)
    requires
        forall|j: int| 0 <= j < sources.len() ==> sources[j].load_spec(path) is None,
    ensures
        first_load(sources, path) is None,
    decreases sources.len(),
{
    if sources.len() > 0 {
        let tail = sources.subrange(1, sources.len() as int);
        assert forall|j: int| 0 <= j < tail.len() implies tail[j].load_spec(path) is None by {
            assert(tail[j] == sources[j + 1]);
        }
        lemma_first_load_all_fail(tail, path);
    }
}

/// Failure-aggregation law for `load_with_metadata`: when every
/// element of the group fails on `path`, the group as a whole fails.
pub proof fn lemma_first_load_with_metadata_all_fail<S: Source>(sources: Seq<S>, path: Seq<char>)
    requires
        forall|j: int| 0 <= j < sources.len() ==> sources[j].load_with_metadata_spec(path) is None,
    ensures
        first_load_with_metadata(sources, path) is None,
    decreases sources.len(),
{
    if sources.len() > 0 {
        let tail = sources.subrange(1, sources.len() as int);
        assert forall|j: int| 0 <= j < tail.len() implies tail[j].load_with_metadata_spec(path)
            is None by {
            assert(tail[j] == sources[j + 1]);
        }
        lemma_first_load_with_metadata_all_fail(tail, path);
    }
}

impl<S: Source> Source for ManySources<S> {
    open spec fn modified_spec(&self, path: Seq<char>) -> Option<u64> {
        first_modified(self.0@, path)
    }

    open spec fn load_spec(&self, path: Seq<char>) -> Option<Seq<u8>> {
        first_load(self.0@, path)
    }

    open spec fn load_with_metadata_spec(&self, path: Seq<char>) -> Option<(Seq<u8>, u64)> {
        first_load_with_metadata(self.0@, path)
    }

    fn modified(&self, path: &str) -> (r: Result<u64, SourceError>) {
        let mut i: usize = 0;
        while i < self.0.len()
            invariant
                i <= self.0.len(),
                forall|j: int| 0 <= j < i ==> self.0@[j].modified_spec(path@) is None,
            decreases self.0.len() - i,
        {
            match self.0[i].modified(path) {
                Ok(t) => {
                    proof {
                        lemma_first_modified_found(self.0@, path@, i as int);
                    }
                    return Ok(t);
                },
                Err(_) => {},
            }
            i += 1;
        }
        proof {
            lemma_first_modified_all_fail(self.0@, path@);
        }
        Err(SourceError::NotFound)
    }

    fn load(&self, path: &str) -> (r: Result<Vec<u8>, SourceError>) {
        let mut i: usize = 0;
        while i < self.0.len()
            invariant
                i <= self.0.len(),
                forall|j: int| 0 <= j < i ==> self.0@[j].load_spec(path@) is None,
            decreases self.0.len() - i,
        {
            match self.0[i].load(path) {
                Ok(bytes) => {
                    proof {
                        lemma_first_load_found(self.0@, path@, i as int);
                    }
                    return Ok(bytes);
                },
                Err(_) => {},
            }
            i += 1;
        }
        proof {
            lemma_first_load_all_fail(self.0@, path@);
        }
        Err(SourceError::NotFound)
    }

    fn load_with_metadata(&self, path: &str) -> (r: Result<(Vec<u8>, u64), SourceError>) {
        let mut i: usize = 0;
        while i < self.0.len()
            invariant
                i <= self.0.len(),
                forall|j: int| 0 <= j < i ==> self.0@[j].load_with_metadata_spec(path@) is None,
            decreases self.0.len() - i,
        {
            match self.0[i].load_with_metadata(path) {
                Ok(m) => {
                    proof {
                        lemma_first_load_with_metadata_found(self.0@, path@, i as int);
                    }
                    return Ok(m);
                },
                Err(_) => {},
            }
            i += 1;
        }
        proof {
            lemma_first_load_with_metadata_all_fail(self.0@, path@);
        }
        Err(SourceError::NotFound)
    }
}

} // verus!
