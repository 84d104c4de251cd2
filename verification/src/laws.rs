use vstd::prelude::*;

use crate::chain::AnySource;
use crate::either::EitherSource;
use crate::empty::NoSource;
use crate::many::lemma_first_load_found;
use crate::many::ManySources;
use crate::source::Source;

verus! {

/// The empty backend fails on every path, the empty string included:
/// all three of its query descriptions are `None`, so by the `Source`
/// contract all three executable operations return
/// `SourceError::NotFound`.
pub proof fn lemma_empty_source_fails(src: NoSource, path: Seq<char>)
    ensures
        src.modified_spec(path) is None,
        src.load_spec(path) is None,
        src.load_with_metadata_spec(path) is None,
{
}

/// A freshly constructed chain has no backends, so all three of its
/// query operations fail with `SourceError::NotFound` for any path.
pub proof fn lemma_new_chain_fails(chain: AnySource<NoSource>, path: Seq<char>)
    ensures
        chain.modified_spec(path) is None,
        chain.load_spec(path) is None,
        chain.load_with_metadata_spec(path) is None,
{
}

/// Priority law for a pair: whenever the preferred (first) backend of
/// a pair succeeds on a path, the pair answers with that result, for
/// each of the three operations.
pub proof fn lemma_pair_priority<A: Source, B: Source>(pair: EitherSource<A, B>, path: Seq<char>)
    ensures
        pair.0.modified_spec(path) is Some ==> pair.modified_spec(path) == pair.0.modified_spec(
            path,
        ),
        pair.0.load_spec(path) is Some ==> pair.load_spec(path) == pair.0.load_spec(path),
        pair.0.load_with_metadata_spec(path) is Some ==> pair.load_with_metadata_spec(path)
            == pair.0.load_with_metadata_spec(path),
{
}

/// Fallback law for a pair: whenever the preferred (first) backend of
/// a pair fails on a path, the pair answers exactly as its second
/// backend does — success or failure — for each of the three
/// operations.
pub proof fn lemma_pair_fallback<A: Source, B: Source>(pair: EitherSource<A, B>, path: Seq<char>)
    ensures
        pair.0.modified_spec(path) is None ==> pair.modified_spec(path) == pair.1.modified_spec(
            path,
        ),
        pair.0.load_spec(path) is None ==> pair.load_spec(path) == pair.1.load_spec(path),
        pair.0.load_with_metadata_spec(path) is None ==> pair.load_with_metadata_spec(path)
            == pair.1.load_with_metadata_spec(path),
{
}

/// Failure-aggregation law for a pair: when both backends of a pair
/// fail on a path, the pair fails on it too, for each of the three
/// operations. Together with the aggregation laws for `ManySources`
/// and the delegation of `AnySource`, this shows that a chain none of
/// whose registered backends holds a path fails with
/// `SourceError::NotFound` on all three operations.
pub proof fn lemma_pair_all_fail<A: Source, B: Source>(pair: EitherSource<A, B>, path: Seq<char>)
    requires
        pair.0.modified_spec(path) is None,
        pair.0.load_spec(path) is None,
        pair.0.load_with_metadata_spec(path) is None,
        pair.1.modified_spec(path) is None,
        pair.1.load_spec(path) is None,
        pair.1.load_with_metadata_spec(path) is None,
    ensures
        pair.modified_spec(path) is None,
        pair.load_spec(path) is None,
        pair.load_with_metadata_spec(path) is None,
{
}

/// Priority is LIFO over builder calls: in a chain of the shape built
/// by `AnySource::new().with_source(a).with_source(b)`, the backend
/// added last (`b`, standing first in the outer pair) answers every
/// path it can load, also when `a` could load it too; and a path that
/// `b` cannot load is answered by `a` (with the empty base never
/// contributing anything).
pub proof fn lemma_lifo_priority<A: Source, B: Source>(
    chain: AnySource<EitherSource<B, EitherSource<A, NoSource>>>,
    path: Seq<char>,
)
    ensures
        chain.sources.0.load_spec(path) is Some ==> chain.load_spec(path)
            == chain.sources.0.load_spec(path),
        chain.sources.0.load_spec(path) is None ==> chain.load_spec(path)
            == chain.sources.1.0.load_spec(path),
{
}

/// Group-ordering law: in a chain of the shape built by
/// `with_sources`, when the first `k` backends of the group fail on a
/// path and the one at position `k` succeeds, the chain answers with
/// that backend's bytes. In particular, when every backend of the
/// group holds the path, the first element of the supplied sequence
/// wins.
pub proof fn lemma_group_order<A: Source, S: Source>(
    chain: AnySource<EitherSource<ManySources<A>, S>>,
    path: Seq<char>,
    k: int,
)
    requires
        0 <= k < chain.sources.0.0@.len(),
        forall|j: int| 0 <= j < k ==> chain.sources.0.0@[j].load_spec(path) is None,
        chain.sources.0.0@[k].load_spec(path) is Some,
    ensures
        chain.load_spec(path) == chain.sources.0.0@[k].load_spec(path),
{
    lemma_first_load_found(chain.sources.0.0@, path, k);
}

/// Non-mutation law: a builder call is value-producing, never
/// in-place. The chain that `with_source` returns embeds the
/// previously registered backend value unchanged as the fallback half
/// of the new pair, so every query the original composition answered
/// is answered the same way there; the original chain value itself is
/// never altered, since no operation of the library takes it by
/// mutable reference.
pub proof fn lemma_with_source_preserves_original<A: Source, S: Source>(
    original: AnySource<S>,
    added: A,
    extended: AnySource<EitherSource<A, S>>,
    path: Seq<char>,
)
    requires
        extended == (AnySource { sources: EitherSource(added, original.sources) }),
    ensures
        extended.sources.1 == original.sources,
        extended.sources.1.modified_spec(path) == original.modified_spec(path),
        extended.sources.1.load_spec(path) == original.load_spec(path),
        extended.sources.1.load_with_metadata_spec(path) == original.load_with_metadata_spec(path),
{
}

} // verus!
