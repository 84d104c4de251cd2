use vstd::prelude::*;

use crate::either::EitherSource;
use crate::empty::NoSource;
use crate::many::ManySources;
use crate::source::Source;
use crate::source::SourceError;

verus! {

/// A composable chain of loadable backends. The chain owns exactly one
/// backend value — itself a nested composition of `EitherSource` and
/// `ManySources` over `NoSource` — and answers the three query
/// operations by delegating to it.
///
/// Priority is LIFO with respect to builder calls: the most recently
/// added backend (or group of backends) is tried before everything
/// previously registered. Every builder call consumes the chain and
/// produces a new value; no operation mutates a chain in place, so a
/// partially built chain can be branched into several distinct final
/// chains from the same prefix.
#[derive(Clone)]
pub struct AnySource<S> {
    pub sources: S,
}

impl AnySource<NoSource> {
    /// A fresh chain with no backends: all three query operations fail
    /// with `SourceError::NotFound` for every path.
    pub fn new() -> (r: Self)
        ensures
            r == (AnySource { sources: NoSource }),
    {
        AnySource { sources: NoSource }
    }
}

impl<S: Source> AnySource<S> {
    /// Adds one backend at the highest priority: the resulting chain
    /// tries `source` first and falls back to everything previously
    /// registered, which is embedded unchanged as the second half of
    /// the new pair.
    pub fn with_source<A: Source>(self, source: A) -> (r: AnySource<EitherSource<A, S>>)
        ensures
            r == (AnySource { sources: EitherSource(source, self.sources) }),
    {
        AnySource { sources: EitherSource(source, self.sources) }
    }

    /// Adds a group of same-type backends at the highest priority, as
    /// one block: the resulting chain tries the group's elements in
    /// the supplied order, then falls back to everything previously
    /// registered, which is embedded unchanged.
    pub fn with_sources<A: Source>(self, sources: Vec<A>) -> (r: AnySource<
        EitherSource<ManySources<A>, S>,
    >)
        ensures
            r == (AnySource { sources: EitherSource(ManySources(sources), self.sources) }),
    {
        AnySource { sources: EitherSource(ManySources(sources), self.sources) }
    }
}

impl<S> AnySource<ManySources<S>> {
    /// Builds a chain directly over a finished list of backends,
    /// bypassing the empty base: the chain tries the list's elements
    /// in order and nothing else.
    pub fn from_sources(sources: Vec<S>) -> (r: Self)
        ensures
            r == (AnySource { sources: ManySources(sources) }),
    {
        AnySource { sources: ManySources(sources) }
    }
}

impl<S: Source> Source for AnySource<S> {
    open spec fn modified_spec(&self, path: Seq<char>) -> Option<u64> {
        self.sources.modified_spec(path)
    }

    open spec fn load_spec(&self, path: Seq<char>) -> Option<Seq<u8>> {
        self.sources.load_spec(path)
    }

    open spec fn load_with_metadata_spec(&self, path: Seq<char>) -> Option<(Seq<u8>, u64)> {
        self.sources.load_with_metadata_spec(path)
    }

    fn modified(&self, path: &str) -> (r: Result<u64, SourceError>) {
        self.sources.modified(path)
    }

    fn load(&self, path: &str) -> (r: Result<Vec<u8>, SourceError>) {
        self.sources.load(path)
    }

    fn load_with_metadata(&self, path: &str) -> (r: Result<(Vec<u8>, u64), SourceError>) {
        self.sources.load_with_metadata(path)
    }
}

} // verus!
