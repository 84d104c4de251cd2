use vstd::prelude::*;

use crate::source::Source;
use crate::source::SourceError;

verus! {

/// The empty backend: it holds no entries and every query fails with
/// `SourceError::NotFound`, whatever the path. It is the base of a
/// freshly built chain, so the three query operations are total even
/// before any real backend is added.
#[derive(Clone)]
pub struct NoSource;

impl Source for NoSource {
    open spec fn modified_spec(&self, path: Seq<char>) -> Option<u64> {
        None
    }

    open spec fn load_spec(&self, path: Seq<char>) -> Option<Seq<u8>> {
        None
    }

    open spec fn load_with_metadata_spec(&self, path: Seq<char>) -> Option<(Seq<u8>, u64)> {
        None
    }

    fn modified(&self, path: &str) -> (r: Result<u64, SourceError>) {
        Err(SourceError::NotFound)
    }

    fn load(&self, path: &str) -> (r: Result<Vec<u8>, SourceError>) {
        Err(SourceError::NotFound)
    }

    fn load_with_metadata(&self, path: &str) -> (r: Result<(Vec<u8>, u64), SourceError>) {
        Err(SourceError::NotFound)
    }
}

} // verus!
