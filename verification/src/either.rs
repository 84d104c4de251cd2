use vstd::prelude::*;

use crate::source::Source;
use crate::source::SourceError;

verus! {

/// Composes two backends of possibly different concrete types. Every
/// query tries the first (preferred) backend; on any failure it falls
/// back to the second and returns that result, success or failure,
/// as-is. The value is immutable after construction.
#[derive(Clone)]
pub struct EitherSource<A, B>(pub A, pub B);

impl<A: Source, B: Source> Source for EitherSource<A, B> {
    open spec fn modified_spec(&self, path: Seq<char>) -> Option<u64> {
        match self.0.modified_spec(path) {
            Some(t) => Some(t),
            None => self.1.modified_spec(path),
        }
    }

    open spec fn load_spec(&self, path: Seq<char>) -> Option<Seq<u8>> {
        match self.0.load_spec(path) {
            Some(bytes) => Some(bytes),
            None => self.1.load_spec(path),
        }
    }

    open spec fn load_with_metadata_spec(&self, path: Seq<char>) -> Option<(Seq<u8>, u64)> {
        match self.0.load_with_metadata_spec(path) {
            Some(m) => Some(m),
            None => self.1.load_with_metadata_spec(path),
        }
    }

    fn modified(&self, path: &str) -> (r: Result<u64, SourceError>) {
        match self.0.modified(path) {
            Ok(t) => Ok(t),
            Err(_) => self.1.modified(path),
        }
    }

    fn load(&self, path: &str) -> (r: Result<Vec<u8>, SourceError>) {
        match self.0.load(path) {
            Ok(bytes) => Ok(bytes),
            Err(_) => self.1.load(path),
        }
    }

    fn load_with_metadata(&self, path: &str) -> (r: Result<(Vec<u8>, u64), SourceError>) {
        match self.0.load_with_metadata(path) {
            Ok(m) => Ok(m),
            Err(_) => self.1.load_with_metadata(path),
        }
    }
}

} // verus!
