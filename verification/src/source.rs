use vstd::prelude::*;

verus! {

/// The single failure kind reported by a chain of sources: the
/// resource was not found by any backend that was asked. Intermediate
/// failures of tried-and-skipped backends are swallowed, so a caller
/// cannot tell which backends were tried or why earlier ones failed.
#[derive(Clone, Copy, Debug, PartialEq, Eq, Structural)]
pub enum SourceError {
    NotFound,
}

/// A loadable backend: given a path, it can report a modification
/// timestamp, load the raw bytes of the resource, or load the bytes
/// together with the timestamp.
///
/// Every implementation describes itself with three spec functions,
/// one per operation, each a mathematical function from the path to
/// an optional result. `None` means the backend fails on that path;
/// the executable operation then returns `SourceError::NotFound`.
/// The executable operations are total: they never panic, and they
/// return exactly what the corresponding spec function says.
pub trait Source: Sized {
    /// What `modified` returns for each path, as a timestamp or nothing.
    spec fn modified_spec(&self, path: Seq<char>) -> Option<u64>;

    /// What `load` returns for each path, as a byte sequence or nothing.
    spec fn load_spec(&self, path: Seq<char>) -> Option<Seq<u8>>;

    /// What `load_with_metadata` returns for each path, as a byte
    /// sequence paired with a timestamp, or nothing.
    spec fn load_with_metadata_spec(&self, path: Seq<char>) -> Option<(Seq<u8>, u64)>;

    /// Reports the modification timestamp recorded for `path`.
    fn modified(&self, path: &str) -> (r: Result<u64, SourceError>)
        ensures
            (match self.modified_spec(path@) {
                Some(t) => r == Ok::<u64, SourceError>(t),
                None => r == Err::<u64, SourceError>(SourceError::NotFound),
            }),
    ;

    /// Loads the full bytes of the resource named by `path`.
    fn load(&self, path: &str) -> (r: Result<Vec<u8>, SourceError>)
        ensures
            (match self.load_spec(path@) {
                Some(bytes) => r matches Ok(v) && v@ == bytes,
                None => r == Err::<Vec<u8>, SourceError>(SourceError::NotFound),
            }),
    ;

    /// Loads the bytes of the resource named by `path` together with
    /// its modification timestamp.
    fn load_with_metadata(&self, path: &str) -> (r: Result<(Vec<u8>, u64), SourceError>)
        ensures
            (match self.load_with_metadata_spec(path@) {
                Some(m) => r matches Ok(p) && p.0@ == m.0 && p.1 == m.1,
                None => r == Err::<(Vec<u8>, u64), SourceError>(SourceError::NotFound),
            }),
    ;
}

} // verus!
