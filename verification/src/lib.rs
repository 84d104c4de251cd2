//! Chained asset sources.
//!
//! A small combinator library for composing loadable backends in a
//! game-engine asset pipeline. Each backend can, for a given path,
//! report a modification timestamp, load raw bytes, or load bytes
//! together with the timestamp. The combinators here build a composite
//! backend that tries its parts in a fixed priority order and returns
//! the first success; when every part fails, the query fails with a
//! single uniform not-found error.

mod chain;

mod either;

mod empty;

mod laws;

mod many;

mod memory;

mod source;

pub use source::Source;
pub use source::SourceError;

pub use empty::NoSource;

pub use either::EitherSource;

pub use many::first_load;
pub use many::first_load_with_metadata;
pub use many::first_modified;
pub use many::lemma_first_load_all_fail;
pub use many::lemma_first_load_found;
pub use many::lemma_first_load_with_metadata_all_fail;
pub use many::lemma_first_load_with_metadata_found;
pub use many::lemma_first_modified_all_fail;
pub use many::lemma_first_modified_found;
pub use many::ManySources;

pub use chain::AnySource;

pub use laws::lemma_empty_source_fails;
pub use laws::lemma_group_order;
pub use laws::lemma_lifo_priority;
pub use laws::lemma_new_chain_fails;
pub use laws::lemma_pair_all_fail;
pub use laws::lemma_pair_fallback;
pub use laws::lemma_pair_priority;
pub use laws::lemma_with_source_preserves_original;

pub use memory::entry_for;
pub use memory::lemma_entry_for_absent;
pub use memory::lemma_entry_for_found;
pub use memory::MemorySource;
