//! Root-and-barrier bookkeeping for a managed-runtime garbage-collector
//! binding: a per-thread cache of root slots discovered in freshly generated
//! code units, a shared registry that aggregates those slots with a running
//! count, and the allocation/write-barrier gateway a compiler or interpreter
//! calls on every object creation and pointer store.

pub mod binding;
pub mod facade;
pub mod mutator;
pub mod registry;
pub mod root_cache;
