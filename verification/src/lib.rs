//! Memory-management core of a small virtual-machine runtime: region-based
//! raw-byte storage, a generational heap with bulk invalidation, and a
//! stack-frame allocator, all addressed through self-describing references.

pub mod codec;
pub mod heap;
pub mod memory;
pub mod region;
pub mod stack;
pub mod typing;
