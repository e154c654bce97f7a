//! A verified core for memory-mapped regions.
//!
//! The library decides what to ask of the operating system and what its
//! answers mean; it makes no system call itself. Every operation comes as
//! a plan, a plain value that holds the arguments of one system call, and
//! as a function that takes the answer to that call.

pub mod abi;
pub mod error;
pub mod handle;
pub mod laws;
pub mod options;
pub mod unix;

pub use abi::{FlushMode, Protection, Sharing};
pub use error::{completed, MapError};
pub use handle::{
    Mmap, MmapMut, MmapMutRequest, MmapMutTransition, MmapRequest, MmapTransition, Released,
};
pub use options::MmapOptions;
pub use unix::{MapCall, MmapInner, ProtectCall, Region, Span, SyncCall};
