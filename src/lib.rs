//! A reference-counted handle to a value behind an asynchronous read-write lock.
mod lock;
pub mod handle;

pub use handle::Handle;
