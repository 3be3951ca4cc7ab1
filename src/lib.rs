//! Named, process-shared counting semaphores: the verified configuration,
//! name encoding and result logic of a semaphore handle.
//!
//! - `flags`: the open options and the permission bits of a new semaphore.
//! - `name`: the nul-terminated form of a semaphore's name.
//! - `request`: the checked arguments of one open call.
//! - `error`: the error type, and the results of the operating system's calls.

pub mod error;
pub mod flags;
pub mod name;
pub mod request;
