//! Reader for self-extracting archives: a trailer at the end of a byte
//! source locates a zstd-compressed cpio (newc) payload, whose entries are
//! decoded into plain values for the caller to materialise.

pub mod archive;
pub mod bytes;
pub mod error;
pub mod newc;
pub mod trailer;
