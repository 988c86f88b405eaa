//! The host capability handles this crate stores.
//!
//! Each handle is an opaque integer minted by the host. The table stores
//! handles and hands them back; it never interprets them.

use vstd::prelude::*;

verus! {

/// A file descriptor index, as seen by legacy callers.
pub type RawFd = u32;

/// A host descriptor handle (an open file or directory).
pub type Descriptor = u32;

/// A host input-stream handle.
pub type InputStream = u32;

/// A host output-stream handle.
pub type OutputStream = u32;

/// A host TCP socket handle.
pub type TcpSocket = u32;

/// A byte offset within a file.
pub type Filesize = u64;

} // verus!
