//! Unix-style integer file descriptors on top of statically typed host
//! capability handles.
//!
//! The host hands out separate handle types for descriptors, input streams,
//! output streams and sockets. Legacy callers expect small reusable integers
//! and flat numeric error codes. This crate keeps the table that maps the
//! integers to handles, acquires stream handles lazily, and translates the
//! host's structured errors and descriptor types into the legacy codes.

pub mod error;
pub mod handles;
pub mod fd;
pub mod table;
pub mod legacy;
pub mod trapping_unwrap;
pub mod digits;
