//! Error kinds of the descriptor table and the widening conversions between
//! them.

use vstd::prelude::*;

verus! {

/// An out-of-bounds or closed file descriptor.
#[derive(Debug, Clone, Copy, PartialEq, Eq, Structural)]
pub struct BadFd;

/// The descriptor table cannot grow.
#[derive(Debug, Clone, Copy, PartialEq, Eq, Structural)]
pub struct OutOfMemory;

/// A read was attempted on a descriptor whose source cannot be read.
#[derive(Debug, Clone, Copy, PartialEq, Eq, Structural)]
pub struct NotReadable;

/// A write was attempted on a descriptor whose source cannot be written.
#[derive(Debug, Clone, Copy, PartialEq, Eq, Structural)]
pub struct NotWriteable;

/// A stream operation on a descriptor that is not a stream.
#[derive(Debug, Clone, Copy, PartialEq, Eq, Structural)]
pub enum BadStreamFd {
    BadFd,
    NotStream,
}

/// A file operation on a descriptor that is not a file.
#[derive(Debug, Clone, Copy, PartialEq, Eq, Structural)]
pub enum BadFileFd {
    BadFd,
    NotFile,
}

/// A socket operation on a descriptor that is not a socket.
#[derive(Debug, Clone, Copy, PartialEq, Eq, Structural)]
pub enum BadSocketFd {
    BadFd,
    NotSocket,
}

impl From<BadFd> for BadStreamFd {
    fn from(e: BadFd) -> (r: Self)
        ensures
            r == BadStreamFd::BadFd,
    {
        BadStreamFd::BadFd
    }
}

impl vstd::std_specs::convert::FromSpecImpl<BadFd> for BadStreamFd {
    open spec fn obeys_from_spec() -> bool {
        true
    }

    open spec fn from_spec(e: BadFd) -> Self {
        BadStreamFd::BadFd
    }
}

/// An unreadable stream degrades to the generic bad-descriptor kind.
impl From<NotReadable> for BadStreamFd {
    fn from(e: NotReadable) -> (r: Self)
        ensures
            r == BadStreamFd::BadFd,
    {
        BadStreamFd::BadFd
    }
}

impl vstd::std_specs::convert::FromSpecImpl<NotReadable> for BadStreamFd {
    open spec fn obeys_from_spec() -> bool {
        true
    }

    open spec fn from_spec(e: NotReadable) -> Self {
        BadStreamFd::BadFd
    }
}

/// An unwriteable stream degrades to the generic bad-descriptor kind.
impl From<NotWriteable> for BadStreamFd {
    fn from(e: NotWriteable) -> (r: Self)
        ensures
            r == BadStreamFd::BadFd,
    {
        BadStreamFd::BadFd
    }
}

impl vstd::std_specs::convert::FromSpecImpl<NotWriteable> for BadStreamFd {
    open spec fn obeys_from_spec() -> bool {
        true
    }

    open spec fn from_spec(e: NotWriteable) -> Self {
        BadStreamFd::BadFd
    }
}

impl From<BadFd> for BadFileFd {
    fn from(e: BadFd) -> (r: Self)
        ensures
            r == BadFileFd::BadFd,
    {
        BadFileFd::BadFd
    }
}

impl vstd::std_specs::convert::FromSpecImpl<BadFd> for BadFileFd {
    open spec fn obeys_from_spec() -> bool {
        true
    }

    open spec fn from_spec(e: BadFd) -> Self {
        BadFileFd::BadFd
    }
}

impl From<BadFd> for BadSocketFd {
    fn from(e: BadFd) -> (r: Self)
        ensures
            r == BadSocketFd::BadFd,
    {
        BadSocketFd::BadFd
    }
}

impl vstd::std_specs::convert::FromSpecImpl<BadFd> for BadSocketFd {
    open spec fn obeys_from_spec() -> bool {
        true
    }

    open spec fn from_spec(e: BadFd) -> Self {
        BadSocketFd::BadFd
    }
}

} // verus!
