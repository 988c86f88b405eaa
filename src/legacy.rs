//! Translation of the host's structured errors and descriptor types into
//! the legacy flat numeric codes.
//!
//! Every mapping is written as explicit branches rather than a lookup
//! table, so nothing needs a static initializer.

use vstd::prelude::*;
use crate::error::{BadFd, NotReadable, NotWriteable, OutOfMemory};

verus! {

/// A legacy error number.
pub type Errno = u16;

/// A legacy file-type code.
pub type Filetype = u8;

/// No error.
pub const ERRNO_SUCCESS: Errno = 0;
/// Permission denied.
pub const ERRNO_ACCES: Errno = 2;
/// The operation would block.
pub const ERRNO_AGAIN: Errno = 6;
/// A connection is already in progress.
pub const ERRNO_ALREADY: Errno = 7;
/// Bad descriptor.
pub const ERRNO_BADF: Errno = 8;
/// Device or resource busy.
pub const ERRNO_BUSY: Errno = 10;
/// Resource deadlock would occur.
pub const ERRNO_DEADLK: Errno = 16;
/// Storage quota exceeded.
pub const ERRNO_DQUOT: Errno = 19;
/// File exists.
pub const ERRNO_EXIST: Errno = 20;
/// File too large.
pub const ERRNO_FBIG: Errno = 22;
/// Illegal byte sequence.
pub const ERRNO_ILSEQ: Errno = 25;
/// Operation in progress.
pub const ERRNO_INPROGRESS: Errno = 26;
/// Interrupted function.
pub const ERRNO_INTR: Errno = 27;
/// Invalid argument.
pub const ERRNO_INVAL: Errno = 28;
/// I/O error.
pub const ERRNO_IO: Errno = 29;
/// Is a directory.
pub const ERRNO_ISDIR: Errno = 31;
/// Too many levels of symbolic links.
pub const ERRNO_LOOP: Errno = 32;
/// Too many links.
pub const ERRNO_MLINK: Errno = 34;
/// Message too large.
pub const ERRNO_MSGSIZE: Errno = 35;
/// Filename too long.
pub const ERRNO_NAMETOOLONG: Errno = 37;
/// No such device.
pub const ERRNO_NODEV: Errno = 43;
/// No such file or directory.
pub const ERRNO_NOENT: Errno = 44;
/// No locks available.
pub const ERRNO_NOLCK: Errno = 46;
/// Not enough space.
pub const ERRNO_NOMEM: Errno = 48;
/// No space left on device.
pub const ERRNO_NOSPC: Errno = 51;
/// Not a directory or a symbolic link to a directory.
pub const ERRNO_NOTDIR: Errno = 54;
/// Directory not empty.
pub const ERRNO_NOTEMPTY: Errno = 55;
/// State not recoverable.
pub const ERRNO_NOTRECOVERABLE: Errno = 56;
/// Not supported.
pub const ERRNO_NOTSUP: Errno = 58;
/// Inappropriate I/O control operation.
pub const ERRNO_NOTTY: Errno = 59;
/// No such device or address.
pub const ERRNO_NXIO: Errno = 60;
/// Value too large to be stored in data type.
pub const ERRNO_OVERFLOW: Errno = 61;
/// Operation not permitted.
pub const ERRNO_PERM: Errno = 63;
/// Broken pipe.
pub const ERRNO_PIPE: Errno = 64;
/// Read-only file system.
pub const ERRNO_ROFS: Errno = 69;
/// Invalid seek.
pub const ERRNO_SPIPE: Errno = 70;
/// Text file busy.
pub const ERRNO_TXTBSY: Errno = 74;
/// Cross-device link.
pub const ERRNO_XDEV: Errno = 75;
/// The type of the file is unknown or is different from the known types.
pub const FILETYPE_UNKNOWN: Filetype = 0;

/// A block device.
pub const FILETYPE_BLOCK_DEVICE: Filetype = 1;

/// A character device.
pub const FILETYPE_CHARACTER_DEVICE: Filetype = 2;

/// A directory.
pub const FILETYPE_DIRECTORY: Filetype = 3;

/// A regular file.
pub const FILETYPE_REGULAR_FILE: Filetype = 4;

/// A symbolic link.
pub const FILETYPE_SYMBOLIC_LINK: Filetype = 7;

/// The host's filesystem error codes.
#[derive(Debug, Clone, Copy, PartialEq, Eq, Structural)]
pub enum ErrorCode {
    /// Permission denied.
    Access,
    /// The operation would block.
    WouldBlock,
    /// A connection is already in progress.
    Already,
    /// Bad descriptor.
    BadDescriptor,
    /// Device or resource busy.
    Busy,
    /// Resource deadlock would occur.
    Deadlock,
    /// Storage quota exceeded.
    Quota,
    /// File exists.
    Exist,
    /// File too large.
    FileTooLarge,
    /// Illegal byte sequence.
    IllegalByteSequence,
    /// Operation in progress.
    InProgress,
    /// Interrupted function.
    Interrupted,
    /// Invalid argument.
    Invalid,
    /// I/O error.
    Io,
    /// Is a directory.
    IsDirectory,
    /// Too many levels of symbolic links.
    Loop,
    /// Too many links.
    TooManyLinks,
    /// Message too large.
    MessageSize,
    /// Filename too long.
    NameTooLong,
    /// No such device.
    NoDevice,
    /// No such file or directory.
    NoEntry,
    /// No locks available.
    NoLock,
    /// Not enough space.
    InsufficientMemory,
    /// No space left on device.
    InsufficientSpace,
    /// Not a directory or a symbolic link to a directory.
    NotDirectory,
    /// Directory not empty.
    NotEmpty,
    /// State not recoverable.
    NotRecoverable,
    /// Not supported.
    Unsupported,
    /// Inappropriate I/O control operation.
    NoTty,
    /// No such device or address.
    NoSuchDevice,
    /// Value too large to be stored in data type.
    Overflow,
    /// Operation not permitted.
    NotPermitted,
    /// Broken pipe.
    Pipe,
    /// Read-only file system.
    ReadOnly,
    /// Invalid seek.
    InvalidSeek,
    /// Text file busy.
    TextFileBusy,
    /// Cross-device link.
    CrossDevice,
}

/// The host's descriptor types.
#[derive(Debug, Clone, Copy, PartialEq, Eq, Structural)]
pub enum DescriptorType {
    /// The type is unknown or none of the others.
    Unknown,
    BlockDevice,
    CharacterDevice,
    Directory,
    Fifo,
    SymbolicLink,
    RegularFile,
    Socket,
}

/// The host's network error reasons.
#[derive(Debug, Clone, Copy, PartialEq, Eq, Structural)]
pub enum NetworkError {
    /// An unspecified failure.
    Unknown,
    /// The operation should be retried.
    Again,
}

impl ErrorCode {
    /// The legacy error number of each filesystem error code.
    pub open spec fn legacy_errno(self) -> Errno {
        match self {
            ErrorCode::Access => ERRNO_ACCES,
            ErrorCode::WouldBlock => ERRNO_AGAIN,
            ErrorCode::Already => ERRNO_ALREADY,
            ErrorCode::BadDescriptor => ERRNO_BADF,
            ErrorCode::Busy => ERRNO_BUSY,
            ErrorCode::Deadlock => ERRNO_DEADLK,
            ErrorCode::Quota => ERRNO_DQUOT,
            ErrorCode::Exist => ERRNO_EXIST,
            ErrorCode::FileTooLarge => ERRNO_FBIG,
            ErrorCode::IllegalByteSequence => ERRNO_ILSEQ,
            ErrorCode::InProgress => ERRNO_INPROGRESS,
            ErrorCode::Interrupted => ERRNO_INTR,
            ErrorCode::Invalid => ERRNO_INVAL,
            ErrorCode::Io => ERRNO_IO,
            ErrorCode::IsDirectory => ERRNO_ISDIR,
            ErrorCode::Loop => ERRNO_LOOP,
            ErrorCode::TooManyLinks => ERRNO_MLINK,
            ErrorCode::MessageSize => ERRNO_MSGSIZE,
            ErrorCode::NameTooLong => ERRNO_NAMETOOLONG,
            ErrorCode::NoDevice => ERRNO_NODEV,
            ErrorCode::NoEntry => ERRNO_NOENT,
            ErrorCode::NoLock => ERRNO_NOLCK,
            ErrorCode::InsufficientMemory => ERRNO_NOMEM,
            ErrorCode::InsufficientSpace => ERRNO_NOSPC,
            ErrorCode::NotDirectory => ERRNO_NOTDIR,
            ErrorCode::NotEmpty => ERRNO_NOTEMPTY,
            ErrorCode::NotRecoverable => ERRNO_NOTRECOVERABLE,
            ErrorCode::Unsupported => ERRNO_NOTSUP,
            ErrorCode::NoTty => ERRNO_NOTTY,
            ErrorCode::NoSuchDevice => ERRNO_NXIO,
            ErrorCode::Overflow => ERRNO_OVERFLOW,
            ErrorCode::NotPermitted => ERRNO_PERM,
            ErrorCode::Pipe => ERRNO_PIPE,
            ErrorCode::ReadOnly => ERRNO_ROFS,
            ErrorCode::InvalidSeek => ERRNO_SPIPE,
            ErrorCode::TextFileBusy => ERRNO_TXTBSY,
            ErrorCode::CrossDevice => ERRNO_XDEV,
        }
    }

    /// The legacy error number of this filesystem error.
    pub fn errno(self) -> (r: Errno)
        ensures
            r == self.legacy_errno(),
    {
        match self {
            ErrorCode::Access => ERRNO_ACCES,
            ErrorCode::WouldBlock => ERRNO_AGAIN,
            ErrorCode::Already => ERRNO_ALREADY,
            ErrorCode::BadDescriptor => ERRNO_BADF,
            ErrorCode::Busy => ERRNO_BUSY,
            ErrorCode::Deadlock => ERRNO_DEADLK,
            ErrorCode::Quota => ERRNO_DQUOT,
            ErrorCode::Exist => ERRNO_EXIST,
            ErrorCode::FileTooLarge => ERRNO_FBIG,
            ErrorCode::IllegalByteSequence => ERRNO_ILSEQ,
            ErrorCode::InProgress => ERRNO_INPROGRESS,
            ErrorCode::Interrupted => ERRNO_INTR,
            ErrorCode::Invalid => ERRNO_INVAL,
            ErrorCode::Io => ERRNO_IO,
            ErrorCode::IsDirectory => ERRNO_ISDIR,
            ErrorCode::Loop => ERRNO_LOOP,
            ErrorCode::TooManyLinks => ERRNO_MLINK,
            ErrorCode::MessageSize => ERRNO_MSGSIZE,
            ErrorCode::NameTooLong => ERRNO_NAMETOOLONG,
            ErrorCode::NoDevice => ERRNO_NODEV,
            ErrorCode::NoEntry => ERRNO_NOENT,
            ErrorCode::NoLock => ERRNO_NOLCK,
            ErrorCode::InsufficientMemory => ERRNO_NOMEM,
            ErrorCode::InsufficientSpace => ERRNO_NOSPC,
            ErrorCode::NotDirectory => ERRNO_NOTDIR,
            ErrorCode::NotEmpty => ERRNO_NOTEMPTY,
            ErrorCode::NotRecoverable => ERRNO_NOTRECOVERABLE,
            ErrorCode::Unsupported => ERRNO_NOTSUP,
            ErrorCode::NoTty => ERRNO_NOTTY,
            ErrorCode::NoSuchDevice => ERRNO_NXIO,
            ErrorCode::Overflow => ERRNO_OVERFLOW,
            ErrorCode::NotPermitted => ERRNO_PERM,
            ErrorCode::Pipe => ERRNO_PIPE,
            ErrorCode::ReadOnly => ERRNO_ROFS,
            ErrorCode::InvalidSeek => ERRNO_SPIPE,
            ErrorCode::TextFileBusy => ERRNO_TXTBSY,
            ErrorCode::CrossDevice => ERRNO_XDEV,
        }
    }
}

impl DescriptorType {
    /// Whether the legacy model has a code for this type: it cannot tell
    /// stream sockets from datagram sockets, so sockets have none.
    pub open spec fn has_filetype(self) -> bool {
        !(self is Socket)
    }

    /// The legacy file type of each descriptor type that has one; a FIFO,
    /// unknown to the legacy model, is reported as unknown.
    pub open spec fn legacy_filetype(self) -> Filetype {
        match self {
            DescriptorType::RegularFile => FILETYPE_REGULAR_FILE,
            DescriptorType::Directory => FILETYPE_DIRECTORY,
            DescriptorType::BlockDevice => FILETYPE_BLOCK_DEVICE,
            DescriptorType::CharacterDevice => FILETYPE_CHARACTER_DEVICE,
            DescriptorType::Fifo => FILETYPE_UNKNOWN,
            DescriptorType::SymbolicLink => FILETYPE_SYMBOLIC_LINK,
            DescriptorType::Unknown => FILETYPE_UNKNOWN,
            DescriptorType::Socket => FILETYPE_UNKNOWN,
        }
    }

    /// The legacy file type of this descriptor type.
    pub fn filetype(self) -> (r: Filetype)
        requires
            self.has_filetype(),
        ensures
            r == self.legacy_filetype(),
    {
        match self {
            DescriptorType::RegularFile => FILETYPE_REGULAR_FILE,
            DescriptorType::Directory => FILETYPE_DIRECTORY,
            DescriptorType::BlockDevice => FILETYPE_BLOCK_DEVICE,
            DescriptorType::CharacterDevice => FILETYPE_CHARACTER_DEVICE,
            DescriptorType::Fifo => FILETYPE_UNKNOWN,
            DescriptorType::SymbolicLink => FILETYPE_SYMBOLIC_LINK,
            DescriptorType::Unknown => FILETYPE_UNKNOWN,
            DescriptorType::Socket => vstd::pervasive::unreached(),
        }
    }
}

impl NetworkError {
    /// Whether the reason has a legacy code; an unspecified failure has
    /// none.
    pub open spec fn has_errno(self) -> bool {
        !(self is Unknown)
    }

    /// The legacy error number of this network error.
    pub fn errno(self) -> (r: Errno)
        requires
            self.has_errno(),
        ensures
            self is Again ==> r == ERRNO_AGAIN,
    {
        match self {
            NetworkError::Again => ERRNO_AGAIN,
            NetworkError::Unknown => vstd::pervasive::unreached(),
        }
    }
}

impl BadFd {
    pub fn errno(self) -> (r: Errno)
        ensures
            r == ERRNO_BADF,
    {
        ERRNO_BADF
    }
}

impl NotReadable {
    /// An unreadable descriptor is reported as a bad descriptor.
    pub fn errno(self) -> (r: Errno)
        ensures
            r == ERRNO_BADF,
    {
        ERRNO_BADF
    }
}

impl NotWriteable {
    /// An unwriteable descriptor is reported as a bad descriptor.
    pub fn errno(self) -> (r: Errno)
        ensures
            r == ERRNO_BADF,
    {
        ERRNO_BADF
    }
}

impl OutOfMemory {
    pub fn errno(self) -> (r: Errno)
        ensures
            r == ERRNO_NOMEM,
    {
        ERRNO_NOMEM
    }
}

/// The filesystem mapping is one-to-one and never reports success: distinct
/// error codes get distinct error numbers, none of them zero.
pub proof fn lemma_filesystem_errno_one_to_one(a: ErrorCode, b: ErrorCode)
    ensures
        a.legacy_errno() != ERRNO_SUCCESS,
        a.legacy_errno() == b.legacy_errno() ==> a == b,
{
}

} // verus!
