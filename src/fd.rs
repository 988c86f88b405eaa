//! Descriptor table entries and the lazily acquired streams they hold.

use vstd::prelude::*;
use crate::error::{NotReadable, NotWriteable};
use crate::handles::{Descriptor, Filesize, InputStream, OutputStream, RawFd, TcpSocket};

verus! {

/// One slot of the descriptor table.
#[derive(Debug, Clone, Copy, PartialEq, Eq, Structural)]
pub enum FdEntry {
    /// A closed slot, linking to the slot closed before it.
    Closed(Option<RawFd>),
    /// Input and/or output streams, with what they stream from.
    Streams(Streams),
    /// Writes go to the host's standard-error sink; no handle is needed.
    Stderr,
}

/// Cached stream handles and the source they are acquired from.
#[derive(Debug, Clone, Copy, PartialEq, Eq, Structural)]
pub struct Streams {
    /// The input stream, once acquired.
    pub input: Option<InputStream>,
    /// The output stream, once acquired.
    pub output: Option<OutputStream>,
    /// What the streams read from or write to.
    pub type_: StreamType,
}

/// The source of a stream.
#[derive(Debug, Clone, Copy, PartialEq, Eq, Structural)]
pub enum StreamType {
    /// A valid stream of unknown origin.
    Unknown,
    /// A standard-input source with no bytes.
    EmptyStdin,
    /// A file.
    File(File),
    /// A socket connection (streams over sockets are not supported yet).
    Socket(TcpSocket),
}

/// An open file.
#[derive(Debug, Clone, Copy, PartialEq, Eq, Structural)]
pub struct File {
    /// The host descriptor the file refers to.
    pub fd: Descriptor,
    /// The current position.
    pub position: Filesize,
    /// In append mode every write goes to the end of the file.
    pub append: bool,
}

/// Which host call acquires a missing output stream.
#[derive(Debug, Clone, Copy, PartialEq, Eq, Structural)]
pub enum WriteRequest {
    /// An appending stream on the descriptor.
    Append(Descriptor),
    /// A stream positioned at the given offset of the descriptor.
    At(Descriptor, Filesize),
}

/// A host handle that must be released when its table slot is closed.
#[derive(Debug, Clone, Copy, PartialEq, Eq, Structural)]
pub enum Release {
    InputStream(InputStream),
    OutputStream(OutputStream),
    Descriptor(Descriptor),
}

impl Streams {
    /// The descriptor and offset a read stream must be opened at, when one
    /// has to be acquired: only a file source without a cached input stream.
    pub open spec fn read_request(self) -> Option<(Descriptor, Filesize)> {
        match self.type_ {
            StreamType::File(f) => if self.input is None {
                Some((f.fd, f.position))
            } else {
                None
            },
            _ => None,
        }
    }

    /// What a read request answers without acquiring anything.
    pub open spec fn cached_read(self) -> Result<InputStream, NotReadable> {
        match self.input {
            Some(h) => Ok(h),
            None => Err(NotReadable),
        }
    }

    /// The host call that acquires a missing output stream, if one is due:
    /// only a file source without a cached output stream. A file in append
    /// mode asks for an appending stream, any other for one at its position.
    pub open spec fn write_request(self) -> Option<WriteRequest> {
        match self.type_ {
            StreamType::File(f) => if self.output is None {
                if f.append {
                    Some(WriteRequest::Append(f.fd))
                } else {
                    Some(WriteRequest::At(f.fd, f.position))
                }
            } else {
                None
            },
            _ => None,
        }
    }

    /// What a write request answers without acquiring anything.
    pub open spec fn cached_write(self) -> Result<OutputStream, NotWriteable> {
        match self.output {
            Some(h) => Ok(h),
            None => Err(NotWriteable),
        }
    }

    /// Returns the input stream, acquiring it through `read_via_stream` at
    /// the file's position on first use and caching it.
    pub fn get_read_stream<F: FnOnce(Descriptor, Filesize) -> InputStream>(
        &mut self,
        read_via_stream: F,
    ) -> (r: Result<InputStream, NotReadable>)
        requires
            old(self).read_request() is Some ==> call_requires(
                read_via_stream,
                old(self).read_request()->Some_0,
            ),
        ensures
            match old(self).read_request() {
                Some(args) => {
                    &&& r is Ok
                    &&& call_ensures(read_via_stream, args, r->Ok_0)
                    &&& *final(self) == (Streams { input: Some(r->Ok_0), ..*old(self) })
                },
                None => r == old(self).cached_read() && *final(self) == *old(self),
            },
    {
        match self.input {
            Some(stream) => Ok(stream),
            None => match self.type_ {
                StreamType::File(file) => {
                    let input = read_via_stream(file.fd, file.position);
                    self.input = Some(input);
                    Ok(input)
                },
                _ => Err(NotReadable),
            },
        }
    }

    /// Returns the output stream, acquiring it on first use and caching it:
    /// through `append_via_stream` for a file in append mode, otherwise
    /// through `write_via_stream` at the file's position.
    pub fn get_write_stream<A, W>(
        &mut self,
        append_via_stream: A,
        write_via_stream: W,
    ) -> (r: Result<OutputStream, NotWriteable>) where
        A: FnOnce(Descriptor) -> OutputStream,
        W: FnOnce(Descriptor, Filesize) -> OutputStream,

        requires
            match old(self).write_request() {
                Some(WriteRequest::Append(d)) => call_requires(append_via_stream, (d,)),
                Some(WriteRequest::At(d, p)) => call_requires(write_via_stream, (d, p)),
                None => true,
            },
        ensures
            match old(self).write_request() {
                Some(req) => {
                    &&& r is Ok
                    &&& match req {
                        WriteRequest::Append(d) => call_ensures(append_via_stream, (d,), r->Ok_0),
                        WriteRequest::At(d, p) => call_ensures(write_via_stream, (d, p), r->Ok_0),
                    }
                    &&& *final(self) == (Streams { output: Some(r->Ok_0), ..*old(self) })
                },
                None => r == old(self).cached_write() && *final(self) == *old(self),
            },
    {
        match self.output {
            Some(stream) => Ok(stream),
            None => match self.type_ {
                StreamType::File(file) => {
                    let output = if file.append {
                        append_via_stream(file.fd)
                    } else {
                        write_via_stream(file.fd, file.position)
                    };
                    self.output = Some(output);
                    Ok(output)
                },
                _ => Err(NotWriteable),
            },
        }
    }
}

impl FdEntry {
    /// Whether the entry streams over a socket, whose release is not
    /// supported.
    pub open spec fn is_socket(self) -> bool {
        match self {
            FdEntry::Streams(s) => s.type_ is Socket,
            _ => false,
        }
    }

    /// The host handles the entry owns, in the order they are released:
    /// the cached input stream, the cached output stream, then a file's
    /// descriptor.
    pub open spec fn owned_handles(self) -> Seq<Release> {
        match self {
            FdEntry::Streams(s) => {
                let i = match s.input {
                    Some(h) => seq![Release::InputStream(h)],
                    None => Seq::empty(),
                };
                let o = match s.output {
                    Some(h) => seq![Release::OutputStream(h)],
                    None => Seq::empty(),
                };
                let d = match s.type_ {
                    StreamType::File(f) => seq![Release::Descriptor(f.fd)],
                    _ => Seq::empty(),
                };
                i + o + d
            },
            _ => Seq::empty(),
        }
    }

    /// Lists the host handles to release when this entry leaves the table.
    pub fn releases(&self) -> (r: Vec<Release>)
        requires
            !self.is_socket(),
        ensures
            r@ == self.owned_handles(),
    {
        let mut r: Vec<Release> = Vec::new();
        match self {
            FdEntry::Streams(stream) => {
                if let Some(input) = stream.input {
                    r.push(Release::InputStream(input));
                }
                if let Some(output) = stream.output {
                    r.push(Release::OutputStream(output));
                }
                match stream.type_ {
                    StreamType::File(file) => r.push(Release::Descriptor(file.fd)),
                    _ => {},
                }
                proof {
                    assert(r@ =~= self.owned_handles());
                }
            },
            FdEntry::Stderr => {},
            FdEntry::Closed(_) => {},
        }
        r
    }
}

/// A read stream is acquired at most once while a slot is open: once the
/// first request has cached `h`, a later request acquires nothing and
/// answers `h`.
pub proof fn lemma_read_stream_acquired_once(s: Streams, h: InputStream)
    requires
        s.read_request() is Some,
    ensures
        (Streams { input: Some(h), ..s }).read_request() is None,
        (Streams { input: Some(h), ..s }).cached_read() == Ok::<InputStream, NotReadable>(h),
{
}

/// A write stream is acquired at most once while a slot is open: once the
/// first request has cached `h`, a later request acquires nothing and
/// answers `h`.
pub proof fn lemma_write_stream_acquired_once(s: Streams, h: OutputStream)
    requires
        s.write_request() is Some,
    ensures
        (Streams { output: Some(h), ..s }).write_request() is None,
        (Streams { output: Some(h), ..s }).cached_write() == Ok::<OutputStream, NotWriteable>(h),
{
}

/// A file in append mode without an output stream asks for an appending
/// stream on its descriptor, never for one at a position.
pub proof fn lemma_append_mode_requests_append(s: Streams)
    requires
        s.output is None,
        s.type_ is File,
        (s.type_->File_0).append,
    ensures
        s.write_request() == Some(WriteRequest::Append((s.type_->File_0).fd)),
        !(s.write_request()->Some_0 is At),
{
}

} // verus!
