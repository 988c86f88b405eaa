//! The descriptor table: slots indexed by `RawFd`, with closed slots threaded
//! onto a LIFO free list for reuse.

use vstd::prelude::*;
use crate::error::{BadFd, BadFileFd, BadSocketFd, BadStreamFd, OutOfMemory};
use crate::fd::{FdEntry, File, StreamType, Streams, WriteRequest};
use crate::handles::{Descriptor, Filesize, InputStream, OutputStream, RawFd, TcpSocket};

verus! {

/// The abstract state of a table: its slots, the free list from its head,
/// and the most slots it may hold.
pub ghost struct FdTableView {
    pub slots: Seq<FdEntry>,
    pub free: Seq<RawFd>,
    pub capacity: nat,
}

impl FdTableView {
    /// The most recently closed slot, if any.
    pub open spec fn head(self) -> Option<RawFd> {
        if self.free.len() > 0 {
            Some(self.free[0])
        } else {
            None
        }
    }

    /// The free-list link stored in the `i`-th free slot.
    pub open spec fn link(self, i: int) -> Option<RawFd> {
        if i + 1 < self.free.len() {
            Some(self.free[i + 1])
        } else {
            None
        }
    }

    /// The table's invariant: the free list visits distinct in-range slots,
    /// each a `Closed` slot linking to the next, and every `Closed` slot is
    /// on it. So each slot is either free or active, never both.
    pub open spec fn wf(self) -> bool {
        &&& self.slots.len() <= self.capacity <= u32::MAX
        &&& forall|i: int, j: int|
            0 <= i < j < self.free.len() ==> self.free[i] != self.free[j]
        &&& forall|i: int|
            0 <= i < self.free.len() ==> {
                &&& (self.free[i] as int) < self.slots.len()
                &&& self.slots[self.free[i] as int] == FdEntry::Closed(self.link(i))
            }
        &&& forall|j: int|
            0 <= j < self.slots.len() && (#[trigger] self.slots[j]) is Closed
                ==> self.free.contains(j as RawFd)
    }

    /// `fd` names a slot that holds an entry.
    pub open spec fn is_active(self, fd: RawFd) -> bool {
        &&& (fd as int) < self.slots.len()
        &&& !(self.slots[fd as int] is Closed)
    }

    /// A new slot fits under the capacity.
    pub open spec fn can_push(self) -> bool {
        self.slots.len() < self.capacity
    }

    /// The state after `entry` is appended in a new slot.
    pub open spec fn pushed(self, entry: FdEntry) -> FdTableView {
        FdTableView { slots: self.slots.push(entry), ..self }
    }

    /// An insertion succeeds: a slot is free, or a new one fits.
    pub open spec fn can_insert(self) -> bool {
        self.free.len() > 0 || self.can_push()
    }

    /// The index the next insertion takes: the most recently closed slot,
    /// else the first never-used one.
    pub open spec fn next_fd(self) -> RawFd {
        match self.head() {
            Some(fd) => fd,
            None => self.slots.len() as RawFd,
        }
    }

    /// The state after `entry` is inserted at `next_fd()`: a free slot is
    /// taken off the head of the free list, otherwise a slot is appended.
    pub open spec fn inserted(self, entry: FdEntry) -> FdTableView {
        if self.free.len() > 0 {
            FdTableView {
                slots: self.slots.update(self.free[0] as int, entry),
                free: self.free.drop_first(),
                capacity: self.capacity,
            }
        } else {
            self.pushed(entry)
        }
    }

    /// The state after the three standard slots are inserted, as far as
    /// they fit: an unclassified stream for standard input, then two
    /// standard-error sinks standing in for standard output and error.
    pub open spec fn initialized(self) -> FdTableView {
        let v1 = self.inserted(default_stdin());
        let v2 = v1.inserted(FdEntry::Stderr);
        if !self.can_insert() {
            self
        } else if !v1.can_insert() {
            v1
        } else if !v2.can_insert() {
            v2
        } else {
            v2.inserted(FdEntry::Stderr)
        }
    }

    /// All three standard slots fit.
    pub open spec fn can_initialize(self) -> bool {
        let v1 = self.inserted(default_stdin());
        self.can_insert() && v1.can_insert() && v1.inserted(FdEntry::Stderr).can_insert()
    }

    /// The state after `fd` is closed: its slot links to the previous head
    /// and becomes the new head of the free list.
    pub open spec fn closed_at(self, fd: RawFd) -> FdTableView {
        FdTableView {
            slots: self.slots.update(fd as int, FdEntry::Closed(self.head())),
            free: seq![fd] + self.free,
            capacity: self.capacity,
        }
    }

    /// The state with the slot at `fd` replaced by `entry`.
    pub open spec fn with_slot(self, fd: RawFd, entry: FdEntry) -> FdTableView {
        FdTableView { slots: self.slots.update(fd as int, entry), ..self }
    }

    /// The streams at `fd`, or why there are none.
    pub open spec fn streams_at(self, fd: RawFd) -> Result<Streams, BadStreamFd> {
        if !self.is_active(fd) {
            Err(BadStreamFd::BadFd)
        } else {
            match self.slots[fd as int] {
                FdEntry::Streams(s) => Ok(s),
                _ => Err(BadStreamFd::NotStream),
            }
        }
    }

    /// What a read request on `fd` answers when it acquires nothing.
    pub open spec fn cached_read_at(self, fd: RawFd) -> Result<InputStream, BadStreamFd> {
        match self.streams_at(fd) {
            Ok(s) => match s.input {
                Some(h) => Ok(h),
                None => Err(BadStreamFd::BadFd),
            },
            Err(e) => Err(e),
        }
    }

    /// What a write request on `fd` answers when it acquires nothing.
    pub open spec fn cached_write_at(self, fd: RawFd) -> Result<OutputStream, BadStreamFd> {
        match self.streams_at(fd) {
            Ok(s) => match s.output {
                Some(h) => Ok(h),
                None => Err(BadStreamFd::BadFd),
            },
            Err(e) => Err(e),
        }
    }

    /// The file at `fd`, or why there is none.
    pub open spec fn file_at(self, fd: RawFd) -> Result<File, BadFileFd> {
        if !self.is_active(fd) {
            Err(BadFileFd::BadFd)
        } else {
            match self.slots[fd as int] {
                FdEntry::Streams(s) => match s.type_ {
                    StreamType::File(f) => Ok(f),
                    _ => Err(BadFileFd::NotFile),
                },
                _ => Err(BadFileFd::NotFile),
            }
        }
    }

    /// The socket at `fd`, or why there is none.
    pub open spec fn socket_at(self, fd: RawFd) -> Result<TcpSocket, BadSocketFd> {
        if !self.is_active(fd) {
            Err(BadSocketFd::BadFd)
        } else {
            match self.slots[fd as int] {
                FdEntry::Streams(s) => match s.type_ {
                    StreamType::Socket(h) => Ok(h),
                    _ => Err(BadSocketFd::NotSocket),
                },
                _ => Err(BadSocketFd::NotSocket),
            }
        }
    }
}

/// Appending an active entry keeps the table well formed.
pub proof fn lemma_push_keeps_invariant(v: FdTableView, entry: FdEntry)
    requires
        v.wf(),
        !(entry is Closed),
        v.can_push(),
    ensures
        v.pushed(entry).wf(),
{
    let w = v.pushed(entry);
    assert forall|j: int|
        0 <= j < w.slots.len() && (#[trigger] w.slots[j]) is Closed implies w.free.contains(
        j as RawFd,
    ) by {
        assert(v.slots[j] is Closed);
    }
    assert forall|i: int| 0 <= i < w.free.len() implies {
        &&& (w.free[i] as int) < w.slots.len()
        &&& w.slots[w.free[i] as int] == FdEntry::Closed(w.link(i))
    } by {
        assert(v.slots[v.free[i] as int] == FdEntry::Closed(v.link(i)));
    }
}

/// Replacing an active slot's entry by another active entry keeps the
/// table well formed.
pub proof fn lemma_replace_active_entry(v: FdTableView, fd: RawFd, entry: FdEntry)
    requires
        v.wf(),
        v.is_active(fd),
        !(entry is Closed),
    ensures
        v.with_slot(fd, entry).wf(),
{
    let w = v.with_slot(fd, entry);
    assert forall|k: int| 0 <= k < w.free.len() implies {
        &&& (w.free[k] as int) < w.slots.len()
        &&& w.slots[w.free[k] as int] == FdEntry::Closed(w.link(k))
    } by {
        assert(v.slots[v.free[k] as int] == FdEntry::Closed(v.link(k)));
    }
    assert forall|j: int|
        0 <= j < w.slots.len() && (#[trigger] w.slots[j]) is Closed implies w.free.contains(
        j as RawFd,
    ) by {
        assert(v.slots[j] is Closed);
    }
}

/// Closing an active descriptor frees exactly its slot: the table stays
/// well formed, `fd` is no longer active, and every other descriptor keeps
/// its state and entry.
pub proof fn lemma_close_frees_slot(v: FdTableView, fd: RawFd)
    requires
        v.wf(),
        v.is_active(fd),
    ensures
        v.closed_at(fd).wf(),
        !v.closed_at(fd).is_active(fd),
        forall|other: RawFd|
            other != fd ==> {
                &&& #[trigger] v.closed_at(fd).is_active(other) == v.is_active(other)
                &&& v.is_active(other) ==> v.closed_at(fd).slots[other as int]
                    == v.slots[other as int]
            },
{
    let w = v.closed_at(fd);
    assert(!v.free.contains(fd)) by {
        if v.free.contains(fd) {
            let k = choose|k: int| 0 <= k < v.free.len() && v.free[k] == fd;
            assert(v.slots[v.free[k] as int] == FdEntry::Closed(v.link(k)));
        }
    }
    assert forall|i: int, j: int| 0 <= i < j < w.free.len() implies w.free[i] != w.free[j] by {
        if i > 0 {
            assert(w.free[i] == v.free[i - 1]);
        }
        assert(w.free[j] == v.free[j - 1]);
    }
    assert forall|k: int| 0 <= k < w.free.len() implies {
        &&& (w.free[k] as int) < w.slots.len()
        &&& w.slots[w.free[k] as int] == FdEntry::Closed(w.link(k))
    } by {
        if k > 0 {
            assert(w.free[k] == v.free[k - 1]);
            assert(v.slots[v.free[k - 1] as int] == FdEntry::Closed(v.link(k - 1)));
        }
    }
    assert forall|j: int|
        0 <= j < w.slots.len() && (#[trigger] w.slots[j]) is Closed implies w.free.contains(
        j as RawFd,
    ) by {
        if j == fd as int {
            assert(w.free[0] == fd);
        } else {
            assert(v.slots[j] is Closed);
            let k = choose|k: int| 0 <= k < v.free.len() && v.free[k] == j as RawFd;
            assert(w.free[k + 1] == j as RawFd);
        }
    }
}

/// An insertion never hands out a descriptor that is in use: the slot it
/// takes was free or new, it now holds the entry, every other descriptor
/// keeps its state and entry, and the table stays well formed. So no two
/// active entries ever share a descriptor.
pub proof fn lemma_insert_takes_unused_slot(v: FdTableView, entry: FdEntry)
    requires
        v.wf(),
        !(entry is Closed),
        v.can_insert(),
    ensures
        !v.is_active(v.next_fd()),
        v.inserted(entry).wf(),
        v.inserted(entry).is_active(v.next_fd()),
        v.inserted(entry).slots[v.next_fd() as int] == entry,
        forall|other: RawFd|
            other != v.next_fd() ==> {
                &&& #[trigger] v.inserted(entry).is_active(other) == v.is_active(other)
                &&& v.is_active(other) ==> v.inserted(entry).slots[other as int]
                    == v.slots[other as int]
            },
{
    if v.free.len() == 0 {
        lemma_push_keeps_invariant(v, entry);
    } else {
        let w = v.inserted(entry);
        assert(v.slots[v.free[0] as int] == FdEntry::Closed(v.link(0)));
        assert forall|i: int, j: int| 0 <= i < j < w.free.len() implies w.free[i]
            != w.free[j] by {
            assert(w.free[i] == v.free[i + 1]);
            assert(w.free[j] == v.free[j + 1]);
        }
        assert forall|k: int| 0 <= k < w.free.len() implies {
            &&& (w.free[k] as int) < w.slots.len()
            &&& w.slots[w.free[k] as int] == FdEntry::Closed(w.link(k))
        } by {
            assert(w.free[k] == v.free[k + 1]);
            assert(v.free[0] != v.free[k + 1]);
            assert(v.slots[v.free[k + 1] as int] == FdEntry::Closed(v.link(k + 1)));
        }
        assert forall|j: int|
            0 <= j < w.slots.len() && (#[trigger] w.slots[j]) is Closed implies w.free.contains(
            j as RawFd,
        ) by {
            assert(v.slots[j] is Closed);
            let k = choose|k: int| 0 <= k < v.free.len() && v.free[k] == j as RawFd;
            assert(k != 0);
            assert(w.free[k - 1] == j as RawFd);
        }
    }
}

/// One table operation, for stating what holds across sequences of them.
pub enum TableOp {
    Insert(FdEntry),
    Close(RawFd),
}

impl FdTableView {
    /// The state after `op`; an insertion that does not fit, or a close of a
    /// descriptor that is not active, fails and changes nothing.
    pub open spec fn step(self, op: TableOp) -> FdTableView {
        match op {
            TableOp::Insert(entry) => if self.can_insert() {
                self.inserted(entry)
            } else {
                self
            },
            TableOp::Close(fd) => if self.is_active(fd) {
                self.closed_at(fd)
            } else {
                self
            },
        }
    }

    /// The state after each of `ops` in turn.
    pub open spec fn run(self, ops: Seq<TableOp>) -> FdTableView
        decreases ops.len(),
    {
        if ops.len() == 0 {
            self
        } else {
            self.step(ops[0]).run(ops.drop_first())
        }
    }
}

/// Any sequence of insertions of active entries and closes keeps the table
/// well formed: every slot stays either free or active, never both, so no
/// two active entries ever share a descriptor.
pub proof fn lemma_any_sequence_keeps_invariant(v: FdTableView, ops: Seq<TableOp>)
    requires
        v.wf(),
        forall|i: int|
            0 <= i < ops.len() ==> !(#[trigger] ops[i] matches TableOp::Insert(e) && e is Closed),
    ensures
        v.run(ops).wf(),
    decreases ops.len(),
{
    if ops.len() > 0 {
        match ops[0] {
            TableOp::Insert(entry) => if v.can_insert() {
                lemma_insert_takes_unused_slot(v, entry);
            },
            TableOp::Close(fd) => if v.is_active(fd) {
                lemma_close_frees_slot(v, fd);
            },
        }
        let rest = ops.drop_first();
        assert forall|i: int|
            0 <= i < rest.len() implies !(#[trigger] rest[i] matches TableOp::Insert(e)
            && e is Closed) by {
            assert(rest[i] == ops[i + 1]);
        }
        lemma_any_sequence_keeps_invariant(v.step(ops[0]), rest);
    }
}

/// Reuse is last-in, first-out: right after `fd` is closed, the next
/// insertion takes `fd` back, and the free list is as it was before.
pub proof fn lemma_reuse_is_lifo(v: FdTableView, fd: RawFd, entry: FdEntry)
    requires
        v.wf(),
        v.is_active(fd),
    ensures
        v.closed_at(fd).can_insert(),
        v.closed_at(fd).next_fd() == fd,
        v.closed_at(fd).inserted(entry).free == v.free,
{
    assert(v.closed_at(fd).free.drop_first() =~= v.free);
}

/// With no slot closed, an insertion takes the first never-used index.
pub proof fn lemma_fresh_index_when_none_closed(v: FdTableView, entry: FdEntry)
    requires
        v.wf(),
        v.free.len() == 0,
    ensures
        v.next_fd() == v.slots.len(),
        forall|fd: RawFd| (fd as int) < v.slots.len() ==> #[trigger] v.is_active(fd),
        v.can_insert() ==> v.inserted(entry).slots == v.slots.push(entry),
{
    assert forall|fd: RawFd| (fd as int) < v.slots.len() implies #[trigger] v.is_active(fd) by {
        if v.slots[fd as int] is Closed {
            assert(v.free.contains(fd));
        }
    }
}

/// Through the table, a read stream is acquired at most once while a slot is
/// open: after the first request on `fd` cached `h`, the next one on `fd`
/// acquires nothing and answers `h`.
pub proof fn lemma_table_read_stream_acquired_once(
    v: FdTableView,
    fd: RawFd,
    s: Streams,
    h: InputStream,
)
    requires
        v.streams_at(fd) == Ok::<Streams, BadStreamFd>(s),
        s.read_request() is Some,
    ensures
        ({
            let w = v.with_slot(fd, FdEntry::Streams(Streams { input: Some(h), ..s }));
            &&& w.streams_at(fd) matches Ok(t) && t.read_request() is None
            &&& w.cached_read_at(fd) == Ok::<InputStream, BadStreamFd>(h)
        }),
{
}

/// Through the table, a write stream is acquired at most once while a slot
/// is open: after the first request on `fd` cached `h`, the next one on `fd`
/// acquires nothing and answers `h`.
pub proof fn lemma_table_write_stream_acquired_once(
    v: FdTableView,
    fd: RawFd,
    s: Streams,
    h: OutputStream,
)
    requires
        v.streams_at(fd) == Ok::<Streams, BadStreamFd>(s),
        s.write_request() is Some,
    ensures
        ({
            let w = v.with_slot(fd, FdEntry::Streams(Streams { output: Some(h), ..s }));
            &&& w.streams_at(fd) matches Ok(t) && t.write_request() is None
            &&& w.cached_write_at(fd) == Ok::<OutputStream, BadStreamFd>(h)
        }),
{
}

/// The entry that stands in for standard input until the environment
/// provides one.
pub open spec fn default_stdin() -> FdEntry {
    FdEntry::Streams(Streams { input: None, output: None, type_: StreamType::Unknown })
}

/// A table of descriptor entries with a bound on its number of slots.
pub struct FdTable {
    entries: Vec<FdEntry>,
    closed: Option<RawFd>,
    capacity: u32,
    free: Ghost<Seq<RawFd>>,
}

impl View for FdTable {
    type V = FdTableView;

    closed spec fn view(&self) -> FdTableView {
        FdTableView { slots: self.entries@, free: self.free@, capacity: self.capacity as nat }
    }
}

impl FdTable {
    /// The view is well formed and the stored head is the free list's.
    pub closed spec fn wf(&self) -> bool {
        &&& self@.wf()
        &&& self.closed == self@.head()
    }

    /// An empty table that may grow to `capacity` slots.
    pub fn new(capacity: u32) -> (t: FdTable)
        ensures
            t.wf(),
            t@.slots == Seq::<FdEntry>::empty(),
            t@.free == Seq::<RawFd>::empty(),
            t@.capacity == capacity,
    {
        FdTable { entries: Vec::new(), closed: None, capacity, free: Ghost(Seq::empty()) }
    }
}

/// The operations on a descriptor table: allocation with LIFO reuse of
/// closed slots, bounds-checked lookups that never trap, typed narrowing, and
/// lazy acquisition of stream handles.
pub trait FdTableAccessors: Sized {
    /// The abstract state of the table.
    spec fn table_view(&self) -> FdTableView;

    /// The table's invariant.
    spec fn well_formed(&self) -> bool;

    /// Appends `entry` in a new slot, without reusing closed ones.
    fn push(&mut self, entry: FdEntry) -> (r: Result<RawFd, OutOfMemory>)
        requires
            old(self).well_formed(),
            !(entry is Closed),
        ensures
            final(self).well_formed(),
            match r {
                Ok(fd) => {
                    &&& old(self).table_view().can_push()
                    &&& fd == old(self).table_view().slots.len()
                    &&& final(self).table_view() == old(self).table_view().pushed(entry)
                },
                Err(_) => {
                    &&& !old(self).table_view().can_push()
                    &&& final(self).table_view() == old(self).table_view()
                },
            },
    ;

    /// Closes `fd`: its slot becomes the head of the free list and the entry
    /// it held is handed back, so that its handles can be released
    /// (see `FdEntry::releases`).
    fn close(&mut self, fd: RawFd) -> (r: Result<FdEntry, BadFd>)
        requires
            old(self).well_formed(),
        ensures
            final(self).well_formed(),
            final(self).table_view() == old(self).table_view().step(TableOp::Close(fd)),
            match r {
                Ok(entry) => {
                    &&& old(self).table_view().is_active(fd)
                    &&& entry == old(self).table_view().slots[fd as int]
                    &&& final(self).table_view() == old(self).table_view().closed_at(fd)
                },
                Err(_) => {
                    &&& !old(self).table_view().is_active(fd)
                    &&& final(self).table_view() == old(self).table_view()
                },
            },
    ;

    /// Stores `entry` in the most recently closed slot, or in a new slot when
    /// none is free, and returns its index.
    fn insert(&mut self, entry: FdEntry) -> (r: Result<RawFd, OutOfMemory>)
        requires
            old(self).well_formed(),
            !(entry is Closed),
        ensures
            final(self).well_formed(),
            final(self).table_view() == old(self).table_view().step(TableOp::Insert(entry)),
            match r {
                Ok(fd) => {
                    &&& old(self).table_view().can_insert()
                    &&& fd == old(self).table_view().next_fd()
                    &&& final(self).table_view() == old(self).table_view().inserted(entry)
                },
                Err(_) => {
                    &&& !old(self).table_view().can_insert()
                    &&& final(self).table_view() == old(self).table_view()
                },
            },
    ;

    /// The entry at `fd`; fails for an index past the end or a closed slot.
    fn get(&self, fd: RawFd) -> (r: Result<&FdEntry, BadFd>)
        ensures
            match r {
                Ok(entry) => {
                    &&& self.table_view().is_active(fd)
                    &&& *entry == self.table_view().slots[fd as int]
                },
                Err(_) => !self.table_view().is_active(fd),
            },
    ;

    /// The streams at `fd`, telling a missing descriptor from one that is
    /// not a stream.
    fn get_streams(&self, fd: RawFd) -> (r: Result<&Streams, BadStreamFd>)
        ensures
            match r {
                Ok(s) => self.table_view().streams_at(fd) == Ok::<Streams, BadStreamFd>(*s),
                Err(e) => self.table_view().streams_at(fd) == Err::<Streams, BadStreamFd>(e),
            },
    ;

    /// The file at `fd`, telling a missing descriptor from one that is not
    /// a file.
    fn get_file(&self, fd: RawFd) -> (r: Result<&File, BadFileFd>)
        ensures
            match r {
                Ok(f) => self.table_view().file_at(fd) == Ok::<File, BadFileFd>(*f),
                Err(e) => self.table_view().file_at(fd) == Err::<File, BadFileFd>(e),
            },
    ;

    /// The socket at `fd`, telling a missing descriptor from one that is not
    /// a socket.
    fn get_socket(&self, fd: RawFd) -> (r: Result<TcpSocket, BadSocketFd>)
        ensures
            r == self.table_view().socket_at(fd),
    ;

    /// The input stream of `fd`, acquired through `read_via_stream` on
    /// first use for a file and cached in its slot. A source that cannot be
    /// read fails as a bad descriptor.
    fn get_read_stream<F: FnOnce(Descriptor, Filesize) -> InputStream>(
        &mut self,
        fd: RawFd,
        read_via_stream: F,
    ) -> (r: Result<InputStream, BadStreamFd>)
        requires
            old(self).well_formed(),
            match old(self).table_view().streams_at(fd) {
                Ok(s) => s.read_request() is Some ==> call_requires(
                    read_via_stream,
                    s.read_request()->Some_0,
                ),
                Err(_) => true,
            },
        ensures
            final(self).well_formed(),
            match old(self).table_view().streams_at(fd) {
                Ok(s) if s.read_request() is Some => {
                    &&& r is Ok
                    &&& call_ensures(read_via_stream, s.read_request()->Some_0, r->Ok_0)
                    &&& final(self).table_view() == old(self).table_view().with_slot(
                        fd,
                        FdEntry::Streams(Streams { input: Some(r->Ok_0), ..s }),
                    )
                },
                _ => {
                    &&& r == old(self).table_view().cached_read_at(fd)
                    &&& final(self).table_view() == old(self).table_view()
                },
            },
    ;

    /// The output stream of `fd`, acquired on first use for a file (an
    /// appending stream in append mode, else one at the file's position) and
    /// cached in its slot. A source that cannot be written fails as a bad
    /// descriptor.
    fn get_write_stream<A, W>(
        &mut self,
        fd: RawFd,
        append_via_stream: A,
        write_via_stream: W,
    ) -> (r: Result<OutputStream, BadStreamFd>) where
        A: FnOnce(Descriptor) -> OutputStream,
        W: FnOnce(Descriptor, Filesize) -> OutputStream,

        requires
            old(self).well_formed(),
            match old(self).table_view().streams_at(fd) {
                Ok(s) => match s.write_request() {
                    Some(WriteRequest::Append(d)) => call_requires(append_via_stream, (d,)),
                    Some(WriteRequest::At(d, p)) => call_requires(write_via_stream, (d, p)),
                    None => true,
                },
                Err(_) => true,
            },
        ensures
            final(self).well_formed(),
            match old(self).table_view().streams_at(fd) {
                Ok(s) if s.write_request() is Some => {
                    &&& r is Ok
                    &&& match s.write_request()->Some_0 {
                        WriteRequest::Append(d) => call_ensures(append_via_stream, (d,), r->Ok_0),
                        WriteRequest::At(d, p) => call_ensures(write_via_stream, (d, p), r->Ok_0),
                    }
                    &&& final(self).table_view() == old(self).table_view().with_slot(
                        fd,
                        FdEntry::Streams(Streams { output: Some(r->Ok_0), ..s }),
                    )
                },
                _ => {
                    &&& r == old(self).table_view().cached_write_at(fd)
                    &&& final(self).table_view() == old(self).table_view()
                },
            },
    ;

    /// Fills the standard slots: an unclassified stream for standard input
    /// and the standard-error sink for standard output and error. On a fresh
    /// table these are slots 0, 1 and 2.
    fn init(&mut self) -> (r: Result<(), OutOfMemory>)
        requires
            old(self).well_formed(),
        ensures
            final(self).well_formed(),
            r is Ok <==> old(self).table_view().can_initialize(),
            final(self).table_view() == old(self).table_view().initialized(),
    ;
}

impl FdTableAccessors for FdTable {
    open spec fn table_view(&self) -> FdTableView {
        self@
    }

    open spec fn well_formed(&self) -> bool {
        self.wf()
    }

    fn push(&mut self, entry: FdEntry) -> (r: Result<RawFd, OutOfMemory>) {
        if self.entries.len() >= self.capacity as usize {
            return Err(OutOfMemory);
        }
        let fd = self.entries.len() as RawFd;
        self.entries.push(entry);
        proof {
            lemma_push_keeps_invariant(old(self)@, entry);
        }
        Ok(fd)
    }

    fn close(&mut self, fd: RawFd) -> (r: Result<FdEntry, BadFd>) {
        let i = fd as usize;
        if i >= self.entries.len() {
            return Err(BadFd);
        }
        if let FdEntry::Closed(_) = self.entries[i] {
            return Err(BadFd);
        }
        let mut entry = FdEntry::Closed(self.closed);
        std::mem::swap(&mut self.entries[i], &mut entry);
        self.closed = Some(fd);
        self.free = Ghost(seq![fd] + self.free@);
        proof {
            lemma_close_frees_slot(old(self)@, fd);
            assert(self@.slots =~= old(self)@.closed_at(fd).slots);
        }
        Ok(entry)
    }

    fn insert(&mut self, entry: FdEntry) -> (r: Result<RawFd, OutOfMemory>) {
        match self.closed {
            None => self.push(entry),
            Some(recycle_fd) => {
                proof {
                    let o = self@;
                    assert(o.slots[o.free[0] as int] == FdEntry::Closed(o.link(0)));
                }
                let mut recycled = entry;
                std::mem::swap(&mut self.entries[recycle_fd as usize], &mut recycled);
                let next_closed = match recycled {
                    FdEntry::Closed(next) => next,
                    _ => vstd::pervasive::unreached(),
                };
                self.closed = next_closed;
                self.free = Ghost(self.free@.drop_first());
                proof {
                    lemma_insert_takes_unused_slot(old(self)@, entry);
                    assert(self@.slots =~= old(self)@.inserted(entry).slots);
                }
                Ok(recycle_fd)
            },
        }
    }

    fn get(&self, fd: RawFd) -> (r: Result<&FdEntry, BadFd>) {
        let i = fd as usize;
        if i >= self.entries.len() {
            return Err(BadFd);
        }
        let entry = &self.entries[i];
        match entry {
            FdEntry::Closed(_) => Err(BadFd),
            _ => Ok(entry),
        }
    }

    fn get_streams(&self, fd: RawFd) -> (r: Result<&Streams, BadStreamFd>) {
        match self.get(fd) {
            Err(_) => Err(BadStreamFd::BadFd),
            Ok(FdEntry::Streams(streams)) => Ok(streams),
            Ok(_) => Err(BadStreamFd::NotStream),
        }
    }

    fn get_file(&self, fd: RawFd) -> (r: Result<&File, BadFileFd>) {
        match self.get(fd) {
            Err(_) => Err(BadFileFd::BadFd),
            Ok(FdEntry::Streams(Streams { type_: StreamType::File(file), .. })) => Ok(file),
            Ok(_) => Err(BadFileFd::NotFile),
        }
    }

    fn get_socket(&self, fd: RawFd) -> (r: Result<TcpSocket, BadSocketFd>) {
        match self.get(fd) {
            Err(_) => Err(BadSocketFd::BadFd),
            Ok(FdEntry::Streams(Streams { type_: StreamType::Socket(socket), .. })) => Ok(*socket),
            Ok(_) => Err(BadSocketFd::NotSocket),
        }
    }

    fn get_read_stream<F: FnOnce(Descriptor, Filesize) -> InputStream>(
        &mut self,
        fd: RawFd,
        read_via_stream: F,
    ) -> (r: Result<InputStream, BadStreamFd>) {
        let i = fd as usize;
        if i >= self.entries.len() {
            return Err(BadStreamFd::BadFd);
        }
        match self.entries[i] {
            FdEntry::Streams(mut streams) => {
                let r = streams.get_read_stream(read_via_stream);
                self.entries[i] = FdEntry::Streams(streams);
                proof {
                    assert(self.entries@ =~= old(self).entries@.update(
                        i as int,
                        FdEntry::Streams(streams),
                    ));
                    if old(self).entries@[i as int] == FdEntry::Streams(streams) {
                        assert(self.entries@ =~= old(self).entries@);
                    }
                    lemma_replace_active_entry(old(self)@, fd, FdEntry::Streams(streams));
                }
                match r {
                    Ok(stream) => Ok(stream),
                    Err(e) => Err(BadStreamFd::from(e)),
                }
            },
            FdEntry::Closed(_) => Err(BadStreamFd::BadFd),
            FdEntry::Stderr => Err(BadStreamFd::NotStream),
        }
    }

    fn get_write_stream<A, W>(
        &mut self,
        fd: RawFd,
        append_via_stream: A,
        write_via_stream: W,
    ) -> (r: Result<OutputStream, BadStreamFd>) where
        A: FnOnce(Descriptor) -> OutputStream,
        W: FnOnce(Descriptor, Filesize) -> OutputStream,
    {
        let i = fd as usize;
        if i >= self.entries.len() {
            return Err(BadStreamFd::BadFd);
        }
        match self.entries[i] {
            FdEntry::Streams(mut streams) => {
                let r = streams.get_write_stream(append_via_stream, write_via_stream);
                self.entries[i] = FdEntry::Streams(streams);
                proof {
                    assert(self.entries@ =~= old(self).entries@.update(
                        i as int,
                        FdEntry::Streams(streams),
                    ));
                    if old(self).entries@[i as int] == FdEntry::Streams(streams) {
                        assert(self.entries@ =~= old(self).entries@);
                    }
                    lemma_replace_active_entry(old(self)@, fd, FdEntry::Streams(streams));
                }
                match r {
                    Ok(stream) => Ok(stream),
                    Err(e) => Err(BadStreamFd::from(e)),
                }
            },
            FdEntry::Closed(_) => Err(BadStreamFd::BadFd),
            FdEntry::Stderr => Err(BadStreamFd::NotStream),
        }
    }

    fn init(&mut self) -> (r: Result<(), OutOfMemory>) {
        let stdin = FdEntry::Streams(
            Streams { input: None, output: None, type_: StreamType::Unknown },
        );
        self.insert(stdin)?;
        self.insert(FdEntry::Stderr)?;
        self.insert(FdEntry::Stderr)?;
        Ok(())
    }
}

} // verus!
