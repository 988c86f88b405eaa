use std::cell::Cell;

use legacy_fd::error::{BadStreamFd, NotReadable, NotWriteable};
use legacy_fd::fd::{FdEntry, File, StreamType, Streams};
use legacy_fd::table::{FdTable, FdTableAccessors};

fn file_streams(fd: u32, position: u64, append: bool) -> Streams {
    Streams { input: None, output: None, type_: StreamType::File(File { fd, position, append }) }
}

#[test]
fn read_stream_is_acquired_once_and_cached() {
    let calls = Cell::new(0u32);
    let mut s = file_streams(5, 17, false);
    let first = s.get_read_stream(|fd, pos| {
        calls.set(calls.get() + 1);
        assert_eq!((fd, pos), (5, 17));
        100
    });
    let second = s.get_read_stream(|_, _| {
        calls.set(calls.get() + 1);
        200
    });
    assert_eq!(first, Ok(100));
    assert_eq!(second, Ok(100));
    assert_eq!(calls.get(), 1);
    assert_eq!(s.input, Some(100));
}

#[test]
fn append_file_requests_appending_stream() {
    let appends = Cell::new(0u32);
    let positioned = Cell::new(0u32);
    let mut s = file_streams(6, 40, true);
    let out = s.get_write_stream(
        |fd| {
            appends.set(appends.get() + 1);
            assert_eq!(fd, 6);
            300
        },
        |_, _| {
            positioned.set(positioned.get() + 1);
            301
        },
    );
    assert_eq!(out, Ok(300));
    assert_eq!((appends.get(), positioned.get()), (1, 0));
    assert_eq!(s.output, Some(300));
}

#[test]
fn plain_file_requests_stream_at_position() {
    let appends = Cell::new(0u32);
    let mut s = file_streams(6, 40, false);
    let out = s.get_write_stream(
        |_| {
            appends.set(appends.get() + 1);
            300
        },
        |fd, pos| {
            assert_eq!((fd, pos), (6, 40));
            301
        },
    );
    assert_eq!(out, Ok(301));
    assert_eq!(appends.get(), 0);
    let again = s.get_write_stream(|_| 400, |_, _| 401);
    assert_eq!(again, Ok(301));
}

#[test]
fn non_file_sources_are_not_readable_or_writeable() {
    let mut s = Streams { input: None, output: None, type_: StreamType::EmptyStdin };
    assert_eq!(s.get_read_stream(|_, _| 1), Err(NotReadable));
    assert_eq!(s.get_write_stream(|_| 1, |_, _| 1), Err(NotWriteable));
    let mut u = Streams { input: Some(7), output: Some(8), type_: StreamType::Unknown };
    assert_eq!(u.get_read_stream(|_, _| 1), Ok(7));
    assert_eq!(u.get_write_stream(|_| 1, |_, _| 1), Ok(8));
}

#[test]
fn table_read_stream_caches_in_slot() {
    let calls = Cell::new(0u32);
    let mut t = FdTable::new(8);
    assert_eq!(t.init(), Ok(()));
    assert_eq!(t.insert(FdEntry::Streams(file_streams(3, 9, false))), Ok(3));
    let acquire = |fd: u32, pos: u64| {
        calls.set(calls.get() + 1);
        assert_eq!((fd, pos), (3, 9));
        55
    };
    assert_eq!(t.get_read_stream(3, acquire), Ok(55));
    assert_eq!(t.get_read_stream(3, acquire), Ok(55));
    assert_eq!(calls.get(), 1);
    assert_eq!(t.get_streams(3).unwrap().input, Some(55));
}

#[test]
fn table_write_stream_uses_append_mode() {
    let mut t = FdTable::new(8);
    assert_eq!(t.insert(FdEntry::Streams(file_streams(4, 2, true))), Ok(0));
    assert_eq!(t.get_write_stream(0, |fd| 70 + fd, |_, _| 0), Ok(74));
    assert_eq!(t.get_write_stream(0, |_| 1, |_, _| 2), Ok(74));
}

#[test]
fn table_stream_errors() {
    let mut t = FdTable::new(8);
    assert_eq!(t.init(), Ok(()));
    assert_eq!(t.get_read_stream(0, |_, _| 1), Err(BadStreamFd::BadFd));
    assert_eq!(t.get_write_stream(0, |_| 1, |_, _| 1), Err(BadStreamFd::BadFd));
    assert_eq!(t.get_read_stream(1, |_, _| 1), Err(BadStreamFd::NotStream));
    assert_eq!(t.get_write_stream(2, |_| 1, |_, _| 1), Err(BadStreamFd::NotStream));
    assert_eq!(t.get_read_stream(u32::MAX, |_, _| 1), Err(BadStreamFd::BadFd));
    assert!(t.close(1).is_ok());
    assert_eq!(t.get_write_stream(1, |_| 1, |_, _| 1), Err(BadStreamFd::BadFd));
}
