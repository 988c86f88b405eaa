use legacy_fd::error::{BadFd, BadFileFd, BadSocketFd, BadStreamFd, OutOfMemory};
use legacy_fd::fd::{FdEntry, File, Release, StreamType, Streams};
use legacy_fd::table::{FdTable, FdTableAccessors};

fn streams(type_: StreamType) -> FdEntry {
    FdEntry::Streams(Streams { input: None, output: None, type_ })
}

fn file(fd: u32, position: u64, append: bool) -> FdEntry {
    streams(StreamType::File(File { fd, position, append }))
}

fn initialized() -> FdTable {
    let mut t = FdTable::new(128);
    assert_eq!(t.init(), Ok(()));
    t
}

#[test]
fn init_fills_standard_slots() {
    let t = initialized();
    assert_eq!(t.get(0), Ok(&streams(StreamType::Unknown)));
    assert_eq!(t.get(1), Ok(&FdEntry::Stderr));
    assert_eq!(t.get(2), Ok(&FdEntry::Stderr));
    assert_eq!(t.get(3), Err(BadFd));
}

#[test]
fn close_then_insert_reuses_in_lifo_order() {
    let mut t = initialized();
    assert_eq!(t.close(1), Ok(FdEntry::Stderr));
    assert_eq!(t.insert(FdEntry::Stderr), Ok(1));
    assert!(t.close(0).is_ok());
    assert!(t.close(1).is_ok());
    assert_eq!(t.insert(file(7, 0, false)), Ok(1));
    assert_eq!(t.insert(file(8, 0, false)), Ok(0));
    assert_eq!(t.insert(FdEntry::Stderr), Ok(3));
    assert_eq!(t.get_file(1), Ok(&File { fd: 7, position: 0, append: false }));
    assert_eq!(t.get_file(0), Ok(&File { fd: 8, position: 0, append: false }));
}

#[test]
fn insert_without_closed_slots_appends() {
    let mut t = FdTable::new(10);
    assert_eq!(t.insert(FdEntry::Stderr), Ok(0));
    assert_eq!(t.insert(FdEntry::Stderr), Ok(1));
    assert_eq!(t.insert(FdEntry::Stderr), Ok(2));
}

#[test]
fn active_descriptors_stay_distinct() {
    let mut t = FdTable::new(16);
    let mut live: Vec<u32> = Vec::new();
    for round in 0..40u32 {
        if round % 3 == 2 && !live.is_empty() {
            let fd = live.remove((round as usize) % live.len());
            assert!(t.close(fd).is_ok());
        } else {
            let fd = t.insert(FdEntry::Stderr).unwrap();
            assert!(!live.contains(&fd));
            live.push(fd);
        }
    }
    for fd in &live {
        assert!(t.get(*fd).is_ok());
    }
}

#[test]
fn get_rejects_every_out_of_range_index() {
    let t = initialized();
    assert_eq!(t.get(3), Err(BadFd));
    assert_eq!(t.get(1000), Err(BadFd));
    assert_eq!(t.get(u32::MAX), Err(BadFd));
    assert_eq!(t.get(u32::MAX - 1), Err(BadFd));
}

#[test]
fn get_rejects_closed_slot() {
    let mut t = initialized();
    assert!(t.close(2).is_ok());
    assert_eq!(t.get(2), Err(BadFd));
    assert_eq!(t.close(2), Err(BadFd));
    assert_eq!(t.close(u32::MAX), Err(BadFd));
}

#[test]
fn close_hands_back_entry_and_its_handles() {
    let mut t = FdTable::new(4);
    let entry = FdEntry::Streams(Streams {
        input: Some(11),
        output: Some(12),
        type_: StreamType::File(File { fd: 13, position: 5, append: false }),
    });
    assert_eq!(t.insert(entry), Ok(0));
    let closed = t.close(0).unwrap();
    assert_eq!(closed, entry);
    assert_eq!(
        closed.releases(),
        vec![Release::InputStream(11), Release::OutputStream(12), Release::Descriptor(13)]
    );
}

#[test]
fn releases_of_entries_without_handles() {
    assert_eq!(FdEntry::Stderr.releases(), vec![]);
    assert_eq!(streams(StreamType::EmptyStdin).releases(), vec![]);
    let cached = FdEntry::Streams(Streams { input: None, output: Some(4), type_: StreamType::Unknown });
    assert_eq!(cached.releases(), vec![Release::OutputStream(4)]);
}

#[test]
fn push_fails_when_full() {
    let mut t = FdTable::new(2);
    assert_eq!(t.push(FdEntry::Stderr), Ok(0));
    assert_eq!(t.push(FdEntry::Stderr), Ok(1));
    assert_eq!(t.push(FdEntry::Stderr), Err(OutOfMemory));
}

#[test]
fn push_does_not_reuse_closed_slots() {
    let mut t = FdTable::new(4);
    assert_eq!(t.push(FdEntry::Stderr), Ok(0));
    assert!(t.close(0).is_ok());
    assert_eq!(t.push(FdEntry::Stderr), Ok(1));
    assert_eq!(t.insert(FdEntry::Stderr), Ok(0));
}

#[test]
fn insert_fails_when_full_and_nothing_closed() {
    let mut t = FdTable::new(3);
    assert_eq!(t.init(), Ok(()));
    assert_eq!(t.insert(FdEntry::Stderr), Err(OutOfMemory));
    assert!(t.close(1).is_ok());
    assert_eq!(t.insert(FdEntry::Stderr), Ok(1));
}

#[test]
fn init_fails_on_too_small_table() {
    let mut t = FdTable::new(2);
    assert_eq!(t.init(), Err(OutOfMemory));
    assert_eq!(t.get(0), Ok(&streams(StreamType::Unknown)));
    assert_eq!(t.get(1), Ok(&FdEntry::Stderr));
}

#[test]
fn typed_accessors_tell_kinds_apart() {
    let mut t = initialized();
    assert_eq!(t.insert(file(9, 0, true)), Ok(3));
    assert_eq!(t.insert(streams(StreamType::Socket(21))), Ok(4));

    assert_eq!(t.get_streams(0), Ok(&Streams { input: None, output: None, type_: StreamType::Unknown }));
    assert_eq!(t.get_streams(1), Err(BadStreamFd::NotStream));
    assert_eq!(t.get_streams(99), Err(BadStreamFd::BadFd));

    assert_eq!(t.get_file(3), Ok(&File { fd: 9, position: 0, append: true }));
    assert_eq!(t.get_file(0), Err(BadFileFd::NotFile));
    assert_eq!(t.get_file(1), Err(BadFileFd::NotFile));
    assert_eq!(t.get_file(99), Err(BadFileFd::BadFd));

    assert_eq!(t.get_socket(4), Ok(21));
    assert_eq!(t.get_socket(3), Err(BadSocketFd::NotSocket));
    assert_eq!(t.get_socket(2), Err(BadSocketFd::NotSocket));
    assert_eq!(t.get_socket(99), Err(BadSocketFd::BadFd));

    assert!(t.close(3).is_ok());
    assert_eq!(t.get_file(3), Err(BadFileFd::BadFd));
    assert_eq!(t.get_streams(3), Err(BadStreamFd::BadFd));
}
