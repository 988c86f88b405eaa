use legacy_fd::digits::decimal_digits;
use legacy_fd::error::{BadFd, BadFileFd, BadSocketFd, BadStreamFd, NotReadable, NotWriteable, OutOfMemory};
use legacy_fd::legacy::{
    DescriptorType, ErrorCode, NetworkError, ERRNO_ACCES, ERRNO_AGAIN, ERRNO_BADF, ERRNO_NOMEM,
    ERRNO_NOTSUP, ERRNO_XDEV, FILETYPE_BLOCK_DEVICE, FILETYPE_CHARACTER_DEVICE, FILETYPE_DIRECTORY,
    FILETYPE_REGULAR_FILE, FILETYPE_SYMBOLIC_LINK, FILETYPE_UNKNOWN,
};
use legacy_fd::trapping_unwrap::TrappingUnwrap;

const ALL_ERROR_CODES: [ErrorCode; 37] = [
    ErrorCode::Access, ErrorCode::WouldBlock, ErrorCode::Already, ErrorCode::BadDescriptor,
    ErrorCode::Busy, ErrorCode::Deadlock, ErrorCode::Quota, ErrorCode::Exist,
    ErrorCode::FileTooLarge, ErrorCode::IllegalByteSequence, ErrorCode::InProgress,
    ErrorCode::Interrupted, ErrorCode::Invalid, ErrorCode::Io, ErrorCode::IsDirectory,
    ErrorCode::Loop, ErrorCode::TooManyLinks, ErrorCode::MessageSize, ErrorCode::NameTooLong,
    ErrorCode::NoDevice, ErrorCode::NoEntry, ErrorCode::NoLock, ErrorCode::InsufficientMemory,
    ErrorCode::InsufficientSpace, ErrorCode::NotDirectory, ErrorCode::NotEmpty,
    ErrorCode::NotRecoverable, ErrorCode::Unsupported, ErrorCode::NoTty, ErrorCode::NoSuchDevice,
    ErrorCode::Overflow, ErrorCode::NotPermitted, ErrorCode::Pipe, ErrorCode::ReadOnly,
    ErrorCode::InvalidSeek, ErrorCode::TextFileBusy, ErrorCode::CrossDevice,
];

#[test]
fn filesystem_errno_is_total_and_one_to_one() {
    let codes: Vec<u16> = ALL_ERROR_CODES.iter().map(|e| e.errno()).collect();
    for (i, a) in codes.iter().enumerate() {
        assert_ne!(*a, 0);
        for b in &codes[i + 1..] {
            assert_ne!(a, b);
        }
    }
}

#[test]
fn filesystem_errno_values() {
    assert_eq!(ErrorCode::Access.errno(), ERRNO_ACCES);
    assert_eq!(ErrorCode::Access.errno(), 2);
    assert_eq!(ErrorCode::WouldBlock.errno(), ERRNO_AGAIN);
    assert_eq!(ErrorCode::BadDescriptor.errno(), 8);
    assert_eq!(ErrorCode::InsufficientMemory.errno(), 48);
    assert_eq!(ErrorCode::Unsupported.errno(), ERRNO_NOTSUP);
    assert_eq!(ErrorCode::NotPermitted.errno(), 63);
    assert_eq!(ErrorCode::CrossDevice.errno(), ERRNO_XDEV);
    assert_eq!(ErrorCode::CrossDevice.errno(), 75);
}

#[test]
fn table_errors_map_to_errno() {
    assert_eq!(BadFd.errno(), ERRNO_BADF);
    assert_eq!(NotReadable.errno(), ERRNO_BADF);
    assert_eq!(NotWriteable.errno(), ERRNO_BADF);
    assert_eq!(OutOfMemory.errno(), ERRNO_NOMEM);
    assert_eq!(ERRNO_BADF, 8);
    assert_eq!(ERRNO_NOMEM, 48);
}

#[test]
fn network_retry_maps_to_again() {
    assert_eq!(NetworkError::Again.errno(), ERRNO_AGAIN);
    assert_eq!(ERRNO_AGAIN, 6);
}

#[test]
fn filetype_mapping() {
    assert_eq!(DescriptorType::RegularFile.filetype(), FILETYPE_REGULAR_FILE);
    assert_eq!(DescriptorType::Directory.filetype(), FILETYPE_DIRECTORY);
    assert_eq!(DescriptorType::BlockDevice.filetype(), FILETYPE_BLOCK_DEVICE);
    assert_eq!(DescriptorType::CharacterDevice.filetype(), FILETYPE_CHARACTER_DEVICE);
    assert_eq!(DescriptorType::SymbolicLink.filetype(), FILETYPE_SYMBOLIC_LINK);
    assert_eq!(DescriptorType::Unknown.filetype(), FILETYPE_UNKNOWN);
    assert_eq!(DescriptorType::RegularFile.filetype(), 4);
    assert_eq!(DescriptorType::SymbolicLink.filetype(), 7);
}

#[test]
fn fifo_degrades_to_unknown() {
    assert_eq!(DescriptorType::Fifo.filetype(), FILETYPE_UNKNOWN);
    assert_eq!(FILETYPE_UNKNOWN, 0);
}

#[test]
fn error_widening() {
    assert_eq!(BadStreamFd::from(BadFd), BadStreamFd::BadFd);
    assert_eq!(BadStreamFd::from(NotReadable), BadStreamFd::BadFd);
    assert_eq!(BadStreamFd::from(NotWriteable), BadStreamFd::BadFd);
    assert_eq!(BadFileFd::from(BadFd), BadFileFd::BadFd);
    assert_eq!(BadSocketFd::from(BadFd), BadSocketFd::BadFd);
}

#[test]
fn decimal_digits_of_u32() {
    assert_eq!(decimal_digits(0), b"0".to_vec());
    assert_eq!(decimal_digits(7), b"7".to_vec());
    assert_eq!(decimal_digits(10), b"10".to_vec());
    assert_eq!(decimal_digits(1234), b"1234".to_vec());
    assert_eq!(decimal_digits(u32::MAX), b"4294967295".to_vec());
}

#[test]
fn trapping_unwrap_of_present_values() {
    assert_eq!(Some(5u8).trapping_unwrap(), 5);
    let r: Result<u8, BadFd> = Ok(9);
    assert_eq!(r.trapping_unwrap(), 9);
}
