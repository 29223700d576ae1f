//! The library's Win32 vocabulary is that of windows-sys.
use herdr::platform::jobs::CTRL_BREAK_EVENT;
use herdr::win32;
use herdr::win32::Handle;
use windows_sys::Win32::Foundation as foundation;
use windows_sys::Win32::Storage::FileSystem as filesystem;
use windows_sys::Win32::System::Console as console;
use windows_sys::Win32::System::JobObjects as jobs;
use windows_sys::Win32::System::Pipes as pipes;
use windows_sys::Win32::System::Threading as threading;

#[test]
fn error_codes_are_those_of_windows_sys() {
    assert_eq!(win32::ERROR_FILE_NOT_FOUND, foundation::ERROR_FILE_NOT_FOUND);
    assert_eq!(win32::ERROR_ACCESS_DENIED, foundation::ERROR_ACCESS_DENIED);
    assert_eq!(win32::ERROR_BROKEN_PIPE, foundation::ERROR_BROKEN_PIPE);
    assert_eq!(win32::ERROR_PIPE_BUSY, foundation::ERROR_PIPE_BUSY);
    assert_eq!(win32::ERROR_NO_DATA, foundation::ERROR_NO_DATA);
    assert_eq!(win32::ERROR_PIPE_NOT_CONNECTED, foundation::ERROR_PIPE_NOT_CONNECTED);
    assert_eq!(win32::ERROR_MORE_DATA, foundation::ERROR_MORE_DATA);
    assert_eq!(win32::ERROR_PIPE_CONNECTED, foundation::ERROR_PIPE_CONNECTED);
    assert_eq!(win32::ERROR_OPERATION_ABORTED, foundation::ERROR_OPERATION_ABORTED);
    assert_eq!(win32::ERROR_IO_INCOMPLETE, foundation::ERROR_IO_INCOMPLETE);
    assert_eq!(win32::ERROR_IO_PENDING, foundation::ERROR_IO_PENDING);
}

#[test]
fn wait_results_are_those_of_windows_sys() {
    assert_eq!(win32::WAIT_OBJECT_0, foundation::WAIT_OBJECT_0);
    assert_eq!(win32::WAIT_TIMEOUT, foundation::WAIT_TIMEOUT);
    assert_eq!(win32::INFINITE, threading::INFINITE);
    assert_eq!(win32::STILL_ACTIVE, foundation::STILL_ACTIVE as u32);
}

#[test]
fn access_bits_are_those_of_windows_sys() {
    assert_eq!(win32::PROCESS_TERMINATE, threading::PROCESS_TERMINATE);
    assert_eq!(
        win32::PROCESS_QUERY_LIMITED_INFORMATION,
        threading::PROCESS_QUERY_LIMITED_INFORMATION
    );
    assert_eq!(win32::CREATE_BREAKAWAY_FROM_JOB, threading::CREATE_BREAKAWAY_FROM_JOB);
    assert_eq!(
        win32::JOB_OBJECT_LIMIT_KILL_ON_JOB_CLOSE,
        jobs::JOB_OBJECT_LIMIT_KILL_ON_JOB_CLOSE
    );
    assert_eq!(win32::GENERIC_READ, foundation::GENERIC_READ);
    assert_eq!(win32::GENERIC_WRITE, foundation::GENERIC_WRITE);
    assert_eq!(win32::FILE_FLAG_OVERLAPPED, filesystem::FILE_FLAG_OVERLAPPED);
    assert_eq!(win32::PIPE_ACCESS_INBOUND, filesystem::PIPE_ACCESS_INBOUND);
    assert_eq!(win32::PIPE_ACCESS_OUTBOUND, filesystem::PIPE_ACCESS_OUTBOUND);
    assert_eq!(win32::PIPE_ACCESS_DUPLEX, filesystem::PIPE_ACCESS_DUPLEX);
    assert_eq!(win32::PIPE_UNLIMITED_INSTANCES, pipes::PIPE_UNLIMITED_INSTANCES);
    assert_eq!(CTRL_BREAK_EVENT, console::CTRL_BREAK_EVENT);
    assert_eq!(win32::PIPE_BUFFER_SIZE, 64 * 1024);
}

#[test]
fn invalid_handles_are_those_of_windows_sys() {
    let invalid = Handle { bits: foundation::INVALID_HANDLE_VALUE as usize };
    assert!(invalid.is_invalid() && !invalid.is_usable() && !invalid.is_null());
    let null = Handle { bits: 0 };
    assert!(null.is_null() && !null.is_usable() && !null.is_invalid());
    let pipe = Handle { bits: 4 };
    assert!(pipe.is_usable() && !pipe.is_null() && !pipe.is_invalid());
}
