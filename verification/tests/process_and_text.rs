use nexmemory::error::{DecodeError, NEXMemoryError};
use nexmemory::platform::{
    Reply, Request, PATH_CAPACITY, PROCESS_ALL_ACCESS, PROCESS_LIST_CAPACITY, SNAPSHOT_PROCESSES,
};
use nexmemory::process::Process;
use nexmemory::text::{decode_text, strip_padding};

#[test]
fn new_keeps_handle_and_identifier() {
    let process = Process::new(0x44, 1234);
    assert_eq!(process.pid(), 1234);
    assert_eq!(process.release(), Request::CloseHandle { handle: 0x44 });
}

#[test]
fn requests_carry_the_handle() {
    let process = Process::new(7, 9);
    assert_eq!(
        process.read_request(0x1000, 4),
        Request::ReadMemory { handle: 7, address: 0x1000, size: 4 }
    );
    assert_eq!(
        process.write_request(0x2000, 8),
        Request::WriteMemory { handle: 7, address: 0x2000, size: 8 }
    );
    assert_eq!(process.path_request(), Request::QueryPath { handle: 7, capacity: 1024 });
    assert_eq!(process.terminate_request(3), Request::Terminate { handle: 7, code: 3 });
}

#[test]
fn constants_of_the_platform() {
    assert_eq!(PROCESS_ALL_ACCESS, 0x1f0fff);
    assert_eq!(SNAPSHOT_PROCESSES, 2);
    assert_eq!(PATH_CAPACITY, 1024);
    assert_eq!(PROCESS_LIST_CAPACITY, 1024);
}

#[test]
fn full_read_gives_the_number_of_bytes() {
    let process = Process::new(7, 9);
    assert_eq!(
        process.read_memory(4, Reply::Transfer { accepted: true, transferred: 4 }),
        Ok(4)
    );
    assert_eq!(
        process.read_memory(0, Reply::Transfer { accepted: true, transferred: 0 }),
        Ok(0)
    );
}

#[test]
fn short_read_is_unable_to_read_memory() {
    let process = Process::new(7, 9);
    assert_eq!(
        process.read_memory(4, Reply::Transfer { accepted: true, transferred: 3 }),
        Err(NEXMemoryError::UnableToReadMemory)
    );
    assert_eq!(
        process.read_memory(4, Reply::Transfer { accepted: true, transferred: 0 }),
        Err(NEXMemoryError::UnableToReadMemory)
    );
    assert_eq!(
        process.read_memory(4, Reply::Transfer { accepted: true, transferred: 5 }),
        Err(NEXMemoryError::UnableToReadMemory)
    );
}

#[test]
fn failed_read_is_unable_to_read_memory() {
    let process = Process::new(7, 9);
    assert_eq!(
        process.read_memory(4, Reply::Transfer { accepted: false, transferred: 4 }),
        Err(NEXMemoryError::UnableToReadMemory)
    );
    assert_eq!(
        process.read_memory(4, Reply::Accepted(true)),
        Err(NEXMemoryError::UnableToReadMemory)
    );
}

#[test]
fn full_write_gives_the_number_of_bytes() {
    let process = Process::new(7, 9);
    assert_eq!(
        process.write_memory(8, Reply::Transfer { accepted: true, transferred: 8 }),
        Ok(8)
    );
}

#[test]
fn short_or_failed_write_is_unable_to_write_memory() {
    let process = Process::new(7, 9);
    assert_eq!(
        process.write_memory(8, Reply::Transfer { accepted: true, transferred: 7 }),
        Err(NEXMemoryError::UnableToWriteMemory)
    );
    assert_eq!(
        process.write_memory(8, Reply::Transfer { accepted: false, transferred: 8 }),
        Err(NEXMemoryError::UnableToWriteMemory)
    );
    assert_eq!(
        process.write_memory(8, Reply::Handle(8)),
        Err(NEXMemoryError::UnableToWriteMemory)
    );
}

#[test]
fn terminate_tells_whether_the_platform_took_the_request() {
    let process = Process::new(7, 9);
    assert!(process.terminate(Reply::Accepted(true)));
    assert!(!process.terminate(Reply::Accepted(false)));
    assert!(!process.terminate(Reply::Handle(1)));
}

#[test]
fn executable_path_strips_trailing_padding() {
    let process = Process::new(7, 9);
    let buffer = b"C:\\app.exe\0\0\0".to_vec();
    assert_eq!(process.process_name(Reply::Path(Some(buffer))), Ok("C:\\app.exe".to_string()));
}

#[test]
fn executable_path_from_a_full_size_buffer() {
    let process = Process::new(7, 9);
    let mut buffer = vec![0u8; 1024];
    buffer[..11].copy_from_slice(b"C:\\x\\y.exe!");
    assert_eq!(process.process_name(Reply::Path(Some(buffer))), Ok("C:\\x\\y.exe!".to_string()));
}

#[test]
fn failed_path_query_is_process_not_found() {
    let process = Process::new(7, 9);
    assert_eq!(process.process_name(Reply::Path(None)), Err(NEXMemoryError::ProcessNotFound));
    assert_eq!(process.process_name(Reply::Handle(3)), Err(NEXMemoryError::ProcessNotFound));
}

#[test]
fn path_that_is_no_text_is_other() {
    let process = Process::new(7, 9);
    assert_eq!(
        process.process_name(Reply::Path(Some(vec![b'C', b':', 0x80, 0, 0]))),
        Err(NEXMemoryError::Other(DecodeError { valid_up_to: 2 }))
    );
}

#[test]
fn strip_padding_drops_only_zeros_at_the_end() {
    assert_eq!(strip_padding(vec![b'a', 0, b'b', 0, 0]), vec![b'a', 0, b'b']);
    assert_eq!(strip_padding(vec![b'a', b'b']), vec![b'a', b'b']);
    assert_eq!(strip_padding(vec![0, 0, 0]), Vec::<u8>::new());
    assert_eq!(strip_padding(Vec::new()), Vec::<u8>::new());
    assert_eq!(strip_padding(vec![0, b'z']), vec![0, b'z']);
}

#[test]
fn decode_text_reads_utf8() {
    assert_eq!(decode_text(b"target.exe\0\0".to_vec()), Ok("target.exe".to_string()));
    assert_eq!(decode_text(Vec::new()), Ok(String::new()));
    assert_eq!(decode_text(vec![0, 0]), Ok(String::new()));
    assert_eq!(decode_text(vec![0xe2, 0x82, 0xac, 0]), Ok("\u{20ac}".to_string()));
    assert_eq!(decode_text(vec![b'a', 0, b'b', 0]), Ok("a\0b".to_string()));
}

#[test]
fn decode_text_says_how_far_the_bytes_are_text() {
    assert_eq!(
        decode_text(vec![0xff]),
        Err(NEXMemoryError::Other(DecodeError { valid_up_to: 0 }))
    );
    assert_eq!(
        decode_text(vec![b'a', b'b', b'c', 0xff, b'd']),
        Err(NEXMemoryError::Other(DecodeError { valid_up_to: 3 }))
    );
    assert_eq!(
        decode_text(vec![b'a', 0xe2, 0x82, 0, 0]),
        Err(NEXMemoryError::Other(DecodeError { valid_up_to: 1 }))
    );
    assert_eq!(
        decode_text(vec![0xe2, 0x82, 0xac, 0xed, 0xa0, 0x80]),
        Err(NEXMemoryError::Other(DecodeError { valid_up_to: 3 }))
    );
}

#[test]
fn messages_of_all_failures() {
    assert_eq!(NEXMemoryError::EnumProcessError.message(), "Failed to enumerate processes");
    assert_eq!(NEXMemoryError::ProcessNotFound.message(), "The proccess was not found");
    assert_eq!(NEXMemoryError::UnableToReadMemory.message(), "Unable to read process memory");
    assert_eq!(NEXMemoryError::UnableToWriteMemory.message(), "Unable to write process memory");
    assert_eq!(NEXMemoryError::UnableToTakeSnapshot.message(), "Unable to take snapshot");
    assert_eq!(NEXMemoryError::ProcessReadError.message(), "Error while reading proccess");
    assert_eq!(NEXMemoryError::OpenProcessError.message(), "Error while opening process");
    assert_eq!(
        NEXMemoryError::Other(DecodeError { valid_up_to: 5 }).message(),
        "Bytes from the platform are not valid UTF-8"
    );
}

#[test]
fn failures_of_different_stages_differ() {
    let kinds = [
        NEXMemoryError::EnumProcessError,
        NEXMemoryError::UnableToTakeSnapshot,
        NEXMemoryError::OpenProcessError,
        NEXMemoryError::ProcessNotFound,
        NEXMemoryError::UnableToReadMemory,
        NEXMemoryError::UnableToWriteMemory,
    ];
    for i in 0..kinds.len() {
        for j in 0..kinds.len() {
            assert_eq!(kinds[i] == kinds[j], i == j);
        }
    }
}
