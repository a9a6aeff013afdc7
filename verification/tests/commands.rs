use print_driver::driver::{CommandOutcome, Print, DRIVER_NUM};
use print_driver::error::ErrorCode;
use print_driver::grant::Grant;
use print_driver::process::ProcessId;
use print_driver::processbuffer::ReadOnlyProcessBuffer;
use print_driver::staging::BUF_SIZE;
use print_driver::syscall::CommandReturn;

fn driver(processes: usize, capacity: usize) -> Print {
    Print::new(Grant::new(processes, capacity))
}

fn register(driver: &mut Print, pid: ProcessId, bytes: &[u8]) -> Vec<u8> {
    match driver.allow_readonly(pid, 0, ReadOnlyProcessBuffer::new(bytes.to_vec())) {
        Ok(previous) => previous.enter().to_vec(),
        Err((_, err)) => panic!("registration refused: {:?}", err),
    }
}

fn print(driver: &mut Print, pid: ProcessId) -> CommandOutcome {
    driver.command(1, 0, 0, pid)
}

fn count(driver: &mut Print, pid: ProcessId) -> CommandReturn {
    let out = driver.command(2, 0, 0, pid);
    assert_eq!(out.message, None);
    out.ret
}

#[test]
fn driver_number_is_fixed() {
    assert_eq!(DRIVER_NUM, 0xa0001);
    assert_eq!(BUF_SIZE, 1024);
}

#[test]
fn acknowledge_always_succeeds() {
    let mut d = driver(1, 0);
    let out = d.command(0, 0, 0, ProcessId::new(0));
    assert_eq!(out.ret, CommandReturn::Success);
    assert_eq!(out.message, None);
    // Not even a process that does not exist is turned away.
    let out = d.command(0, 7, 9, ProcessId::new(5));
    assert_eq!(out.ret, CommandReturn::Success);
    assert_eq!(out.message, None);
    // Acknowledging creates no record: with no room, a query still fails.
    assert_eq!(count(&mut d, ProcessId::new(0)), CommandReturn::Failure(ErrorCode::OutOfMemory));
}

#[test]
fn valid_text_reaches_the_log_once_and_is_counted() {
    let mut d = driver(1, 1);
    let pid = ProcessId::new(0);
    register(&mut d, pid, b"hello, world");
    let out = print(&mut d, pid);
    assert_eq!(out.ret, CommandReturn::Success);
    assert_eq!(out.message, Some(String::from("hello, world")));
    assert_eq!(count(&mut d, pid), CommandReturn::SuccessU32(12));
}

#[test]
fn multibyte_text_is_counted_in_bytes() {
    let mut d = driver(1, 1);
    let pid = ProcessId::new(0);
    let text = "gr\u{fc}\u{df}e \u{2713} \u{1f600}";
    register(&mut d, pid, text.as_bytes());
    let out = print(&mut d, pid);
    assert_eq!(out.ret, CommandReturn::Success);
    assert_eq!(out.message.as_deref(), Some(text));
    assert_eq!(text.len(), 16);
    assert_eq!(count(&mut d, pid), CommandReturn::SuccessU32(16));
}

#[test]
fn buffer_of_exactly_the_capacity_is_printed() {
    let mut d = driver(1, 1);
    let pid = ProcessId::new(0);
    let bytes = vec![b'a'; 1024];
    register(&mut d, pid, &bytes);
    let out = print(&mut d, pid);
    assert_eq!(out.ret, CommandReturn::Success);
    assert_eq!(out.message.map(String::into_bytes), Some(bytes));
    assert_eq!(count(&mut d, pid), CommandReturn::SuccessU32(1024));
}

#[test]
fn buffer_over_the_capacity_is_a_size_error() {
    let mut d = driver(1, 1);
    let pid = ProcessId::new(0);
    register(&mut d, pid, b"abc");
    assert_eq!(print(&mut d, pid).ret, CommandReturn::Success);
    register(&mut d, pid, &vec![b'a'; 1025]);
    let out = print(&mut d, pid);
    assert_eq!(out.ret, CommandReturn::Failure(ErrorCode::SizeError));
    assert_eq!(out.message, None);
    assert_eq!(count(&mut d, pid), CommandReturn::SuccessU32(3));
    // The buffer is still registered as it was.
    assert_eq!(register(&mut d, pid, b""), vec![b'a'; 1025]);
}

#[test]
fn lone_continuation_byte_is_invalid_encoding() {
    let mut d = driver(1, 1);
    let pid = ProcessId::new(0);
    register(&mut d, pid, b"abc");
    assert_eq!(print(&mut d, pid).ret, CommandReturn::Success);
    register(&mut d, pid, &[0x80]);
    let out = print(&mut d, pid);
    assert_eq!(out.ret, CommandReturn::Failure(ErrorCode::InvalidEncoding));
    assert_eq!(out.message, None);
    assert_eq!(count(&mut d, pid), CommandReturn::SuccessU32(3));
    assert_eq!(register(&mut d, pid, b""), vec![0x80]);
}

#[test]
fn ill_formed_sequences_are_invalid_encoding() {
    let cases: [&[u8]; 6] = [
        &[b'a', 0xff],
        &[0xc3],
        &[0xc0, 0xaf],
        &[0xed, 0xa0, 0x80],
        &[0xf4, 0x90, 0x80, 0x80],
        &[b'o', b'k', 0xe2, 0x82],
    ];
    for bytes in cases {
        let mut d = driver(1, 1);
        let pid = ProcessId::new(0);
        register(&mut d, pid, bytes);
        let out = print(&mut d, pid);
        assert_eq!(out.ret, CommandReturn::Failure(ErrorCode::InvalidEncoding));
        assert_eq!(out.message, None);
        assert_eq!(count(&mut d, pid), CommandReturn::SuccessU32(0));
    }
}

#[test]
fn oversized_buffer_is_a_size_error_even_if_ill_formed() {
    let mut d = driver(1, 1);
    let pid = ProcessId::new(0);
    register(&mut d, pid, &vec![0x80; 2000]);
    let out = print(&mut d, pid);
    assert_eq!(out.ret, CommandReturn::Failure(ErrorCode::SizeError));
    assert_eq!(out.message, None);
}

#[test]
fn second_registration_returns_the_first_and_is_the_one_printed() {
    let mut d = driver(1, 1);
    let pid = ProcessId::new(0);
    assert_eq!(register(&mut d, pid, b"buffer A"), Vec::<u8>::new());
    assert_eq!(register(&mut d, pid, b"buffer B"), b"buffer A".to_vec());
    let out = print(&mut d, pid);
    assert_eq!(out.ret, CommandReturn::Success);
    assert_eq!(out.message.as_deref(), Some("buffer B"));
}

#[test]
fn counter_is_zero_before_any_print_and_adds_up() {
    let mut d = driver(1, 1);
    let pid = ProcessId::new(0);
    assert_eq!(count(&mut d, pid), CommandReturn::SuccessU32(0));
    register(&mut d, pid, b"12345");
    assert_eq!(print(&mut d, pid).ret, CommandReturn::Success);
    register(&mut d, pid, b"0123456789");
    assert_eq!(print(&mut d, pid).ret, CommandReturn::Success);
    register(&mut d, pid, b"");
    let out = print(&mut d, pid);
    assert_eq!(out.ret, CommandReturn::Success);
    assert_eq!(out.message.as_deref(), Some(""));
    assert_eq!(count(&mut d, pid), CommandReturn::SuccessU32(15));
}

#[test]
fn printing_without_a_registered_buffer_prints_the_empty_text() {
    let mut d = driver(1, 1);
    let pid = ProcessId::new(0);
    let out = print(&mut d, pid);
    assert_eq!(out.ret, CommandReturn::Success);
    assert_eq!(out.message.as_deref(), Some(""));
    assert_eq!(count(&mut d, pid), CommandReturn::SuccessU32(0));
}

#[test]
fn the_same_buffer_can_be_printed_again() {
    let mut d = driver(1, 1);
    let pid = ProcessId::new(0);
    register(&mut d, pid, b"again");
    for round in 1..=4u32 {
        let out = print(&mut d, pid);
        assert_eq!(out.message.as_deref(), Some("again"));
        assert_eq!(count(&mut d, pid), CommandReturn::SuccessU32(5 * round));
    }
}

#[test]
fn query_does_not_change_the_counter() {
    let mut d = driver(1, 1);
    let pid = ProcessId::new(0);
    register(&mut d, pid, b"seven b");
    print(&mut d, pid);
    for _ in 0..3 {
        assert_eq!(count(&mut d, pid), CommandReturn::SuccessU32(7));
    }
}

#[test]
fn two_processes_do_not_see_each_other() {
    let mut d = driver(3, 3);
    let a = ProcessId::new(0);
    let b = ProcessId::new(2);
    register(&mut d, a, b"from a");
    register(&mut d, b, b"process b speaking");
    assert_eq!(print(&mut d, a).message.as_deref(), Some("from a"));
    assert_eq!(print(&mut d, b).message.as_deref(), Some("process b speaking"));
    assert_eq!(print(&mut d, a).message.as_deref(), Some("from a"));
    assert_eq!(count(&mut d, a), CommandReturn::SuccessU32(12));
    assert_eq!(count(&mut d, b), CommandReturn::SuccessU32(18));
    // A failure of one process costs the other nothing.
    register(&mut d, a, &[0xff]);
    assert_eq!(print(&mut d, a).ret, CommandReturn::Failure(ErrorCode::InvalidEncoding));
    assert_eq!(print(&mut d, b).message.as_deref(), Some("process b speaking"));
    assert_eq!(count(&mut d, a), CommandReturn::SuccessU32(12));
    assert_eq!(count(&mut d, b), CommandReturn::SuccessU32(36));
    // Each gets its own buffer back.
    assert_eq!(register(&mut d, a, b""), vec![0xff]);
    assert_eq!(register(&mut d, b, b""), b"process b speaking".to_vec());
    // The process in between has printed nothing.
    assert_eq!(count(&mut d, ProcessId::new(1)), CommandReturn::SuccessU32(0));
}

#[test]
fn command_three_is_not_supported_and_changes_nothing() {
    let mut d = driver(1, 1);
    let pid = ProcessId::new(0);
    register(&mut d, pid, b"kept");
    print(&mut d, pid);
    let out = d.command(3, 0, 0, pid);
    assert_eq!(out.ret, CommandReturn::Failure(ErrorCode::NotSupported));
    assert_eq!(out.message, None);
    assert_eq!(count(&mut d, pid), CommandReturn::SuccessU32(4));
    assert_eq!(register(&mut d, pid, b"kept"), b"kept".to_vec());
}

#[test]
fn every_other_command_is_not_supported() {
    let mut d = driver(1, 0);
    for command_num in [3usize, 4, 100, usize::MAX] {
        let out = d.command(command_num, 1, 2, ProcessId::new(0));
        assert_eq!(out.ret, CommandReturn::Failure(ErrorCode::NotSupported));
        assert_eq!(out.message, None);
    }
}

#[test]
fn allow_index_one_is_not_supported_and_returns_the_offer() {
    let mut d = driver(1, 1);
    let pid = ProcessId::new(0);
    register(&mut d, pid, b"registered");
    match d.allow_readonly(pid, 1, ReadOnlyProcessBuffer::new(b"offered".to_vec())) {
        Ok(_) => panic!("index 1 was accepted"),
        Err((offered, err)) => {
            assert_eq!(err, ErrorCode::NotSupported);
            assert_eq!(offered.enter(), b"offered");
        }
    }
    // What was registered is still registered.
    assert_eq!(print(&mut d, pid).message.as_deref(), Some("registered"));
}

#[test]
fn unknown_allow_index_creates_no_record() {
    let mut d = driver(1, 1);
    let pid = ProcessId::new(0);
    assert!(d.allow_readonly(pid, usize::MAX, ReadOnlyProcessBuffer::default()).is_err());
    // The one free place is still free for another use.
    assert_eq!(d.allocate_grant(pid), Ok(()));
}

#[test]
fn commands_of_an_unknown_process_fail() {
    let mut d = driver(2, 2);
    let stranger = ProcessId::new(2);
    let out = print(&mut d, stranger);
    assert_eq!(out.ret, CommandReturn::Failure(ErrorCode::NoSuchProcess));
    assert_eq!(out.message, None);
    assert_eq!(count(&mut d, stranger), CommandReturn::Failure(ErrorCode::NoSuchProcess));
    match d.allow_readonly(stranger, 0, ReadOnlyProcessBuffer::new(vec![1, 2, 3])) {
        Ok(_) => panic!("a stranger registered a buffer"),
        Err((offered, err)) => {
            assert_eq!(err, ErrorCode::NoSuchProcess);
            assert_eq!(offered.enter(), &[1, 2, 3]);
        }
    }
}

#[test]
fn commands_fail_when_no_record_can_be_created() {
    let mut d = driver(2, 1);
    let first = ProcessId::new(0);
    let second = ProcessId::new(1);
    assert_eq!(count(&mut d, first), CommandReturn::SuccessU32(0));
    assert_eq!(count(&mut d, second), CommandReturn::Failure(ErrorCode::OutOfMemory));
    let out = print(&mut d, second);
    assert_eq!(out.ret, CommandReturn::Failure(ErrorCode::OutOfMemory));
    assert_eq!(out.message, None);
    match d.allow_readonly(second, 0, ReadOnlyProcessBuffer::new(b"mine".to_vec())) {
        Ok(_) => panic!("a record appeared from nowhere"),
        Err((offered, err)) => {
            assert_eq!(err, ErrorCode::OutOfMemory);
            assert_eq!(offered.enter(), b"mine");
        }
    }
    // The process that has its record goes on as before.
    register(&mut d, first, b"still here");
    assert_eq!(print(&mut d, first).message.as_deref(), Some("still here"));
}

#[test]
fn counter_stops_at_the_largest_value() {
    let mut d = driver(1, 1);
    let pid = ProcessId::new(0);
    register(&mut d, pid, &vec![b'x'; 1024]);
    // 4194303 prints of 1024 bytes leave the counter 1024 short of 2^32.
    for _ in 0..4_194_303u32 {
        d.command(1, 0, 0, pid);
    }
    assert_eq!(count(&mut d, pid), CommandReturn::SuccessU32(u32::MAX - 1023));
    assert_eq!(print(&mut d, pid).ret, CommandReturn::Success);
    assert_eq!(count(&mut d, pid), CommandReturn::SuccessU32(u32::MAX));
    assert_eq!(print(&mut d, pid).ret, CommandReturn::Success);
    assert_eq!(count(&mut d, pid), CommandReturn::SuccessU32(u32::MAX));
}
