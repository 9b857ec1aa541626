use ebpf_demos::exec::{
    comm_or_blank, display_name, file_tracker, name_len, pid_of, start_record, status,
    try_file_tracker, COMM_LEN,
};
use ebpf_demos::packet::{demo, disposition, packet_record, try_demo, TC_ACT_PIPE};
use ebpf_demos::record::{LogChannel, LogLevel, LogRecord};

fn bash_comm() -> [u8; 16] {
    let mut comm = [0u8; 16];
    comm[..4].copy_from_slice(b"bash");
    comm
}

#[test]
fn packet_passes_through() {
    let mut log = LogChannel::new();
    assert_eq!(demo(&mut log), TC_ACT_PIPE);
    assert_eq!(TC_ACT_PIPE, 3);
    let out = log.drain();
    assert_eq!(out.len(), 1);
    assert_eq!(out[0].level, LogLevel::Info);
    assert_eq!(out[0].message, "received a packet");
}

#[test]
fn packet_disposition_on_either_outcome() {
    let mut log = LogChannel::new();
    assert_eq!(try_demo(&mut log), Ok(TC_ACT_PIPE));
    assert_eq!(disposition(Ok(TC_ACT_PIPE)), TC_ACT_PIPE);
    assert_eq!(disposition(Err(TC_ACT_PIPE)), TC_ACT_PIPE);
    assert_eq!(packet_record().message, "received a packet");
}

#[test]
fn pid_is_upper_half() {
    assert_eq!(pid_of(0x0000_0005_0000_0007), 5);
    assert_eq!(pid_of(0), 0);
    assert_eq!(pid_of(0xFFFF_FFFF_0000_0001), u32::MAX);
    assert_eq!(pid_of(0x0000_0000_FFFF_FFFF), 0);
}

#[test]
fn name_stops_at_first_zero() {
    let comm = bash_comm();
    assert_eq!(name_len(&comm), 4);
    assert_eq!(display_name(&comm), "bash");
}

#[test]
fn name_without_zero_is_whole_buffer() {
    let comm = *b"abcdefghijklmnop";
    assert_eq!(name_len(&comm), COMM_LEN);
    assert_eq!(display_name(&comm), "abcdefghijklmnop");
}

#[test]
fn empty_name() {
    let comm = [0u8; 16];
    assert_eq!(name_len(&comm), 0);
    assert_eq!(display_name(&comm), "");
}

#[test]
fn name_bytes_after_zero_are_ignored() {
    let mut comm = bash_comm();
    comm[5] = b'x';
    assert_eq!(display_name(&comm), "bash");
}

#[test]
fn invalid_name_gets_placeholder() {
    let mut comm = [0u8; 16];
    comm[0] = b'a';
    comm[1] = 0xFF;
    assert_eq!(name_len(&comm), 2);
    assert_eq!(display_name(&comm), "<invalid>");
}

#[test]
fn multibyte_name_is_kept() {
    let mut comm = [0u8; 16];
    comm[..3].copy_from_slice("é!".as_bytes());
    assert_eq!(display_name(&comm), "é!");
}

#[test]
fn start_record_format() {
    let r = start_record("bash", 42);
    assert_eq!(r.level, LogLevel::Info);
    assert_eq!(r.message, "\u{1F680} Process started: bash (PID 42)");
    let r = start_record("x", 0);
    assert_eq!(r.message, "\u{1F680} Process started: x (PID 0)");
    let r = start_record("init", u32::MAX);
    assert_eq!(r.message, "\u{1F680} Process started: init (PID 4294967295)");
}

#[test]
fn blank_comm_when_missing() {
    assert_eq!(comm_or_blank(None), [0u8; 16]);
    assert_eq!(comm_or_blank(Some(bash_comm())), bash_comm());
}

#[test]
fn tracker_logs_name_and_pid() {
    let mut log = LogChannel::new();
    assert_eq!(file_tracker(&mut log, 0x0000_0005_0000_0007, Some(bash_comm())), 0);
    let out = log.drain();
    assert_eq!(out.len(), 1);
    assert_eq!(out[0].level, LogLevel::Info);
    assert_eq!(out[0].message, "\u{1F680} Process started: bash (PID 5)");
}

#[test]
fn tracker_without_name_still_succeeds() {
    let mut log = LogChannel::new();
    assert_eq!(try_file_tracker(&mut log, 0x0000_0009_0000_0001, None), Ok(0));
    let out = log.drain();
    assert_eq!(out[0].message, "\u{1F680} Process started:  (PID 9)");
    assert_eq!(status(Err(0)), 0);
    assert_eq!(status(Ok(0)), 0);
}

#[test]
fn drain_keeps_emission_order() {
    let mut log = LogChannel::new();
    assert!(log.is_empty());
    for i in 0..5u32 {
        log.emit(start_record("p", i));
    }
    demo(&mut log);
    assert_eq!(log.len(), 6);
    let out: Vec<LogRecord> = log.drain();
    assert_eq!(out.len(), 6);
    for i in 0..5usize {
        assert_eq!(out[i].message, format!("\u{1F680} Process started: p (PID {})", i));
    }
    assert_eq!(out[5].message, "received a packet");
    assert!(log.is_empty());
}

#[test]
fn drain_of_empty_channel_leaves_it_usable() {
    let mut log = LogChannel::new();
    assert!(log.drain().is_empty());
    demo(&mut log);
    assert_eq!(log.drain().len(), 1);
    assert!(log.drain().is_empty());
}

#[test]
fn panic_handler_does_nothing() {
    ebpf_demos::panic();
}
