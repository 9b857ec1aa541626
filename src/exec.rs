use crate::record::{LogChannel, LogLevel, LogRecord};
use vstd::prelude::*;
use vstd::slice::slice_subrange;
use vstd::utf8::{decode_utf8, valid_utf8};

verus! {

/// Size of the kernel's short task name buffer.
pub const COMM_LEN: usize = 16;

/// The process identifier held in the upper half of a combined thread-group/thread id.
pub open spec fn spec_pid(pid_tgid: u64) -> u32 {
    (pid_tgid as int / 0x1_0000_0000) as u32
}

/// Takes the process identifier out of a combined thread-group/thread id.
pub fn pid_of(pid_tgid: u64) -> (r: u32)
    ensures
        r == spec_pid(pid_tgid),
        r as int == pid_tgid as int / 0x1_0000_0000,
{
    assert(pid_tgid >> 32u64 == pid_tgid / 0x1_0000_0000) by (bit_vector);
    (pid_tgid >> 32u64) as u32
}

/// Where the printable part of a task name ends: at its first zero byte, or at its end
/// when it holds none.
pub open spec fn name_end(comm: Seq<u8>) -> int
    decreases comm.len(),
{
    if comm.len() == 0 {
        0
    } else if comm[0] == 0 {
        0
    } else {
        1 + name_end(comm.drop_first())
    }
}

/// The bytes of a task name that are shown.
pub open spec fn name_bytes(comm: Seq<u8>) -> Seq<u8> {
    comm.subrange(0, name_end(comm))
}

proof fn lemma_name_end(comm: Seq<u8>, i: int)
    requires
        0 <= i <= comm.len(),
        forall|j: int| 0 <= j < i ==> comm[j] != 0,
        i == comm.len() || comm[i] == 0,
    ensures
        name_end(comm) == i,
    decreases comm.len(),
{
    if comm.len() != 0 && comm[0] != 0 {
        let rest = comm.drop_first();
        assert forall|j: int| 0 <= j < i - 1 implies rest[j] != 0 by {
            assert(rest[j] == comm[j + 1]);
        }
        if i - 1 < rest.len() {
            assert(rest[i - 1] == comm[i]);
        }
        lemma_name_end(rest, i - 1);
    }
}

/// Length of the printable part of a task name: the bytes before the first zero byte,
/// never more than the buffer holds.
pub fn name_len(comm: &[u8; 16]) -> (r: usize)
    ensures
        r as int == name_end(comm@),
        r <= COMM_LEN,
        forall|j: int| 0 <= j < r ==> comm@[j] != 0,
        r < COMM_LEN ==> comm@[r as int] == 0,
{
    let mut len: usize = 0;
    while len < COMM_LEN
        invariant
            len <= COMM_LEN,
            comm@.len() == COMM_LEN,
            forall|j: int| 0 <= j < len ==> comm@[j] != 0,
        ensures
            len <= COMM_LEN,
            forall|j: int| 0 <= j < len ==> comm@[j] != 0,
            len == COMM_LEN || comm@[len as int] == 0,
        decreases COMM_LEN - len,
    {
        if comm[len] == 0 {
            break;
        }
        len = len + 1;
    }
    proof {
        lemma_name_end(comm@, len as int);
    }
    len
}

/// A name buffer without a zero byte is shown whole: the scan stops at the end of the
/// buffer and never reads past it.
pub proof fn name_without_terminator_is_whole_buffer(comm: Seq<u8>)
    requires
        comm.len() == COMM_LEN,
        forall|j: int| 0 <= j < comm.len() ==> comm[j] != 0,
    ensures
        name_end(comm) == COMM_LEN,
        name_bytes(comm) == comm,
{
    lemma_name_end(comm, comm.len() as int);
    assert(comm.subrange(0, comm.len() as int) =~= comm);
}

/// Shown in place of a task name whose bytes are not valid UTF-8.
pub open spec fn placeholder_name() -> Seq<char> {
    "<invalid>"@
}

/// The name shown for a task name buffer: its bytes up to the first zero byte as text,
/// or the placeholder when those bytes are not valid UTF-8.
pub open spec fn spec_display_name(comm: Seq<u8>) -> Seq<char> {
    if valid_utf8(name_bytes(comm)) {
        decode_utf8(name_bytes(comm))
    } else {
        placeholder_name()
    }
}

/// Relies on core::str::from_utf8: it succeeds exactly on valid UTF-8, and the text it
/// returns is what those bytes encode.
#[verifier::external_body]
fn utf8_text(bytes: &[u8]) -> (r: Option<&str>)
    ensures
        r is Some <==> valid_utf8(bytes@),
        r matches Some(s) ==> s@ == decode_utf8(bytes@),
{
    core::str::from_utf8(bytes).ok()
}

/// The name to show for a task name buffer.
pub fn display_name(comm: &[u8; 16]) -> (r: String)
    ensures
        r@ == spec_display_name(comm@),
{
    let len = name_len(comm);
    let bytes = slice_subrange(comm.as_slice(), 0, len);
    match utf8_text(bytes) {
        Some(text) => String::from_str(text),
        None => String::from_str("<invalid>"),
    }
}

/// The decimal digit `d`, for `d < 10`.
pub open spec fn digit_char(d: nat) -> char {
    ((d + 48) as u8) as char
}

/// `n` written in decimal, without leading zeros.
pub open spec fn decimal(n: nat) -> Seq<char>
    decreases n,
{
    if n < 10 {
        seq![digit_char(n)]
    } else {
        decimal(n / 10).push(digit_char(n % 10))
    }
}

/// Relies on u32's Display, through to_string: an unsigned integer is written in decimal
/// digits, without sign or leading zeros.
#[verifier::external_body]
fn decimal_text(n: u32) -> (r: String)
    ensures
        r@ == decimal(n as nat),
{
    n.to_string()
}

/// Message of the record logged for a process start.
pub open spec fn start_message(name: Seq<char>, pid: u32) -> Seq<char> {
    "\u{1F680} Process started: "@ + name + " (PID "@ + decimal(pid as nat) + ")"@
}

/// The record logged when the process `pid` named `name` starts.
pub fn start_record(name: &str, pid: u32) -> (r: LogRecord)
    ensures
        r@ == (LogLevel::Info, start_message(name@, pid)),
{
    let mut message = String::from_str("\u{1F680} Process started: ");
    message.append(name);
    message.append(" (PID ");
    let digits = decimal_text(pid);
    message.append(digits.as_str());
    message.append(")");
    LogRecord { level: LogLevel::Info, message }
}

/// The task name buffer used when the kernel could not give the name: all zero bytes.
pub fn comm_or_blank(comm: Option<[u8; 16]>) -> (r: [u8; 16])
    ensures
        r@ == match comm {
            Some(c) => c@,
            None => Seq::new(16, |i: int| 0u8),
        },
{
    match comm {
        Some(c) => c,
        None => {
            let blank: [u8; 16] = [0u8; 16];
            proof {
                assert(blank@ =~= Seq::new(16, |i: int| 0u8));
            }
            blank
        },
    }
}

/// The record logged for a process start, given the combined thread-group/thread id of
/// the task and its name buffer as the kernel handed them out (`None` when it could not).
pub open spec fn exec_record(pid_tgid: u64, comm: Option<[u8; 16]>) -> (LogLevel, Seq<char>) {
    let name = match comm {
        Some(c) => c@,
        None => Seq::new(16, |i: int| 0u8),
    };
    (LogLevel::Info, start_message(spec_display_name(name), spec_pid(pid_tgid)))
}

/// Logs one process start and picks the status for the kernel, which is success.
pub fn try_file_tracker(log: &mut LogChannel, pid_tgid: u64, comm: Option<[u8; 16]>) -> (r:
    Result<u32, u32>)
    ensures
        r == Ok::<u32, u32>(0),
        final(log)@ == old(log)@.push(exec_record(pid_tgid, comm)),
{
    let pid = pid_of(pid_tgid);
    let comm = comm_or_blank(comm);
    let name = display_name(&comm);
    log.emit(start_record(name.as_str(), pid));
    Ok(0)
}

/// The status handed to the kernel for an outcome of the tracker: the code it carries,
/// whether it succeeded or failed.
pub fn status(outcome: Result<u32, u32>) -> (r: u32)
    ensures
        r == match outcome {
            Ok(code) => code,
            Err(code) => code,
        },
{
    match outcome {
        Ok(ret) => ret,
        Err(ret) => ret,
    }
}

/// The tracker: invoked once per process start, logs one record naming the process and
/// never reports a failure to the kernel.
pub fn file_tracker(log: &mut LogChannel, pid_tgid: u64, comm: Option<[u8; 16]>) -> (r: u32)
    ensures
        r == 0,
        final(log)@ == old(log)@.push(exec_record(pid_tgid, comm)),
{
    status(try_file_tracker(log, pid_tgid, comm))
}

} // verus!
