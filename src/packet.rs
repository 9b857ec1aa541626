use crate::record::{LogChannel, LogLevel, LogRecord};
use vstd::prelude::*;

verus! {

/// The traffic-control action "pass the packet on to the next stage unchanged".
pub const TC_ACT_PIPE: i32 = 3;

/// Message of the record logged for each packet.
pub open spec fn packet_message() -> Seq<char> {
    "received a packet"@
}

/// The record logged for each packet.
pub fn packet_record() -> (r: LogRecord)
    ensures
        r@ == (LogLevel::Info, packet_message()),
{
    LogRecord { level: LogLevel::Info, message: String::from_str("received a packet") }
}

/// Logs the packet and picks its disposition.
pub fn try_demo(log: &mut LogChannel) -> (r: Result<i32, i32>)
    ensures
        r == Ok::<i32, i32>(TC_ACT_PIPE),
        final(log)@ == old(log)@.push((LogLevel::Info, packet_message())),
{
    log.emit(packet_record());
    Ok(TC_ACT_PIPE)
}

/// The disposition handed to the kernel for an outcome of the classifier: the code it
/// carries, whether it succeeded or failed.
pub fn disposition(outcome: Result<i32, i32>) -> (r: i32)
    ensures
        r == match outcome {
            Ok(code) => code,
            Err(code) => code,
        },
{
    match outcome {
        Ok(ret) => ret,
        Err(ret) => ret,
    }
}

/// The classifier: invoked once per packet, logs one record and lets the packet through.
pub fn demo(log: &mut LogChannel) -> (r: i32)
    ensures
        r == TC_ACT_PIPE,
        final(log)@ == old(log)@.push((LogLevel::Info, packet_message())),
{
    disposition(try_demo(log))
}

} // verus!
