//! Probe logic of two small kernel-observation programs: a traffic-control packet
//! classifier that lets every packet through, and a process-start tracker that reports
//! the identifier and name of each new process. Both emit their log records into a
//! [`record::LogChannel`], which the user-space relay drains in emission order.

pub mod exec;
pub mod loader;
pub mod packet;
pub mod record;

use vstd::prelude::*;

verus! {

/// The probes' panic handler. A probe image carries no runtime, so it must name one; but
/// a probe runs inside the kernel, which refuses to load a program in which a panic is
/// reachable, and the functions of this library are proved not to panic. The handler is
/// therefore never entered, and it does nothing.
pub fn panic() {
}

} // verus!
