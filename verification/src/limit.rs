//! Ceilings on the resources of one process.
//!
//! The system call that installs a ceiling is made outside this library. The
//! library decides what is handed to that call and what its return means.

use vstd::prelude::*;
use crate::error::Error;
use crate::memory_size::MemorySize;

verus! {

/// A resource of a process that the operating system can bound.
#[derive(Copy, Clone, Debug, PartialEq, Eq, Structural, Hash)]
pub enum Limit {
    /// Processor time.
    Cpu,
    /// The size of a file that the process creates.
    FileSize,
    /// The data segment: how far the heap can grow.
    Data,
    /// The stack.
    Stack,
    /// The size of a core file.
    Core,
    /// The resident set.
    ResidentSetSize,
    /// The number of processes of the user.
    NumberProcesses,
    /// The number of open files.
    NumberFiles,
    /// Memory locked into RAM.
    MemoryLock,
    /// The address space.
    AddressSpace,
    /// File locks.
    Locks,
    /// Queued signals.
    SignalPending,
    /// Bytes in message queues.
    MessageQueue,
    /// The nice value.
    Nice,
    /// The real-time priority.
    RTPrio,
    /// Processor time under real-time scheduling.
    RTTime,
}

/// The two bounds that the operating system keeps for one resource.
#[derive(Copy, Clone, Debug, PartialEq, Eq, Structural, Hash)]
pub struct ResourceLimit {
    /// The bound that is enforced.
    pub soft: u64,
    /// The ceiling up to which the soft bound may later be raised.
    pub hard: u64,
}

/// The pair of bounds for a ceiling of `n`: both are `n`, so that the process
/// has no margin to raise its own bound.
pub fn into_rlimit(n: u64) -> (bounds: ResourceLimit)
    ensures
        bounds.soft == n,
        bounds.hard == n,
{
    ResourceLimit { soft: n, hard: n }
}

impl Limit {
    /// The bounds to install for a ceiling of `size` on any resource.
    pub fn bounds(self, size: MemorySize) -> (bounds: ResourceLimit)
        ensures
            bounds.soft == size@,
            bounds.hard == size@,
    {
        into_rlimit(size.bytes())
    }

    /// What the attempt to bound this resource came to, given the value that
    /// the system call returned and the error number that the operating
    /// system left behind.
    ///
    /// A return of zero is success. Any other return is a failure that names
    /// this resource and carries the error number unchanged.
    pub fn outcome(self, ret: i32, errno: i32) -> (res: Result<(), Error>)
        ensures
            ret == 0 ==> res is Ok,
            ret != 0 ==> res == Err::<(), Error>(
                Error::ResourceLimitFailed { kind: self, errno },
            ),
    {
        if ret == 0 {
            Ok(())
        } else {
            Err(Error::ResourceLimitFailed { kind: self, errno })
        }
    }
}

} // verus!
