//! What passes between the tracer and its driver.
//!
//! The tracer decides; the driver acts. Each [`Action`] names one operation
//! on the outside world, and the driver answers each with one [`Reply`].

use vstd::prelude::*;
use crate::regs::Registers;

verus! {

/// Identifies a tracee: the kernel's process or thread identifier,
/// sign-extended to 64 bits.
#[derive(Clone, Copy, Debug, PartialEq, Eq, Structural, Hash)]
pub struct TraceeId(pub u64);

/// Whether the pages of a region are in memory.
#[derive(Clone, Copy, Debug, PartialEq, Eq, Structural, Hash)]
pub enum MemState {
    Resident,
    NotResident,
}

/// A half-open range `[start, end)` of virtual addresses and its residency.
#[derive(Clone, Copy, Debug, PartialEq, Eq, Structural, Hash)]
pub struct MappedRegion {
    pub start: u64,
    pub end: u64,
    pub state: MemState,
}

impl MappedRegion {
    /// The range holds at least one address.
    pub open spec fn nonempty(self) -> bool {
        self.start < self.end
    }
}

/// What the tracer reports of a tracee.
#[derive(Clone, Copy, Debug, PartialEq, Eq, Structural, Hash)]
pub enum TraceeEvent {
    /// A new or grown region appeared.
    Mapped(MappedRegion),
    /// The tracee replaced its address space.
    Execve,
    /// The tracee terminated.
    Exit,
}

/// How a wait for a tracee ended. Signals are given by number.
#[derive(Clone, Copy, Debug, PartialEq, Eq, Structural, Hash)]
pub enum WaitStatus {
    /// The process exited with a status.
    Exited(TraceeId, i32),
    /// The process was killed by a signal; the flag tells of a core dump.
    Signaled(TraceeId, i32, bool),
    /// The process was stopped by a signal.
    Stopped(TraceeId, i32),
    /// The process was stopped by a trace event, given after the signal.
    PtraceEvent(TraceeId, i32, i32),
    /// The process was stopped at the entry to or the exit from a system call.
    PtraceSyscall(TraceeId),
    /// The process was resumed.
    Continued(TraceeId),
    /// Nothing changed.
    StillAlive,
}

/// One line of a tracee's memory map listing.
#[derive(Clone, Copy, Debug, PartialEq, Eq, Structural, Hash)]
pub struct MapEntry {
    /// First address of the region.
    pub start: u64,
    /// Length of the region in bytes.
    pub size: u64,
    /// Whether the listing names a file that backs the region.
    pub file_backed: bool,
}

/// Why the tracer gives up.
#[derive(Clone, Copy, Debug, PartialEq, Eq, Structural, Hash)]
pub enum Fatal {
    /// The command line names no command to run.
    NoCommand,
    /// An operation failed with this error number.
    Os(i32),
    /// A wait ended in a way the supervisor does not know.
    UnexpectedStatus,
    /// A tracee that was stepped through an injected call stopped for
    /// another reason than a system call.
    LostSync,
    /// The staging page could not be mapped.
    StagingFailed,
    /// An injected call, given by number, returned this negative value.
    CallFailed(u64, u64),
    /// The driver's reply does not answer the action it was given.
    Protocol,
}

/// One operation that the driver performs for the tracer.
#[derive(Clone, Copy, Debug, PartialEq, Eq, Structural, Hash)]
pub enum Action {
    /// Start the command with tracing requested before it executes.
    /// Answered by `Spawned`.
    Spawn,
    /// Wait for any tracee to stop. Answered by `Status`.
    Wait,
    /// Wait for this tracee to stop. Answered by `Status`.
    WaitFor(TraceeId),
    /// Set these trace options. Answered by `Done`.
    SetOptions(TraceeId, u64),
    /// Let the tracee run to its next system call stop and deliver this
    /// signal, none if zero. Answered by `Done`.
    Resume(TraceeId, i32),
    /// Read the registers. Answered by `Regs`.
    GetRegs(TraceeId),
    /// Write the registers. Answered by `Done`.
    SetRegs(TraceeId, Registers),
    /// Write a word at an address of the tracee. Answered by `Done`.
    Poke(TraceeId, u64, u64),
    /// Read the word at an address of the tracee. Answered by `Word`.
    Peek(TraceeId, u64),
    /// Read the tracee's memory map listing. Answered by `Maps`.
    ReadMaps(TraceeId),
    /// Send the event to the consumer. A `Mapped` event is sent with a fresh
    /// completion token. Answered by `Done`.
    Emit(TraceeId, TraceeEvent),
    /// Block until the consumer has dropped the completion token of the
    /// event sent last. Answered by `Done`.
    AwaitToken,
    /// Terminate cleanly. Not answered.
    Exit,
    /// Terminate with an error. Not answered.
    Abort(Fatal),
}

/// The driver's answer to an action.
#[derive(Debug, PartialEq, Eq)]
pub enum Reply {
    /// The operation succeeded and has nothing to report.
    Done,
    /// The command runs as this tracee.
    Spawned(TraceeId),
    /// A wait ended.
    Status(WaitStatus),
    /// The registers read.
    Regs(Registers),
    /// The word read.
    Word(u64),
    /// The lines of the memory map listing, in order.
    Maps(Vec<MapEntry>),
    /// The operation failed with this error number.
    Error(i32),
}

impl Action {
    /// The action ends the session.
    pub open spec fn terminal(self) -> bool {
        self is Exit || self is Abort
    }
}

} // verus!
