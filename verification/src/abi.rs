//! Numbers of the Linux x86-64 system call interface that the tracer relies on.
//!
//! Everything architecture-specific is collected here: system call numbers,
//! flag bits, signal and error numbers, and the length of the `syscall`
//! instruction.

use vstd::prelude::*;

verus! {

/// Length in bytes of the `syscall` instruction.
pub const SYSCALL_INSN_LEN: u64 = 2;

/// Size in bytes of a machine word as moved by the kernel's peek and poke.
pub const WORD_SIZE: u64 = 8;

pub const SYS_WRITE: u64 = 1;

pub const SYS_CLOSE: u64 = 3;

pub const SYS_MMAP: u64 = 9;

pub const SYS_MUNMAP: u64 = 11;

pub const SYS_BRK: u64 = 12;

pub const SYS_RT_SIGPROCMASK: u64 = 14;

pub const SYS_IOCTL: u64 = 16;

pub const SYS_SOCKET: u64 = 41;

pub const SYS_CONNECT: u64 = 42;

pub const SYS_SENDMSG: u64 = 46;

pub const SYS_EXECVE: u64 = 59;

pub const SYS_SET_ROBUST_LIST: u64 = 273;

pub const SYS_EXECVEAT: u64 = 322;

pub const SYS_USERFAULTFD: u64 = 323;

pub const SYS_RSEQ: u64 = 334;

pub const PROT_READ: u64 = 1;

pub const PROT_WRITE: u64 = 2;

/// `PROT_READ | PROT_WRITE`.
pub const PROT_READ_WRITE: u64 = 3;

pub const MAP_PRIVATE: u64 = 0x02;

pub const MAP_ANONYMOUS: u64 = 0x20;

/// `MAP_PRIVATE | MAP_ANONYMOUS`.
pub const MAP_PRIVATE_ANONYMOUS: u64 = 0x22;

/// The value `mmap` reports on failure, `(void *) -1`.
pub const MAP_FAILED: u64 = 0xffff_ffff_ffff_ffff;

/// The file descriptor argument `-1` of an anonymous `mmap`, as a register value.
pub const FD_NONE: u64 = 0xffff_ffff_ffff_ffff;

pub const AF_UNIX: u64 = 1;

pub const SOCK_STREAM: u64 = 1;

pub const SOCK_CLOEXEC: u64 = 0x8_0000;

/// `SOCK_STREAM | SOCK_CLOEXEC`.
pub const SOCK_STREAM_CLOEXEC: u64 = 0x8_0001;

pub const SOL_SOCKET: u32 = 1;

pub const SCM_RIGHTS: u32 = 1;

/// The `api` field that the `UFFDIO_API` handshake expects.
pub const UFFD_API: u64 = 0xAA;

/// Request number of the `UFFDIO_API` ioctl.
pub const UFFDIO_API: u64 = 0xc018_aa3f;

pub const UFFD_FEATURE_EVENT_REMAP: u64 = 0x04;

pub const UFFD_FEATURE_EVENT_REMOVE: u64 = 0x08;

pub const UFFD_FEATURE_EVENT_UNMAP: u64 = 0x40;

/// `EVENT_REMAP | EVENT_REMOVE | EVENT_UNMAP`: the features asked of a new
/// `userfaultfd`.
pub const UFFD_FEATURES: u64 = 0x4c;

pub const PTRACE_O_TRACESYSGOOD: u64 = 0x01;

pub const PTRACE_O_TRACEFORK: u64 = 0x02;

pub const PTRACE_O_TRACEVFORK: u64 = 0x04;

pub const PTRACE_O_TRACECLONE: u64 = 0x08;

/// `TRACESYSGOOD | TRACECLONE | TRACEFORK | TRACEVFORK`: the options set on
/// the root tracee.
pub const TRACE_OPTIONS: u64 = 0x0f;

pub const PTRACE_EVENT_FORK: i32 = 1;

pub const PTRACE_EVENT_VFORK: i32 = 2;

pub const PTRACE_EVENT_CLONE: i32 = 3;

pub const SIGTRAP: i32 = 5;

pub const SIGSTOP: i32 = 19;

/// "No such process": the tracee is gone.
pub const ESRCH: i32 = 3;

/// "No child processes": nothing is left to wait for.
pub const ECHILD: i32 = 10;

/// Size in bytes of the staging page.
pub const STAGING_SIZE: u64 = 0x1000;

/// The combined flags are the bitwise unions that their names say.
pub proof fn lemma_combined_flags()
    ensures
        PROT_READ_WRITE == PROT_READ | PROT_WRITE,
        MAP_PRIVATE_ANONYMOUS == MAP_PRIVATE | MAP_ANONYMOUS,
        SOCK_STREAM_CLOEXEC == SOCK_STREAM | SOCK_CLOEXEC,
        UFFD_FEATURES == UFFD_FEATURE_EVENT_REMAP | UFFD_FEATURE_EVENT_REMOVE
            | UFFD_FEATURE_EVENT_UNMAP,
        TRACE_OPTIONS == PTRACE_O_TRACESYSGOOD | PTRACE_O_TRACECLONE | PTRACE_O_TRACEFORK
            | PTRACE_O_TRACEVFORK,
{
    assert(3u64 == 1u64 | 2u64) by (bit_vector);
    assert(0x22u64 == 0x02u64 | 0x20u64) by (bit_vector);
    assert(0x8_0001u64 == 1u64 | 0x8_0000u64) by (bit_vector);
    assert(0x4cu64 == 0x04u64 | 0x08u64 | 0x40u64) by (bit_vector);
    assert(0x0fu64 == 0x01u64 | 0x08u64 | 0x02u64 | 0x04u64) by (bit_vector);
}

} // verus!
