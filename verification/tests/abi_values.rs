use mevi::abi;
use mevi::regs::Registers;
use mevi::staging;

#[test]
fn syscall_numbers_are_those_of_libc() {
    assert_eq!(abi::SYS_WRITE as i64, libc::SYS_write);
    assert_eq!(abi::SYS_CLOSE as i64, libc::SYS_close);
    assert_eq!(abi::SYS_MMAP as i64, libc::SYS_mmap);
    assert_eq!(abi::SYS_MUNMAP as i64, libc::SYS_munmap);
    assert_eq!(abi::SYS_BRK as i64, libc::SYS_brk);
    assert_eq!(abi::SYS_RT_SIGPROCMASK as i64, libc::SYS_rt_sigprocmask);
    assert_eq!(abi::SYS_IOCTL as i64, libc::SYS_ioctl);
    assert_eq!(abi::SYS_SOCKET as i64, libc::SYS_socket);
    assert_eq!(abi::SYS_CONNECT as i64, libc::SYS_connect);
    assert_eq!(abi::SYS_SENDMSG as i64, libc::SYS_sendmsg);
    assert_eq!(abi::SYS_EXECVE as i64, libc::SYS_execve);
    assert_eq!(abi::SYS_SET_ROBUST_LIST as i64, libc::SYS_set_robust_list);
    assert_eq!(abi::SYS_EXECVEAT as i64, libc::SYS_execveat);
    assert_eq!(abi::SYS_USERFAULTFD as i64, libc::SYS_userfaultfd);
    assert_eq!(abi::SYS_RSEQ as i64, libc::SYS_rseq);
}

#[test]
fn memory_flags_are_those_of_libc() {
    assert_eq!(abi::PROT_READ as i32, libc::PROT_READ);
    assert_eq!(abi::PROT_WRITE as i32, libc::PROT_WRITE);
    assert_eq!(abi::PROT_READ_WRITE as i32, libc::PROT_READ | libc::PROT_WRITE);
    assert_eq!(abi::MAP_PRIVATE as i32, libc::MAP_PRIVATE);
    assert_eq!(abi::MAP_ANONYMOUS as i32, libc::MAP_ANONYMOUS);
    assert_eq!(abi::MAP_PRIVATE_ANONYMOUS as i32, libc::MAP_PRIVATE | libc::MAP_ANONYMOUS);
    assert_eq!(abi::MAP_FAILED, libc::MAP_FAILED as usize as u64);
    assert_eq!(abi::FD_NONE, (-1_i32) as u64);
    assert_eq!(abi::STAGING_SIZE, 0x1000);
}

#[test]
fn socket_constants_are_those_of_libc() {
    assert_eq!(abi::AF_UNIX as i32, libc::AF_UNIX);
    assert_eq!(abi::SOCK_STREAM as i32, libc::SOCK_STREAM);
    assert_eq!(abi::SOCK_CLOEXEC as i32, libc::SOCK_CLOEXEC);
    assert_eq!(abi::SOCK_STREAM_CLOEXEC as i32, libc::SOCK_STREAM | libc::SOCK_CLOEXEC);
    assert_eq!(abi::SOL_SOCKET as i32, libc::SOL_SOCKET);
    assert_eq!(abi::SCM_RIGHTS as i32, libc::SCM_RIGHTS);
}

#[test]
fn trace_constants_are_those_of_libc_and_nix() {
    assert_eq!(abi::PTRACE_O_TRACESYSGOOD as i32, libc::PTRACE_O_TRACESYSGOOD);
    assert_eq!(abi::PTRACE_O_TRACEFORK as i32, libc::PTRACE_O_TRACEFORK);
    assert_eq!(abi::PTRACE_O_TRACEVFORK as i32, libc::PTRACE_O_TRACEVFORK);
    assert_eq!(abi::PTRACE_O_TRACECLONE as i32, libc::PTRACE_O_TRACECLONE);
    let options = nix::sys::ptrace::Options::PTRACE_O_TRACESYSGOOD
        | nix::sys::ptrace::Options::PTRACE_O_TRACECLONE
        | nix::sys::ptrace::Options::PTRACE_O_TRACEFORK
        | nix::sys::ptrace::Options::PTRACE_O_TRACEVFORK;
    assert_eq!(abi::TRACE_OPTIONS as i32, options.bits());
    assert_eq!(abi::PTRACE_EVENT_FORK, libc::PTRACE_EVENT_FORK);
    assert_eq!(abi::PTRACE_EVENT_VFORK, libc::PTRACE_EVENT_VFORK);
    assert_eq!(abi::PTRACE_EVENT_CLONE, libc::PTRACE_EVENT_CLONE);
    assert_eq!(abi::SIGTRAP, nix::sys::signal::Signal::SIGTRAP as i32);
    assert_eq!(abi::SIGSTOP, nix::sys::signal::Signal::SIGSTOP as i32);
    assert_eq!(abi::ESRCH, nix::errno::Errno::ESRCH as i32);
    assert_eq!(abi::ECHILD, nix::errno::Errno::ECHILD as i32);
}

#[test]
fn userfaultfd_constants_have_their_kernel_values() {
    assert_eq!(abi::UFFD_API, 0xAA);
    // _IOWR(0xAA, 0x3F, struct uffdio_api) with a structure of 24 bytes
    assert_eq!(abi::UFFDIO_API, (3 << 30) | (24 << 16) | (0xAA << 8) | 0x3F);
    assert_eq!(abi::UFFD_FEATURE_EVENT_REMAP, 1 << 2);
    assert_eq!(abi::UFFD_FEATURE_EVENT_REMOVE, 1 << 3);
    assert_eq!(abi::UFFD_FEATURE_EVENT_UNMAP, 1 << 6);
    assert_eq!(
        abi::UFFD_FEATURES,
        abi::UFFD_FEATURE_EVENT_REMAP
            | abi::UFFD_FEATURE_EVENT_REMOVE
            | abi::UFFD_FEATURE_EVENT_UNMAP
    );
}

#[test]
fn structure_sizes_are_those_of_libc() {
    assert_eq!(staging::SOCKADDR_UN_SIZE, std::mem::size_of::<libc::sockaddr_un>());
    assert_eq!(
        staging::build_msghdr(0, 0, 0, 0).len(),
        std::mem::size_of::<libc::msghdr>()
    );
    assert_eq!(staging::build_iovec(0, 0).len(), std::mem::size_of::<libc::iovec>());
    assert_eq!(
        staging::build_control(0).len(),
        std::mem::size_of::<libc::cmsghdr>() + 8
    );
    assert_eq!(staging::build_uffdio_api(0, 0, 0).len(), 24);
    assert_eq!(std::mem::size_of::<libc::user_regs_struct>(), 27 * 8);
    assert_eq!(std::mem::size_of::<Registers>(), 27 * 8);
    assert_eq!(abi::WORD_SIZE as usize, std::mem::size_of::<usize>());
    assert_eq!(abi::SYSCALL_INSN_LEN, 2);
}
