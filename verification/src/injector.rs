//! The handoff: making a stopped tracee create a `userfaultfd`, hand it to
//! the consumer over a Unix socket, and return to where it was.
//!
//! An [`Injector`] is made from the registers captured at a system call
//! exit. It runs a fixed sequence of stages. A call stage rewrites the
//! registers so that the tracee performs a system call of the injector's
//! choosing, steps the tracee through the entry and the exit of that call,
//! and reads the result. A write stage pokes the image of a kernel structure
//! into the staging page, word by word; a read stage peeks words back. The
//! last stage restores the captured registers.

use vstd::prelude::*;
use crate::abi::{
    AF_UNIX, ESRCH, FD_NONE, MAP_FAILED, MAP_PRIVATE_ANONYMOUS, PROT_READ_WRITE, SCM_RIGHTS,
    SOCK_STREAM_CLOEXEC, SOL_SOCKET, STAGING_SIZE, SYS_CLOSE, SYS_CONNECT, SYS_IOCTL, SYS_MMAP, SYS_MUNMAP,
    SYS_SENDMSG, SYS_SOCKET, SYS_USERFAULTFD, SYS_WRITE, UFFDIO_API, UFFD_API, UFFD_FEATURES,
    WORD_SIZE,
};
use crate::protocol::{Action, Fatal, Reply, TraceeId, WaitStatus};
use crate::regs::Registers;
use crate::staging::{
    build_control, build_iovec, build_msghdr, build_sockaddr_un, build_uffdio_api, control_image,
    iovec_image, le64, lemma_control_words, lemma_iovec_words, lemma_msghdr_words,
    lemma_uffdio_api_words, lemma_word_of_le64, lemma_word_of_padded32, lemma_words_of_one,
    msghdr_image, padded32, push_le32, push_le64, push_zeros, sockaddr_un_image,
    sockaddr_un_len, uffdio_api_image, word_at, words_of, CMSG_LEN_ONE_FD, CMSG_SPACE_ONE_FD, CONTROL_OFFSET,
    IOVEC_OFFSET, MSGHDR_OFFSET, PAYLOAD_LEN, PAYLOAD_OFFSET,
};

verus! {

/// The stages of the handoff, in the order in which they run.
#[derive(Clone, Copy, Debug, PartialEq, Eq, Structural, Hash)]
pub enum Stage {
    /// `mmap` one anonymous page for staging.
    MapStaging,
    /// `userfaultfd(0)`.
    OpenUffd,
    /// Write the `uffdio_api` request.
    WriteApi,
    /// `ioctl(uffd, UFFDIO_API, staging)`.
    Handshake,
    /// Read the `uffdio_api` back.
    ReadApi,
    /// `socket(AF_UNIX, SOCK_STREAM | SOCK_CLOEXEC, 0)`.
    OpenSocket,
    /// Write the `sockaddr_un` of the rendezvous socket.
    WriteAddress,
    /// `connect(sock, staging, len)`.
    Connect,
    /// Write the tracee's identifier.
    WritePid,
    /// `write(sock, staging, 8)`.
    SendPid,
    /// Write the message payload.
    WritePayload,
    /// Write the I/O vector.
    WriteIovec,
    /// Write the control message with the descriptor.
    WriteControl,
    /// Write the message header.
    WriteHeader,
    /// `sendmsg(sock, staging, 0)`.
    SendDescriptor,
    /// `close(sock)`.
    CloseSocket,
    /// `close(uffd)`.
    CloseUffd,
    /// `munmap(staging, size)`.
    Unmap,
    /// Write the captured registers back.
    Restore,
}

/// What a stage does.
#[derive(Clone, Copy, Debug, PartialEq, Eq, Structural, Hash)]
pub enum StageKind {
    /// Performs a system call in the tracee.
    Call,
    /// Writes an image to the staging page.
    Write,
    /// Reads words from the staging page.
    Read,
    /// Restores the registers.
    Restore,
}

/// How far an injector has come after a reply.
#[derive(Clone, Copy, Debug, PartialEq, Eq, Structural, Hash)]
pub enum Progress {
    /// The driver performs this action next.
    Continue(Action),
    /// The handoff is complete and the registers are restored.
    Finished,
    /// The tracee is gone; the handoff is abandoned.
    Gone,
    /// The handoff failed; the tracer gives up.
    Failed(Fatal),
}

/// Steps of a call stage: write the frame, resume and wait twice, read the
/// registers.
pub const CALL_STEPS: u64 = 6;

/// Words read back from the staging page after the handshake.
pub const API_WORDS: u64 = 3;

/// The rendezvous socket's path, `/tmp/mevi.sock`, with its terminator.
pub open spec fn rendezvous_path() -> Seq<u8> {
    seq![47u8, 116u8, 109u8, 112u8, 47u8, 109u8, 101u8, 118u8, 105u8, 46u8, 115u8, 111u8, 99u8,
        107u8, 0u8]
}

/// Length of the address handed to `connect`: the offset of the path in a
/// `sockaddr_un` plus the length of the path with its terminator.
pub const RENDEZVOUS_ADDR_LEN: u64 = 17;

/// The length handed to `connect` is that of the rendezvous address.
pub proof fn lemma_rendezvous_addr_len()
    ensures
        RENDEZVOUS_ADDR_LEN == sockaddr_un_len(rendezvous_path().len()),
{
}

/// The largest value that a system call returns as an address.
pub const ADDRESS_MAX: u64 = 0x7fff_ffff_ffff_ffff;

/// The low 32 bits of a returned value.
pub open spec fn low32(ret: u64) -> u32 {
    (ret % 0x1_0000_0000) as u32
}

/// The returned value, read as a C `int`, is negative.
pub open spec fn negative_int(ret: u64) -> bool {
    low32(ret) >= 0x8000_0000
}

/// The returned value, read as a C `long`, is negative.
pub open spec fn negative_long(ret: u64) -> bool {
    ret > ADDRESS_MAX
}

impl Stage {
    /// What this stage does.
    pub open spec fn spec_kind(self) -> StageKind {
        match self {
            Stage::WriteApi
            | Stage::WriteAddress
            | Stage::WritePid
            | Stage::WritePayload
            | Stage::WriteIovec
            | Stage::WriteControl
            | Stage::WriteHeader => StageKind::Write,
            Stage::ReadApi => StageKind::Read,
            Stage::Restore => StageKind::Restore,
            _ => StageKind::Call,
        }
    }

    /// What this stage does.
    pub fn kind(self) -> (kind: StageKind)
        ensures
            kind == self.spec_kind(),
    {
        match self {
            Stage::WriteApi
            | Stage::WriteAddress
            | Stage::WritePid
            | Stage::WritePayload
            | Stage::WriteIovec
            | Stage::WriteControl
            | Stage::WriteHeader => StageKind::Write,
            Stage::ReadApi => StageKind::Read,
            Stage::Restore => StageKind::Restore,
            _ => StageKind::Call,
        }
    }

    /// The stage that follows; the last stage is followed by itself.
    pub open spec fn spec_next(self) -> Stage {
        match self {
            Stage::MapStaging => Stage::OpenUffd,
            Stage::OpenUffd => Stage::WriteApi,
            Stage::WriteApi => Stage::Handshake,
            Stage::Handshake => Stage::ReadApi,
            Stage::ReadApi => Stage::OpenSocket,
            Stage::OpenSocket => Stage::WriteAddress,
            Stage::WriteAddress => Stage::Connect,
            Stage::Connect => Stage::WritePid,
            Stage::WritePid => Stage::SendPid,
            Stage::SendPid => Stage::WritePayload,
            Stage::WritePayload => Stage::WriteIovec,
            Stage::WriteIovec => Stage::WriteControl,
            Stage::WriteControl => Stage::WriteHeader,
            Stage::WriteHeader => Stage::SendDescriptor,
            Stage::SendDescriptor => Stage::CloseSocket,
            Stage::CloseSocket => Stage::CloseUffd,
            Stage::CloseUffd => Stage::Unmap,
            Stage::Unmap => Stage::Restore,
            Stage::Restore => Stage::Restore,
        }
    }

    /// The stage that follows.
    pub fn next(self) -> (next: Stage)
        ensures
            next == self.spec_next(),
    {
        match self {
            Stage::MapStaging => Stage::OpenUffd,
            Stage::OpenUffd => Stage::WriteApi,
            Stage::WriteApi => Stage::Handshake,
            Stage::Handshake => Stage::ReadApi,
            Stage::ReadApi => Stage::OpenSocket,
            Stage::OpenSocket => Stage::WriteAddress,
            Stage::WriteAddress => Stage::Connect,
            Stage::Connect => Stage::WritePid,
            Stage::WritePid => Stage::SendPid,
            Stage::SendPid => Stage::WritePayload,
            Stage::WritePayload => Stage::WriteIovec,
            Stage::WriteIovec => Stage::WriteControl,
            Stage::WriteControl => Stage::WriteHeader,
            Stage::WriteHeader => Stage::SendDescriptor,
            Stage::SendDescriptor => Stage::CloseSocket,
            Stage::CloseSocket => Stage::CloseUffd,
            Stage::CloseUffd => Stage::Unmap,
            Stage::Unmap => Stage::Restore,
            Stage::Restore => Stage::Restore,
        }
    }

    /// Where in the staging page a write or read stage begins.
    pub open spec fn spec_offset(self) -> u64 {
        match self {
            Stage::WritePayload => PAYLOAD_OFFSET,
            Stage::WriteIovec => IOVEC_OFFSET,
            Stage::WriteControl => CONTROL_OFFSET,
            Stage::WriteHeader => MSGHDR_OFFSET,
            _ => 0,
        }
    }

    /// Where in the staging page a write or read stage begins.
    pub fn offset(self) -> (offset: u64)
        ensures
            offset == self.spec_offset(),
    {
        match self {
            Stage::WritePayload => PAYLOAD_OFFSET,
            Stage::WriteIovec => IOVEC_OFFSET,
            Stage::WriteControl => CONTROL_OFFSET,
            Stage::WriteHeader => MSGHDR_OFFSET,
            _ => 0,
        }
    }

    /// How many actions the stage takes: the steps of a call, the words of
    /// a transfer, one for the restore.
    pub open spec fn spec_steps(self) -> u64 {
        match self {
            Stage::WriteApi => 3,
            Stage::ReadApi => API_WORDS,
            Stage::WriteAddress => 13,
            Stage::WritePid => 1,
            Stage::WritePayload => 1,
            Stage::WriteIovec => 2,
            Stage::WriteControl => 3,
            Stage::WriteHeader => 7,
            Stage::Restore => 1,
            _ => CALL_STEPS,
        }
    }

    /// How many actions the stage takes.
    pub fn steps(self) -> (steps: u64)
        ensures
            steps == self.spec_steps(),
    {
        match self {
            Stage::WriteApi => 3,
            Stage::ReadApi => API_WORDS,
            Stage::WriteAddress => 13,
            Stage::WritePid => 1,
            Stage::WritePayload => 1,
            Stage::WriteIovec => 2,
            Stage::WriteControl => 3,
            Stage::WriteHeader => 7,
            Stage::Restore => 1,
            _ => CALL_STEPS,
        }
    }
}

/// A `uffdio_api` by its fields.
#[derive(Clone, Copy, Debug, PartialEq, Eq, Structural, Hash)]
pub struct UffdioApi {
    pub api: u64,
    pub features: u64,
    pub ioctls: u64,
}

/// The state of a handoff in progress.
#[derive(Clone, Copy, Debug, PartialEq, Eq, Structural, Hash)]
pub struct Injector {
    /// The tracee that is driven.
    pub tid: TraceeId,
    /// The registers captured at the system call exit.
    pub saved: Registers,
    /// The stage that is running.
    pub stage: Stage,
    /// Index in the stage of the action that awaits its reply.
    pub step: u64,
    /// Address of the staging page, once mapped.
    pub staging: u64,
    /// The `userfaultfd` descriptor in the tracee, once open.
    pub uffd: u32,
    /// The socket descriptor in the tracee, once open.
    pub sock: u32,
    /// The `uffdio_api` as the kernel left it after the handshake.
    pub granted: UffdioApi,
}

/// The bytes of the rendezvous socket's path.
pub fn rendezvous_path_bytes() -> (path: Vec<u8>)
    ensures
        path@ == rendezvous_path(),
{
    let path: Vec<u8> = vec![47u8, 116u8, 109u8, 112u8, 47u8, 109u8, 101u8, 118u8, 105u8, 46u8,
        115u8, 111u8, 99u8, 107u8, 0u8];
    assert(path@ =~= rendezvous_path());
    path
}

impl Injector {
    /// The state is one that a handoff can be in.
    pub open spec fn wf(self) -> bool {
        &&& self.step < self.stage.spec_steps()
        &&& self.staging <= ADDRESS_MAX
        &&& self.uffd < 0x8000_0000
        &&& self.sock < 0x8000_0000
    }

    /// The injector as it starts: at the first step of the first stage.
    pub open spec fn spec_new(tid: TraceeId, saved: Registers) -> Injector {
        Injector {
            tid,
            saved,
            stage: Stage::MapStaging,
            step: 0,
            staging: 0,
            uffd: 0,
            sock: 0,
            granted: UffdioApi { api: 0, features: 0, ioctls: 0 },
        }
    }

    /// The injector with the same bindings at the start of `stage`.
    pub open spec fn spec_at(self, stage: Stage) -> Injector {
        Injector { stage, step: 0, ..self }
    }

    /// Number and arguments of the system call of a call stage.
    pub open spec fn spec_call(self) -> (u64, Seq<u64>) {
        match self.stage {
            Stage::MapStaging => (
                SYS_MMAP,
                seq![0u64, STAGING_SIZE, PROT_READ_WRITE, MAP_PRIVATE_ANONYMOUS, FD_NONE, 0u64],
            ),
            Stage::OpenUffd => (SYS_USERFAULTFD, seq![0u64]),
            Stage::Handshake => (SYS_IOCTL, seq![self.uffd as u64, UFFDIO_API, self.staging]),
            Stage::OpenSocket => (SYS_SOCKET, seq![AF_UNIX, SOCK_STREAM_CLOEXEC, 0u64]),
            Stage::Connect => (
                SYS_CONNECT,
                seq![self.sock as u64, self.staging, RENDEZVOUS_ADDR_LEN],
            ),
            Stage::SendPid => (SYS_WRITE, seq![self.sock as u64, self.staging, WORD_SIZE]),
            Stage::SendDescriptor => (SYS_SENDMSG, seq![self.sock as u64, self.staging, 0u64]),
            Stage::CloseSocket => (SYS_CLOSE, seq![self.sock as u64]),
            Stage::CloseUffd => (SYS_CLOSE, seq![self.uffd as u64]),
            _ => (SYS_MUNMAP, seq![self.staging, STAGING_SIZE]),
        }
    }

    /// The image that a write stage puts into the staging page.
    pub open spec fn spec_image(self) -> Seq<u8> {
        match self.stage {
            Stage::WriteApi => uffdio_api_image(UFFD_API, UFFD_FEATURES, 0),
            Stage::WriteAddress => sockaddr_un_image(rendezvous_path()),
            Stage::WritePid => le64(self.tid.0),
            Stage::WritePayload => padded32(0),
            Stage::WriteIovec => iovec_image((self.staging + PAYLOAD_OFFSET) as u64, PAYLOAD_LEN),
            Stage::WriteControl => control_image(self.uffd),
            _ => msghdr_image(
                (self.staging + IOVEC_OFFSET) as u64,
                1,
                (self.staging + CONTROL_OFFSET) as u64,
                CMSG_SPACE_ONE_FD,
            ),
        }
    }

    /// Address in the tracee of the word that the current step transfers.
    pub open spec fn spec_address(self) -> u64 {
        (self.staging + self.stage.spec_offset() + WORD_SIZE * self.step) as u64
    }

    /// The action that awaits its reply.
    pub open spec fn spec_current(self) -> Action {
        match self.stage.spec_kind() {
            StageKind::Call => {
                if self.step == 0 {
                    Action::SetRegs(
                        self.tid,
                        self.saved.spec_call_frame(self.spec_call().0, self.spec_call().1),
                    )
                } else if self.step == 1 || self.step == 3 {
                    Action::Resume(self.tid, 0)
                } else if self.step == 2 || self.step == 4 {
                    Action::WaitFor(self.tid)
                } else {
                    Action::GetRegs(self.tid)
                }
            },
            StageKind::Write => Action::Poke(
                self.tid,
                self.spec_address(),
                words_of(self.spec_image())[self.step as int],
            ),
            StageKind::Read => Action::Peek(self.tid, self.spec_address()),
            StageKind::Restore => Action::SetRegs(self.tid, self.saved),
        }
    }

    /// The injector at the first step of the next stage, and its action.
    pub open spec fn spec_enter_next(self) -> (Injector, Progress) {
        let entered = self.spec_at(self.stage.spec_next());
        (entered, Progress::Continue(entered.spec_current()))
    }

    /// The injector one step on in its stage, or in the next stage when the
    /// stage is through.
    pub open spec fn spec_step_on(self) -> (Injector, Progress) {
        if self.step + 1 < self.stage.spec_steps() {
            let stepped = Injector { step: (self.step + 1) as u64, ..self };
            (stepped, Progress::Continue(stepped.spec_current()))
        } else {
            self.spec_enter_next()
        }
    }

    /// What follows when the call of the current stage has returned `ret`.
    ///
    /// The staging `mmap` fails on `MAP_FAILED` and on any other negative
    /// address. The calls that open the descriptors, the handshake, the
    /// connect and the two sends fail on a negative `int`. The two closes
    /// and the unmapping are not examined.
    pub open spec fn spec_returned(self, ret: u64) -> (Injector, Progress) {
        match self.stage {
            Stage::MapStaging => {
                if ret == MAP_FAILED {
                    (self, Progress::Failed(Fatal::StagingFailed))
                } else if negative_long(ret) {
                    (self, Progress::Failed(Fatal::CallFailed(SYS_MMAP, ret)))
                } else {
                    Injector { staging: ret, ..self }.spec_enter_next()
                }
            },
            Stage::OpenUffd => {
                if negative_int(ret) {
                    (self, Progress::Failed(Fatal::CallFailed(SYS_USERFAULTFD, ret)))
                } else {
                    Injector { uffd: low32(ret), ..self }.spec_enter_next()
                }
            },
            Stage::OpenSocket => {
                if negative_int(ret) {
                    (self, Progress::Failed(Fatal::CallFailed(SYS_SOCKET, ret)))
                } else {
                    Injector { sock: low32(ret), ..self }.spec_enter_next()
                }
            },
            Stage::Handshake | Stage::Connect | Stage::SendPid | Stage::SendDescriptor => {
                if negative_int(ret) {
                    (self, Progress::Failed(Fatal::CallFailed(self.spec_call().0, ret)))
                } else {
                    self.spec_enter_next()
                }
            },
            _ => self.spec_enter_next(),
        }
    }

    /// The injector with the word read at the current step recorded.
    pub open spec fn spec_record(self, word: u64) -> Injector {
        if self.step == 0 {
            Injector { granted: UffdioApi { api: word, ..self.granted }, ..self }
        } else if self.step == 1 {
            Injector { granted: UffdioApi { features: word, ..self.granted }, ..self }
        } else {
            Injector { granted: UffdioApi { ioctls: word, ..self.granted }, ..self }
        }
    }

    /// The injector after `reply` to its current action, and how it goes on.
    ///
    /// An error `ESRCH` means the tracee is gone; any other error is fatal.
    /// During a call stage, a wait that does not end in a system call stop
    /// is fatal. A reply of a kind that does not answer the current action
    /// is fatal.
    pub open spec fn spec_advance(self, reply: Reply) -> (Injector, Progress) {
        match reply {
            Reply::Error(e) => {
                if e == ESRCH {
                    (self, Progress::Gone)
                } else {
                    (self, Progress::Failed(Fatal::Os(e)))
                }
            },
            Reply::Done => {
                match self.stage.spec_kind() {
                    StageKind::Call => {
                        if self.step == 0 || self.step == 1 || self.step == 3 {
                            self.spec_step_on()
                        } else {
                            (self, Progress::Failed(Fatal::Protocol))
                        }
                    },
                    StageKind::Write => self.spec_step_on(),
                    StageKind::Read => (self, Progress::Failed(Fatal::Protocol)),
                    StageKind::Restore => (self, Progress::Finished),
                }
            },
            Reply::Status(status) => {
                if self.stage.spec_kind() == StageKind::Call && (self.step == 2 || self.step == 4) {
                    if status is PtraceSyscall {
                        self.spec_step_on()
                    } else {
                        (self, Progress::Failed(Fatal::LostSync))
                    }
                } else {
                    (self, Progress::Failed(Fatal::Protocol))
                }
            },
            Reply::Regs(regs) => {
                if self.stage.spec_kind() == StageKind::Call && self.step == 5 {
                    self.spec_returned(regs.rax)
                } else {
                    (self, Progress::Failed(Fatal::Protocol))
                }
            },
            Reply::Word(word) => {
                if self.stage.spec_kind() == StageKind::Read {
                    self.spec_record(word).spec_step_on()
                } else {
                    (self, Progress::Failed(Fatal::Protocol))
                }
            },
            _ => (self, Progress::Failed(Fatal::Protocol)),
        }
    }

    /// Starts a handoff for `tid` from the registers captured at its system
    /// call exit. The first action is [`Injector::current`].
    pub fn new(tid: TraceeId, saved: Registers) -> (injector: Injector)
        ensures
            injector == Injector::spec_new(tid, saved),
            injector.wf(),
    {
        Injector {
            tid,
            saved,
            stage: Stage::MapStaging,
            step: 0,
            staging: 0,
            uffd: 0,
            sock: 0,
            granted: UffdioApi { api: 0, features: 0, ioctls: 0 },
        }
    }

    /// Number and arguments of the system call of the current call stage.
    pub fn call(&self) -> (call: (u64, Vec<u64>))
        ensures
            (call.0, call.1@) == self.spec_call(),
            call.1@.len() <= 6,
    {
        let sock: u64 = self.sock as u64;
        let uffd: u64 = self.uffd as u64;
        let (nr, args): (u64, Vec<u64>) = match self.stage {
            Stage::MapStaging => (
                SYS_MMAP,
                vec![0u64, STAGING_SIZE, PROT_READ_WRITE, MAP_PRIVATE_ANONYMOUS, FD_NONE, 0u64],
            ),
            Stage::OpenUffd => (SYS_USERFAULTFD, vec![0u64]),
            Stage::Handshake => (SYS_IOCTL, vec![uffd, UFFDIO_API, self.staging]),
            Stage::OpenSocket => (SYS_SOCKET, vec![AF_UNIX, SOCK_STREAM_CLOEXEC, 0u64]),
            Stage::Connect => (SYS_CONNECT, vec![sock, self.staging, RENDEZVOUS_ADDR_LEN]),
            Stage::SendPid => (SYS_WRITE, vec![sock, self.staging, WORD_SIZE]),
            Stage::SendDescriptor => (SYS_SENDMSG, vec![sock, self.staging, 0u64]),
            Stage::CloseSocket => (SYS_CLOSE, vec![sock]),
            Stage::CloseUffd => (SYS_CLOSE, vec![uffd]),
            _ => (SYS_MUNMAP, vec![self.staging, STAGING_SIZE]),
        };
        assert(args@ =~= self.spec_call().1);
        (nr, args)
    }

    /// The image that the current write stage puts into the staging page.
    pub fn image(&self) -> (image: Vec<u8>)
        requires
            self.wf(),
        ensures
            image@ == self.spec_image(),
    {
        match self.stage {
            Stage::WriteApi => build_uffdio_api(UFFD_API, UFFD_FEATURES, 0),
            Stage::WriteAddress => {
                let path: Vec<u8> = rendezvous_path_bytes();
                build_sockaddr_un(&path)
            },
            Stage::WritePid => {
                let mut image: Vec<u8> = Vec::new();
                push_le64(&mut image, self.tid.0);
                assert(image@ =~= le64(self.tid.0));
                image
            },
            Stage::WritePayload => {
                let mut image: Vec<u8> = Vec::new();
                push_le32(&mut image, 0);
                push_zeros(&mut image, 4);
                assert(image@ =~= padded32(0));
                image
            },
            Stage::WriteIovec => build_iovec(self.staging + PAYLOAD_OFFSET, PAYLOAD_LEN),
            Stage::WriteControl => build_control(self.uffd),
            _ => build_msghdr(
                self.staging + IOVEC_OFFSET,
                1,
                self.staging + CONTROL_OFFSET,
                CMSG_SPACE_ONE_FD,
            ),
        }
    }

    /// A write stage transfers as many words as its image holds.
    pub proof fn lemma_image_words(self)
        requires
            self.stage.spec_kind() == StageKind::Write,
        ensures
            words_of(self.spec_image()).len() == self.stage.spec_steps(),
            self.spec_image().len() / 8 == self.stage.spec_steps(),
    {
    }

    /// The action that awaits its reply.
    pub fn current(&self) -> (action: Action)
        requires
            self.wf(),
        ensures
            action == self.spec_current(),
    {
        match self.stage.kind() {
            StageKind::Call => {
                if self.step == 0 {
                    let (nr, args): (u64, Vec<u64>) = self.call();
                    Action::SetRegs(self.tid, self.saved.call_frame(nr, &args))
                } else if self.step == 1 || self.step == 3 {
                    Action::Resume(self.tid, 0)
                } else if self.step == 2 || self.step == 4 {
                    Action::WaitFor(self.tid)
                } else {
                    Action::GetRegs(self.tid)
                }
            },
            StageKind::Write => {
                let image: Vec<u8> = self.image();
                proof {
                    self.lemma_image_words();
                }
                let start: usize = (WORD_SIZE * self.step) as usize;
                let word: u64 = word_at(&image, start);
                Action::Poke(self.tid, self.staging + self.stage.offset() + WORD_SIZE * self.step, word)
            },
            StageKind::Read => Action::Peek(
                self.tid,
                self.staging + self.stage.offset() + WORD_SIZE * self.step,
            ),
            StageKind::Restore => Action::SetRegs(self.tid, self.saved),
        }
    }

    fn enter_next(&mut self) -> (progress: Progress)
        requires
            old(self).wf(),
        ensures
            (*final(self), progress) == old(self).spec_enter_next(),
            final(self).wf(),
    {
        self.stage = self.stage.next();
        self.step = 0;
        Progress::Continue(self.current())
    }

    fn step_on(&mut self) -> (progress: Progress)
        requires
            old(self).wf(),
        ensures
            (*final(self), progress) == old(self).spec_step_on(),
            final(self).wf(),
    {
        if self.step + 1 < self.stage.steps() {
            self.step = self.step + 1;
            Progress::Continue(self.current())
        } else {
            self.enter_next()
        }
    }

    fn returned(&mut self, ret: u64) -> (progress: Progress)
        requires
            old(self).wf(),
        ensures
            (*final(self), progress) == old(self).spec_returned(ret),
            final(self).wf(),
    {
        let low: u64 = ret % 0x1_0000_0000;
        let negative: bool = low >= 0x8000_0000;
        match self.stage {
            Stage::MapStaging => {
                if ret == MAP_FAILED {
                    Progress::Failed(Fatal::StagingFailed)
                } else if ret > ADDRESS_MAX {
                    Progress::Failed(Fatal::CallFailed(SYS_MMAP, ret))
                } else {
                    self.staging = ret;
                    self.enter_next()
                }
            },
            Stage::OpenUffd => {
                if negative {
                    Progress::Failed(Fatal::CallFailed(SYS_USERFAULTFD, ret))
                } else {
                    self.uffd = low as u32;
                    self.enter_next()
                }
            },
            Stage::OpenSocket => {
                if negative {
                    Progress::Failed(Fatal::CallFailed(SYS_SOCKET, ret))
                } else {
                    self.sock = low as u32;
                    self.enter_next()
                }
            },
            Stage::Handshake | Stage::Connect | Stage::SendPid | Stage::SendDescriptor => {
                if negative {
                    let (nr, _args): (u64, Vec<u64>) = self.call();
                    Progress::Failed(Fatal::CallFailed(nr, ret))
                } else {
                    self.enter_next()
                }
            },
            _ => self.enter_next(),
        }
    }

    fn record(&mut self, word: u64)
        ensures
            *final(self) == old(self).spec_record(word),
    {
        if self.step == 0 {
            self.granted.api = word;
        } else if self.step == 1 {
            self.granted.features = word;
        } else {
            self.granted.ioctls = word;
        }
    }

    /// Takes the reply to the current action and says how the handoff goes
    /// on. After `Continue` the injector awaits the reply to that action.
    pub fn advance(&mut self, reply: &Reply) -> (progress: Progress)
        requires
            old(self).wf(),
        ensures
            (*final(self), progress) == old(self).spec_advance(*reply),
            final(self).wf(),
    {
        let kind: StageKind = self.stage.kind();
        match reply {
            Reply::Error(e) => {
                if *e == ESRCH {
                    Progress::Gone
                } else {
                    Progress::Failed(Fatal::Os(*e))
                }
            },
            Reply::Done => {
                match kind {
                    StageKind::Call => {
                        if self.step == 0 || self.step == 1 || self.step == 3 {
                            self.step_on()
                        } else {
                            Progress::Failed(Fatal::Protocol)
                        }
                    },
                    StageKind::Write => self.step_on(),
                    StageKind::Read => Progress::Failed(Fatal::Protocol),
                    StageKind::Restore => Progress::Finished,
                }
            },
            Reply::Status(status) => {
                match kind {
                    StageKind::Call => {
                        if self.step == 2 || self.step == 4 {
                            match status {
                                WaitStatus::PtraceSyscall(_) => self.step_on(),
                                _ => Progress::Failed(Fatal::LostSync),
                            }
                        } else {
                            Progress::Failed(Fatal::Protocol)
                        }
                    },
                    _ => Progress::Failed(Fatal::Protocol),
                }
            },
            Reply::Regs(regs) => {
                match kind {
                    StageKind::Call => {
                        if self.step == 5 {
                            self.returned(regs.rax)
                        } else {
                            Progress::Failed(Fatal::Protocol)
                        }
                    },
                    _ => Progress::Failed(Fatal::Protocol),
                }
            },
            Reply::Word(word) => {
                match kind {
                    StageKind::Read => {
                        self.record(*word);
                        self.step_on()
                    },
                    _ => Progress::Failed(Fatal::Protocol),
                }
            },
            _ => Progress::Failed(Fatal::Protocol),
        }
    }
}

/// A reply leads from a state that a handoff can be in to another.
pub proof fn lemma_advance_keeps_wf(injector: Injector, reply: Reply)
    requires
        injector.wf(),
    ensures
        injector.spec_advance(reply).0.wf(),
{
}

/// A handoff sends no event and awaits no token: its actions write and
/// read registers and memory, resume the tracee and wait for it.
pub proof fn lemma_handoff_sends_nothing(injector: Injector, reply: Reply)
    ensures
        injector.spec_advance(reply).1 matches Progress::Continue(action) ==> !(action is Emit)
            && !(action is AwaitToken),
{
}

/// The tracee that an action operates on, if it operates on one.
pub open spec fn target(action: Action) -> Option<TraceeId> {
    match action {
        Action::WaitFor(tid) => Some(tid),
        Action::SetOptions(tid, _) => Some(tid),
        Action::Resume(tid, _) => Some(tid),
        Action::GetRegs(tid) => Some(tid),
        Action::SetRegs(tid, _) => Some(tid),
        Action::Poke(tid, _, _) => Some(tid),
        Action::Peek(tid, _) => Some(tid),
        Action::ReadMaps(tid) => Some(tid),
        Action::Emit(tid, _) => Some(tid),
        _ => None,
    }
}

/// Every action of a handoff operates on the tracee that the handoff was
/// started for, and no reply changes that tracee or the captured registers.
pub proof fn lemma_handoff_stays_with_tracee(injector: Injector, reply: Reply)
    ensures
        target(injector.spec_current()) == Some(injector.tid),
        injector.spec_advance(reply).0.tid == injector.tid,
        injector.spec_advance(reply).0.saved == injector.saved,
{
}

/// A handoff finishes only by the reply to its restore, and the restore
/// writes exactly the captured registers.
pub proof fn lemma_handoff_ends_with_restore(injector: Injector, reply: Reply)
    ensures
        injector.spec_advance(reply).1 is Finished ==> injector.stage == Stage::Restore
            && injector.spec_current() == Action::SetRegs(injector.tid, injector.saved),
        injector.stage == Stage::Restore ==> injector.spec_advance(Reply::Done) == (
            injector,
            Progress::Finished,
        ),
{
}

/// The staging page is unmapped where and as large as it was mapped, and
/// both descriptors that the handoff opened are closed: the address that
/// the staging `mmap` returned, and the descriptors that `userfaultfd` and
/// `socket` returned, stay as they are through all later stages.
pub proof fn lemma_handoff_leaves_nothing_behind(injector: Injector, reply: Reply)
    ensures
        injector.spec_at(Stage::MapStaging).spec_call() == (
            SYS_MMAP,
            seq![0u64, STAGING_SIZE, PROT_READ_WRITE, MAP_PRIVATE_ANONYMOUS, FD_NONE, 0u64],
        ),
        injector.spec_at(Stage::Unmap).spec_call() == (
            SYS_MUNMAP,
            seq![injector.staging, STAGING_SIZE],
        ),
        injector.spec_at(Stage::CloseSocket).spec_call() == (
            SYS_CLOSE,
            seq![injector.sock as u64],
        ),
        injector.spec_at(Stage::CloseUffd).spec_call() == (
            SYS_CLOSE,
            seq![injector.uffd as u64],
        ),
        injector.stage != Stage::MapStaging ==> injector.spec_advance(reply).0.staging
            == injector.staging,
        injector.stage != Stage::OpenUffd ==> injector.spec_advance(reply).0.uffd
            == injector.uffd,
        injector.stage != Stage::OpenSocket ==> injector.spec_advance(reply).0.sock
            == injector.sock,
{
}

/// The identifier sent over the rendezvous socket is that of the tracee in
/// which the descriptor was opened: the word written before the `write`
/// call is the tracee's identifier, and the descriptor in the control
/// message is the one that `userfaultfd` returned in this tracee.
pub proof fn lemma_identifier_matches_descriptor(injector: Injector)
    requires
        injector.wf(),
    ensures
        injector.stage == Stage::WritePid ==> injector.spec_current() == Action::Poke(
            injector.tid,
            injector.staging,
            injector.tid.0,
        ),
        injector.stage == Stage::WriteControl && injector.step == 2 ==> injector.spec_current()
            == Action::Poke(
            injector.tid,
            (injector.staging + CONTROL_OFFSET + 16) as u64,
            injector.uffd as u64,
        ),
{
    if injector.stage == Stage::WritePid {
        lemma_word_of_le64(injector.tid.0);
        lemma_words_of_one(le64(injector.tid.0));
    }
    if injector.stage == Stage::WriteControl {
        lemma_control_words(injector.uffd);
    }
}

/// The words that the write stages of the message put into the staging
/// page: a zero payload at its offset; the I/O vector that refers to the
/// payload; the control message of `SCM_RIGHTS`; and the header that refers
/// to the I/O vector and the control message.
pub proof fn lemma_message_layout(injector: Injector)
    requires
        injector.wf(),
    ensures
        injector.stage == Stage::WriteApi ==> words_of(injector.spec_image()) == seq![
            UFFD_API,
            UFFD_FEATURES,
            0u64,
        ],
        injector.stage == Stage::WritePayload ==> words_of(injector.spec_image()) == seq![0u64],
        injector.stage == Stage::WriteIovec ==> words_of(injector.spec_image()) == seq![
            (injector.staging + PAYLOAD_OFFSET) as u64,
            PAYLOAD_LEN,
        ],
        injector.stage == Stage::WriteControl ==> words_of(injector.spec_image()) == seq![
            CMSG_LEN_ONE_FD,
            (SOL_SOCKET + SCM_RIGHTS * 0x1_0000_0000) as u64,
            injector.uffd as u64,
        ],
        injector.stage == Stage::WriteHeader ==> words_of(injector.spec_image()) == seq![
            0u64,
            0u64,
            (injector.staging + IOVEC_OFFSET) as u64,
            1u64,
            (injector.staging + CONTROL_OFFSET) as u64,
            CMSG_SPACE_ONE_FD,
            0u64,
        ],
{
    match injector.stage {
        Stage::WriteApi => {
            lemma_uffdio_api_words(UFFD_API, UFFD_FEATURES, 0);
        },
        Stage::WritePayload => {
            lemma_word_of_padded32(0);
            lemma_words_of_one(padded32(0));
        },
        Stage::WriteIovec => {
            lemma_iovec_words((injector.staging + PAYLOAD_OFFSET) as u64, PAYLOAD_LEN);
        },
        Stage::WriteControl => {
            lemma_control_words(injector.uffd);
        },
        Stage::WriteHeader => {
            lemma_msghdr_words(
                (injector.staging + IOVEC_OFFSET) as u64,
                1,
                (injector.staging + CONTROL_OFFSET) as u64,
                CMSG_SPACE_ONE_FD,
            );
        },
        _ => {},
    }
}

} // verus!
