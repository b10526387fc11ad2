//! The register file of a stopped tracee, and the rewriting that makes the
//! tracee perform a chosen system call.

use vstd::prelude::*;
use crate::abi::SYSCALL_INSN_LEN;

verus! {

/// The general-purpose registers of an x86-64 tracee, in the order in which
/// the kernel reports them.
#[derive(Clone, Copy, Debug, PartialEq, Eq, Structural, Hash)]
pub struct Registers {
    pub r15: u64,
    pub r14: u64,
    pub r13: u64,
    pub r12: u64,
    pub rbp: u64,
    pub rbx: u64,
    pub r11: u64,
    pub r10: u64,
    pub r9: u64,
    pub r8: u64,
    pub rax: u64,
    pub rcx: u64,
    pub rdx: u64,
    pub rsi: u64,
    pub rdi: u64,
    pub orig_rax: u64,
    pub rip: u64,
    pub cs: u64,
    pub eflags: u64,
    pub rsp: u64,
    pub ss: u64,
    pub fs_base: u64,
    pub gs_base: u64,
    pub ds: u64,
    pub es: u64,
    pub fs: u64,
    pub gs: u64,
}

/// The most arguments a system call takes.
pub const MAX_ARGS: usize = 6;

/// The instruction pointer moved back over one `syscall` instruction,
/// modulo 2^64.
pub open spec fn rewound(rip: u64) -> u64 {
    if rip >= SYSCALL_INSN_LEN {
        (rip - SYSCALL_INSN_LEN) as u64
    } else {
        (rip + 0x1_0000_0000_0000_0000 - SYSCALL_INSN_LEN) as u64
    }
}

/// Argument `i` of a call if the call supplies it, else what the register
/// held before.
pub open spec fn arg_or(args: Seq<u64>, i: int, kept: u64) -> u64 {
    if i < args.len() {
        args[i]
    } else {
        kept
    }
}

impl Registers {
    /// All registers zero.
    pub open spec fn spec_zeroed() -> Registers {
        Registers {
            r15: 0,
            r14: 0,
            r13: 0,
            r12: 0,
            rbp: 0,
            rbx: 0,
            r11: 0,
            r10: 0,
            r9: 0,
            r8: 0,
            rax: 0,
            rcx: 0,
            rdx: 0,
            rsi: 0,
            rdi: 0,
            orig_rax: 0,
            rip: 0,
            cs: 0,
            eflags: 0,
            rsp: 0,
            ss: 0,
            fs_base: 0,
            gs_base: 0,
            ds: 0,
            es: 0,
            fs: 0,
            gs: 0,
        }
    }

    /// A register file with every register zero.
    pub fn zeroed() -> (regs: Registers)
        ensures
            regs == Registers::spec_zeroed(),
    {
        Registers {
            r15: 0,
            r14: 0,
            r13: 0,
            r12: 0,
            rbp: 0,
            rbx: 0,
            r11: 0,
            r10: 0,
            r9: 0,
            r8: 0,
            rax: 0,
            rcx: 0,
            rdx: 0,
            rsi: 0,
            rdi: 0,
            orig_rax: 0,
            rip: 0,
            cs: 0,
            eflags: 0,
            rsp: 0,
            ss: 0,
            fs_base: 0,
            gs_base: 0,
            ds: 0,
            es: 0,
            fs: 0,
            gs: 0,
        }
    }

    /// The registers that make a tracee stopped at a system call exit with
    /// registers `self` perform call `nr` when it is resumed: the call number
    /// in `rax`, the given arguments in `rdi, rsi, rdx, r10, r8, r9` in this
    /// order, the instruction pointer back on the `syscall` instruction.
    /// Argument registers beyond the given arguments, and all other
    /// registers, keep their values.
    pub open spec fn spec_call_frame(self, nr: u64, args: Seq<u64>) -> Registers {
        Registers {
            rax: nr,
            rip: rewound(self.rip),
            rdi: arg_or(args, 0, self.rdi),
            rsi: arg_or(args, 1, self.rsi),
            rdx: arg_or(args, 2, self.rdx),
            r10: arg_or(args, 3, self.r10),
            r8: arg_or(args, 4, self.r8),
            r9: arg_or(args, 5, self.r9),
            ..self
        }
    }

    /// Computes the registers for an injected call of `nr` with `args`.
    pub fn call_frame(&self, nr: u64, args: &Vec<u64>) -> (frame: Registers)
        requires
            args@.len() <= MAX_ARGS,
        ensures
            frame == self.spec_call_frame(nr, args@),
    {
        let mut frame: Registers = *self;
        frame.rax = nr;
        frame.rip = if self.rip >= SYSCALL_INSN_LEN {
            self.rip - SYSCALL_INSN_LEN
        } else {
            self.rip + (u64::MAX - SYSCALL_INSN_LEN + 1)
        };
        let n: usize = args.len();
        if n > 0 {
            frame.rdi = args[0];
        }
        if n > 1 {
            frame.rsi = args[1];
        }
        if n > 2 {
            frame.rdx = args[2];
        }
        if n > 3 {
            frame.r10 = args[3];
        }
        if n > 4 {
            frame.r8 = args[4];
        }
        if n > 5 {
            frame.r9 = args[5];
        }
        frame
    }
}

/// A call frame differs from the snapshot it was made from in the call
/// number, the instruction pointer and the six argument registers only.
pub proof fn lemma_call_frame_keeps_other_registers(saved: Registers, nr: u64, args: Seq<u64>)
    ensures
        ({
            let f = saved.spec_call_frame(nr, args);
            &&& f.r15 == saved.r15
            &&& f.r14 == saved.r14
            &&& f.r13 == saved.r13
            &&& f.r12 == saved.r12
            &&& f.rbp == saved.rbp
            &&& f.rbx == saved.rbx
            &&& f.r11 == saved.r11
            &&& f.rcx == saved.rcx
            &&& f.orig_rax == saved.orig_rax
            &&& f.cs == saved.cs
            &&& f.eflags == saved.eflags
            &&& f.rsp == saved.rsp
            &&& f.ss == saved.ss
            &&& f.fs_base == saved.fs_base
            &&& f.gs_base == saved.gs_base
            &&& f.ds == saved.ds
            &&& f.es == saved.es
            &&& f.fs == saved.fs
            &&& f.gs == saved.gs
        }),
{
}

} // verus!
