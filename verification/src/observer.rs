//! What the tracer keeps of each tracee, and what it reads off the
//! registers at a system call exit.

use vstd::prelude::*;
use crate::abi::{
    SYS_BRK, SYS_EXECVE, SYS_EXECVEAT, SYS_MMAP, SYS_RSEQ, SYS_RT_SIGPROCMASK,
    SYS_SET_ROBUST_LIST,
};
use crate::protocol::{MappedRegion, MemState};
use crate::regs::Registers;

verus! {

/// What is known of one tracee.
#[derive(Clone, Copy, Debug, PartialEq, Eq, Hash)]
pub struct TraceeState {
    /// `false`: the next system call stop is an entry; `true`: an exit.
    pub in_syscall: bool,
    /// The end of the program break as last observed; `None` until the
    /// tracee has asked for it.
    pub heap_top: Option<u64>,
    /// A `userfaultfd` has been installed in the current address space.
    pub uffd_installed: bool,
}

/// What a system call exit means for the tracee's memory.
#[derive(Clone, Copy, Debug, PartialEq, Eq, Hash)]
pub enum Observation {
    /// Nothing to report.
    Nothing,
    /// The tracee replaced its address space.
    Execve,
    /// A region appeared or grew.
    Mapped(MappedRegion),
}

/// The call is one of those after which it is too early to install a
/// `userfaultfd`.
pub open spec fn too_early(nr: u64) -> bool {
    nr == SYS_RSEQ || nr == SYS_SET_ROBUST_LIST || nr == SYS_RT_SIGPROCMASK || nr == SYS_EXECVE
}

/// The call replaces the address space.
pub open spec fn replaces_image(nr: u64) -> bool {
    nr == SYS_EXECVE || nr == SYS_EXECVEAT
}

/// The registers are those of an `mmap` without a file: the descriptor
/// argument, read as a C `int`, is `-1`.
pub open spec fn without_file(regs: Registers) -> bool {
    regs.r8 % 0x1_0000_0000 == 0xffff_ffff
}

/// The registers are those of an `mmap` that is anonymous and leaves the
/// address to the kernel.
pub open spec fn anonymous_mmap(regs: Registers) -> bool {
    regs.orig_rax == SYS_MMAP && without_file(regs) && regs.rdi == 0
}

/// The registers are those of a `brk` that only asks for the break.
pub open spec fn brk_query(regs: Registers) -> bool {
    regs.orig_rax == SYS_BRK && regs.rdi == 0
}

/// The registers are those of a `brk` that moves the break.
pub open spec fn brk_move(regs: Registers) -> bool {
    regs.orig_rax == SYS_BRK && regs.rdi != 0
}

/// Whether it is too early to install a `userfaultfd` after call `nr`.
pub fn is_too_early(nr: u64) -> (early: bool)
    ensures
        early == too_early(nr),
{
    nr == SYS_RSEQ || nr == SYS_SET_ROBUST_LIST || nr == SYS_RT_SIGPROCMASK || nr == SYS_EXECVE
}

impl TraceeState {
    /// A tracee that has just been seen for the first time.
    pub open spec fn spec_new() -> TraceeState {
        TraceeState { in_syscall: false, heap_top: None, uffd_installed: false }
    }

    /// The state after one more system call stop.
    pub open spec fn spec_toggled(self) -> TraceeState {
        TraceeState { in_syscall: !self.in_syscall, ..self }
    }

    /// The state once the handoff has completed.
    pub open spec fn spec_installed(self) -> TraceeState {
        TraceeState { uffd_installed: true, ..self }
    }

    /// At an exit with these registers a `userfaultfd` is to be installed:
    /// none is installed yet, and the call is not one of the too early ones.
    pub open spec fn spec_needs_install(self, regs: Registers) -> bool {
        !self.uffd_installed && !too_early(regs.orig_rax)
    }

    /// The state after a system call exit with these registers, and what the
    /// exit means for the tracee's memory.
    ///
    /// - `execve` and `execveat` clear the heap top and the installation.
    /// - An anonymous `mmap` without a fixed address gives a region that is
    ///   not resident, from the returned address and of the requested
    ///   length, if such a region ends within the address space.
    /// - A `brk` query sets the heap top if none is known. Another `brk`,
    ///   when a heap top is known, makes the returned value the heap top;
    ///   if the heap grew, the growth is a resident region.
    pub open spec fn spec_observe(self, regs: Registers) -> (TraceeState, Observation) {
        if replaces_image(regs.orig_rax) {
            (
                TraceeState { heap_top: None, uffd_installed: false, ..self },
                Observation::Execve,
            )
        } else if anonymous_mmap(regs) && regs.rax + regs.rsi <= u64::MAX {
            (
                self,
                Observation::Mapped(
                    MappedRegion {
                        start: regs.rax,
                        end: (regs.rax + regs.rsi) as u64,
                        state: MemState::NotResident,
                    },
                ),
            )
        } else if brk_query(regs) && self.heap_top is None {
            (TraceeState { heap_top: Some(regs.rax), ..self }, Observation::Nothing)
        } else if brk_move(regs) && self.heap_top is Some {
            (
                TraceeState { heap_top: Some(regs.rax), ..self },
                if regs.rax > self.heap_top->0 {
                    Observation::Mapped(
                        MappedRegion {
                            start: self.heap_top->0,
                            end: regs.rax,
                            state: MemState::Resident,
                        },
                    )
                } else {
                    Observation::Nothing
                },
            )
        } else {
            (self, Observation::Nothing)
        }
    }

    /// The state of a tracee that has just been seen for the first time.
    pub fn new() -> (state: TraceeState)
        ensures
            state == TraceeState::spec_new(),
    {
        TraceeState { in_syscall: false, heap_top: None, uffd_installed: false }
    }

    /// Whether a `userfaultfd` is to be installed at an exit with these
    /// registers.
    pub fn needs_install(&self, regs: &Registers) -> (needed: bool)
        ensures
            needed == self.spec_needs_install(*regs),
    {
        !self.uffd_installed && !is_too_early(regs.orig_rax)
    }

    /// Takes note of a system call exit. The registers are those read at
    /// the exit.
    pub fn observe(&mut self, regs: &Registers) -> (observation: Observation)
        ensures
            (*final(self), observation) == old(self).spec_observe(*regs),
    {
        let nr: u64 = regs.orig_rax;
        if nr == SYS_EXECVE || nr == SYS_EXECVEAT {
            self.heap_top = None;
            self.uffd_installed = false;
            return Observation::Execve;
        }
        if nr == SYS_MMAP {
            if regs.r8 % 0x1_0000_0000 == 0xffff_ffff && regs.rdi == 0 {
                match regs.rax.checked_add(regs.rsi) {
                    Some(end) => {
                        return Observation::Mapped(
                            MappedRegion { start: regs.rax, end, state: MemState::NotResident },
                        );
                    },
                    None => {},
                }
            }
        } else if nr == SYS_BRK {
            if regs.rdi == 0 {
                if self.heap_top.is_none() {
                    self.heap_top = Some(regs.rax);
                }
            } else {
                match self.heap_top {
                    Some(old_top) => {
                        self.heap_top = Some(regs.rax);
                        if regs.rax > old_top {
                            return Observation::Mapped(
                                MappedRegion {
                                    start: old_top,
                                    end: regs.rax,
                                    state: MemState::Resident,
                                },
                            );
                        }
                    },
                    None => {},
                }
            }
        }
        Observation::Nothing
    }
}

/// What handling one system call exit comes to when every handoff that is
/// started completes: whether a handoff is run, the state afterwards, and
/// the observation.
pub open spec fn exit_outcome(state: TraceeState, regs: Registers) -> (
    bool,
    TraceeState,
    Observation,
) {
    let install = state.spec_needs_install(regs);
    let ready = if install {
        state.spec_installed()
    } else {
        state
    };
    (install, ready.spec_observe(regs).0, ready.spec_observe(regs).1)
}

/// How many handoffs are run over a sequence of system call exits.
pub open spec fn installs_over(state: TraceeState, exits: Seq<Registers>) -> nat
    decreases exits.len(),
{
    if exits.len() == 0 {
        0
    } else {
        let (install, next, _) = exit_outcome(state, exits[0]);
        (if install {
            1nat
        } else {
            0nat
        }) + installs_over(next, exits.drop_first())
    }
}

/// The state after a sequence of system call exits.
pub open spec fn state_after(state: TraceeState, exits: Seq<Registers>) -> TraceeState
    decreases exits.len(),
{
    if exits.len() == 0 {
        state
    } else {
        state_after(exit_outcome(state, exits[0]).1, exits.drop_first())
    }
}

/// The exit moves the break below the known heap top.
pub open spec fn lowers_heap(state: TraceeState, regs: Registers) -> bool {
    brk_move(regs) && state.heap_top is Some && regs.rax < state.heap_top->0
}

/// The exit moves the break above the known heap top.
pub open spec fn grows_heap(state: TraceeState, regs: Registers) -> bool {
    brk_move(regs) && state.heap_top is Some && regs.rax > state.heap_top->0
}

/// None of the exits replaces the address space, lowers the heap or grows
/// it.
pub open spec fn heap_at_rest(state: TraceeState, exits: Seq<Registers>) -> bool
    decreases exits.len(),
{
    exits.len() == 0 || (!replaces_image(exits[0].orig_rax) && !lowers_heap(state, exits[0])
        && !grows_heap(state, exits[0]) && heap_at_rest(
        exit_outcome(state, exits[0]).1,
        exits.drop_first(),
    ))
}

/// A system call stop flips the phase flag and nothing else; noting an
/// exit, or a completed handoff, leaves the flag as it is.
pub proof fn lemma_phase_alternates(state: TraceeState, regs: Registers)
    ensures
        state.spec_toggled().in_syscall == !state.in_syscall,
        state.spec_toggled().spec_toggled() == state,
        state.spec_observe(regs).0.in_syscall == state.in_syscall,
        state.spec_installed().in_syscall == state.in_syscall,
{
}

/// While a `userfaultfd` is installed none is installed again, and it
/// stays installed until the tracee replaces its address space.
pub proof fn lemma_installed_until_execve(state: TraceeState, regs: Registers)
    requires
        state.uffd_installed,
    ensures
        !state.spec_needs_install(regs),
        !replaces_image(regs.orig_rax) ==> state.spec_observe(regs).0.uffd_installed,
        state.spec_toggled().uffd_installed,
{
}

/// Over system call exits none of which replaces the address space, at most
/// one handoff is run.
pub proof fn lemma_one_install_between_execves(state: TraceeState, exits: Seq<Registers>)
    requires
        forall|i: int| 0 <= i < exits.len() ==> !replaces_image(#[trigger] exits[i].orig_rax),
    ensures
        installs_over(state, exits) <= 1,
        state.uffd_installed ==> installs_over(state, exits) == 0,
    decreases exits.len(),
{
    if exits.len() > 0 {
        let (install, next, _) = exit_outcome(state, exits[0]);
        let rest = exits.drop_first();
        assert(!replaces_image(exits[0].orig_rax));
        assert forall|i: int| 0 <= i < rest.len() implies !replaces_image(
            #[trigger] rest[i].orig_rax,
        ) by {
            assert(rest[i] == exits[i + 1]);
        }
        lemma_one_install_between_execves(next, rest);
        if install {
            assert(next.uffd_installed);
        }
        if state.uffd_installed {
            assert(next.uffd_installed);
        }
    }
}

/// A region reported for heap growth is never empty or inverted, and a
/// region reported for an `mmap` of a non-zero length is neither.
pub proof fn lemma_regions_nonempty(state: TraceeState, regs: Registers)
    requires
        !(regs.orig_rax == SYS_MMAP && regs.rsi == 0),
    ensures
        state.spec_observe(regs).1 matches Observation::Mapped(region) ==> region.nonempty(),
{
}

/// A region reported for heap growth begins at the heap top known before
/// and ends at the heap top known after.
pub proof fn lemma_growth_spans_heap_tops(state: TraceeState, regs: Registers)
    requires
        grows_heap(state, regs),
    ensures
        state.spec_observe(regs).1 == Observation::Mapped(
            MappedRegion {
                start: state.heap_top->0,
                end: state.spec_observe(regs).0.heap_top->0,
                state: MemState::Resident,
            },
        ),
        state.spec_observe(regs).0.heap_top == Some(regs.rax),
{
}

/// Exits that leave the heap at rest leave the heap top where it was.
pub proof fn lemma_heap_at_rest_keeps_top(state: TraceeState, exits: Seq<Registers>)
    requires
        state.heap_top is Some,
        heap_at_rest(state, exits),
    ensures
        state_after(state, exits).heap_top == state.heap_top,
    decreases exits.len(),
{
    if exits.len() > 0 {
        lemma_heap_at_rest_keeps_top(exit_outcome(state, exits[0]).1, exits.drop_first());
    }
}

/// Two growths of the heap with the heap at rest in between give regions
/// that touch: the second begins where the first ends, and neither is
/// empty.
pub proof fn lemma_growth_is_contiguous(
    state: TraceeState,
    first: Registers,
    between: Seq<Registers>,
    second: Registers,
)
    requires
        grows_heap(state, first),
        heap_at_rest(exit_outcome(state, first).1, between),
        grows_heap(state_after(exit_outcome(state, first).1, between), second),
    ensures
        ({
            let grown = exit_outcome(state, first).1;
            let later = state_after(grown, between);
            &&& exit_outcome(state, first).2 matches Observation::Mapped(a)
            &&& exit_outcome(later, second).2 matches Observation::Mapped(b)
            &&& a.state == MemState::Resident
            &&& b.state == MemState::Resident
            &&& a.start < a.end
            &&& a.end == b.start
            &&& b.start < b.end
        }),
{
    lemma_heap_at_rest_keeps_top(exit_outcome(state, first).1, between);
}

/// The first `brk` query sets the heap top, a second one right after it
/// changes nothing, and neither reports a region.
pub proof fn lemma_repeated_query(state: TraceeState, first: Registers, second: Registers)
    requires
        state.heap_top is None,
        brk_query(first),
        brk_query(second),
    ensures
        state.spec_observe(first) == (
            TraceeState { heap_top: Some(first.rax), ..state },
            Observation::Nothing,
        ),
        state.spec_observe(first).0.spec_observe(second) == (
            state.spec_observe(first).0,
            Observation::Nothing,
        ),
{
}

/// An `mmap` with a file descriptor or with a fixed address reports no
/// region and changes nothing.
pub proof fn lemma_only_anonymous_mmap_reports(state: TraceeState, regs: Registers)
    requires
        regs.orig_rax == SYS_MMAP,
        !without_file(regs) || regs.rdi != 0,
    ensures
        state.spec_observe(regs) == (state, Observation::Nothing),
{
}

/// `execve` and `execveat` clear the heap top and the installation and
/// report no region; at the next exit from a call that is not too early a
/// `userfaultfd` is installed again.
pub proof fn lemma_execve_resets(state: TraceeState, regs: Registers, next: Registers)
    requires
        replaces_image(regs.orig_rax),
    ensures
        state.spec_observe(regs) == (
            TraceeState { heap_top: None, uffd_installed: false, ..state },
            Observation::Execve,
        ),
        !too_early(next.orig_rax) ==> state.spec_observe(regs).0.spec_needs_install(next),
        !too_early(next.orig_rax) ==> state.spec_observe(regs).0.spec_toggled().spec_toggled()
            .spec_needs_install(next),
{
}

} // verus!
