//! The supervisor: the registry of tracees and the decision, for each reply
//! of the driver, what the driver does next.
//!
//! A session begins with [`Action::Spawn`]. From then on the driver answers
//! each action with a reply and hands it to [`Tracer::step`], which gives
//! the next action, until the action is `Exit` or `Abort`.

use std::collections::HashMap;
use vstd::prelude::*;
use crate::abi::{ECHILD, ESRCH, SIGSTOP, SIGTRAP, TRACE_OPTIONS};
use crate::injector::{lemma_advance_keeps_wf, Injector, Progress};
use crate::maps::{anonymous_regions, collect_anonymous};
use crate::observer::{Observation, TraceeState};
use crate::protocol::{
    Action, Fatal, MapEntry, MappedRegion, Reply, TraceeEvent, TraceeId, WaitStatus,
};
use crate::regs::Registers;

verus! {

broadcast use vstd::std_specs::hash::group_hash_axioms;

/// What the supervisor is waiting for: each phase but the last two names
/// the action whose reply is due.
#[derive(Clone, Copy, Debug, PartialEq, Eq, Hash)]
pub enum Phase {
    /// `Spawn`.
    Spawning,
    /// `WaitFor` the root tracee's first stop.
    Attaching(TraceeId),
    /// `SetOptions` on the root tracee.
    Configuring(TraceeId),
    /// `Resume`; a wait for any tracee follows.
    Resuming,
    /// `Wait`.
    Waiting,
    /// `GetRegs` at a system call exit.
    ReadingRegs(TraceeId),
    /// An action of the handoff.
    Installing(Injector),
    /// `ReadMaps` after the handoff; the registers are those of the exit.
    ListingMaps(TraceeId, Registers),
    /// `Emit` of a region of the listing.
    Announcing(TraceeId, Registers),
    /// `AwaitToken` for a region of the listing.
    AnnouncingToken(TraceeId, Registers),
    /// `Emit` of the region that the system call made.
    Publishing(TraceeId),
    /// `AwaitToken` for the region that the system call made.
    PublishingToken(TraceeId),
    /// `Emit` of `Execve`.
    Reporting(TraceeId),
    /// `Emit` of `Exit`.
    Farewell,
    /// The session has ended cleanly.
    Finished,
    /// The session has ended with an error.
    Aborted(Fatal),
}

/// The supervisor's state as a mathematical value.
pub struct TracerModel {
    /// What is known of each tracee, by its identifier.
    pub tracees: Map<u64, TraceeState>,
    /// What the supervisor is waiting for.
    pub phase: Phase,
    /// The regions of the listing that is being announced.
    pub pending: Seq<MappedRegion>,
    /// How many of them have been announced.
    pub cursor: nat,
}

impl TracerModel {
    /// The supervisor before the reply to `Spawn`.
    pub open spec fn initial() -> TracerModel {
        TracerModel {
            tracees: Map::empty(),
            phase: Phase::Spawning,
            pending: Seq::empty(),
            cursor: 0,
        }
    }

    /// The state is one that a session can be in.
    pub open spec fn wf(self) -> bool {
        &&& self.cursor <= self.pending.len()
        &&& self.phase matches Phase::Installing(injector) ==> injector.wf()
        &&& self.phase is Announcing || self.phase is AnnouncingToken ==> self.cursor
            < self.pending.len()
    }

    /// What is known of `tid`; of a tracee not seen before, what is known of
    /// a new one.
    pub open spec fn state_of(self, tid: TraceeId) -> TraceeState {
        if self.tracees.contains_key(tid.0) {
            self.tracees[tid.0]
        } else {
            TraceeState::spec_new()
        }
    }

    /// The model with `state` recorded for `tid`.
    pub open spec fn with_state(self, tid: TraceeId, state: TraceeState) -> TracerModel {
        TracerModel { tracees: self.tracees.insert(tid.0, state), ..self }
    }

    /// The model in `phase`, and `action` as the next action.
    pub open spec fn go(self, phase: Phase, action: Action) -> (TracerModel, Action) {
        (TracerModel { phase, ..self }, action)
    }

    /// The session ends with an error.
    pub open spec fn abort(self, fatal: Fatal) -> (TracerModel, Action) {
        self.go(Phase::Aborted(fatal), Action::Abort(fatal))
    }

    /// What a stop of some tracee leads to.
    ///
    /// - A stop by `SIGTRAP` or `SIGSTOP` is swallowed; a stop by another
    ///   signal hands that signal on when the tracee is resumed.
    /// - An exit, normal or by a signal, removes the tracee and is reported.
    /// - A system call stop flips the tracee's phase flag, creating the
    ///   tracee's state if it is new. An entry is resumed; at an exit the
    ///   registers are read.
    /// - A trace event is resumed.
    /// - Any other status is fatal.
    pub open spec fn dispatch(self, status: WaitStatus) -> (TracerModel, Action) {
        match status {
            WaitStatus::Stopped(tid, signal) => self.go(
                Phase::Resuming,
                Action::Resume(
                    tid,
                    if signal == SIGTRAP || signal == SIGSTOP {
                        0
                    } else {
                        signal
                    },
                ),
            ),
            WaitStatus::Exited(tid, _) => TracerModel {
                tracees: self.tracees.remove(tid.0),
                ..self
            }.go(Phase::Farewell, Action::Emit(tid, TraceeEvent::Exit)),
            WaitStatus::Signaled(tid, _, _) => TracerModel {
                tracees: self.tracees.remove(tid.0),
                ..self
            }.go(Phase::Farewell, Action::Emit(tid, TraceeEvent::Exit)),
            WaitStatus::PtraceSyscall(tid) => {
                let before = self.state_of(tid);
                let noted = self.with_state(tid, before.spec_toggled());
                if before.in_syscall {
                    noted.go(Phase::ReadingRegs(tid), Action::GetRegs(tid))
                } else {
                    noted.go(Phase::Resuming, Action::Resume(tid, 0))
                }
            },
            WaitStatus::PtraceEvent(tid, _, _) => self.go(
                Phase::Resuming,
                Action::Resume(tid, 0),
            ),
            _ => self.abort(Fatal::UnexpectedStatus),
        }
    }

    /// The end of a system call exit: the exit is noted, what it means for
    /// the tracee's memory is sent, and the tracee is resumed. A region is
    /// sent before the tracee is resumed, and the token awaited in between.
    pub open spec fn conclude(self, tid: TraceeId, regs: Registers) -> (TracerModel, Action) {
        let (state, observation) = self.state_of(tid).spec_observe(regs);
        let noted = self.with_state(tid, state);
        match observation {
            Observation::Execve => noted.go(
                Phase::Reporting(tid),
                Action::Emit(tid, TraceeEvent::Execve),
            ),
            Observation::Mapped(region) => noted.go(
                Phase::Publishing(tid),
                Action::Emit(tid, TraceeEvent::Mapped(region)),
            ),
            Observation::Nothing => noted.go(Phase::Resuming, Action::Resume(tid, 0)),
        }
    }

    /// The next region of the listing is sent; when none is left, the exit
    /// is concluded.
    pub open spec fn announce(self, tid: TraceeId, regs: Registers) -> (TracerModel, Action) {
        if self.cursor < self.pending.len() {
            self.go(
                Phase::Announcing(tid, regs),
                Action::Emit(tid, TraceeEvent::Mapped(self.pending[self.cursor as int])),
            )
        } else {
            TracerModel { pending: Seq::empty(), cursor: 0, ..self }.conclude(tid, regs)
        }
    }

    /// What a failed operation leads to. When nothing is left to wait for,
    /// the session ends cleanly. When a tracee is gone under an operation
    /// on it, the supervisor waits for the next stop. Any other failure is
    /// fatal.
    pub open spec fn on_error(self, errno: i32) -> (TracerModel, Action) {
        if self.phase is Waiting && errno == ECHILD {
            self.go(Phase::Finished, Action::Exit)
        } else if errno == ESRCH && (self.phase is Configuring || self.phase is Resuming
            || self.phase is ReadingRegs) {
            self.go(Phase::Waiting, Action::Wait)
        } else {
            self.abort(Fatal::Os(errno))
        }
    }

    /// What a reply during the handoff leads to. When the handoff is
    /// complete the tracee counts as installed and its memory map listing
    /// is read.
    pub open spec fn on_handoff(self, injector: Injector, reply: Reply) -> (TracerModel, Action) {
        let (advanced, progress) = injector.spec_advance(reply);
        match progress {
            Progress::Continue(action) => self.go(Phase::Installing(advanced), action),
            Progress::Finished => self.with_state(
                injector.tid,
                self.state_of(injector.tid).spec_installed(),
            ).go(Phase::ListingMaps(injector.tid, injector.saved), Action::ReadMaps(injector.tid)),
            Progress::Gone => self.go(Phase::Waiting, Action::Wait),
            Progress::Failed(fatal) => self.abort(fatal),
        }
    }

    /// What the identifier of the spawned command leads to: the wait for
    /// its first stop.
    pub open spec fn on_spawned(self, tid: TraceeId) -> (TracerModel, Action) {
        if self.phase is Spawning {
            self.go(Phase::Attaching(tid), Action::WaitFor(tid))
        } else {
            self.abort(Fatal::Protocol)
        }
    }

    /// What the end of a wait leads to. The root tracee's first stop is
    /// followed by the trace options: distinctive system call stops, and
    /// the tracing of what the tracee clones, forks and vforks.
    pub open spec fn on_status(self, status: WaitStatus) -> (TracerModel, Action) {
        match self.phase {
            Phase::Attaching(tid) => self.go(
                Phase::Configuring(tid),
                Action::SetOptions(tid, TRACE_OPTIONS),
            ),
            Phase::Waiting => self.dispatch(status),
            _ => self.abort(Fatal::Protocol),
        }
    }

    /// What the registers read at a system call exit lead to: the handoff,
    /// if a `userfaultfd` is to be installed, else the end of the exit.
    pub open spec fn on_regs(self, regs: Registers) -> (TracerModel, Action) {
        match self.phase {
            Phase::ReadingRegs(tid) => {
                if self.state_of(tid).spec_needs_install(regs) {
                    self.go(
                        Phase::Installing(Injector::spec_new(tid, regs)),
                        Injector::spec_new(tid, regs).spec_current(),
                    )
                } else {
                    self.conclude(tid, regs)
                }
            },
            _ => self.abort(Fatal::Protocol),
        }
    }

    /// What the memory map listing leads to: its regions without a file
    /// are announced in order.
    pub open spec fn on_maps(self, entries: Seq<MapEntry>) -> (TracerModel, Action) {
        match self.phase {
            Phase::ListingMaps(tid, regs) => TracerModel {
                pending: anonymous_regions(entries),
                cursor: 0,
                ..self
            }.announce(tid, regs),
            _ => self.abort(Fatal::Protocol),
        }
    }

    /// What the success of an operation without a result leads to.
    pub open spec fn on_done(self) -> (TracerModel, Action) {
        match self.phase {
            Phase::Configuring(tid) => self.go(Phase::Resuming, Action::Resume(tid, 0)),
            Phase::Resuming => self.go(Phase::Waiting, Action::Wait),
            Phase::Announcing(tid, regs) => self.go(
                Phase::AnnouncingToken(tid, regs),
                Action::AwaitToken,
            ),
            Phase::AnnouncingToken(tid, regs) => TracerModel {
                cursor: self.cursor + 1,
                ..self
            }.announce(tid, regs),
            Phase::Publishing(tid) => self.go(Phase::PublishingToken(tid), Action::AwaitToken),
            Phase::PublishingToken(tid) => self.go(Phase::Resuming, Action::Resume(tid, 0)),
            Phase::Reporting(tid) => self.go(Phase::Resuming, Action::Resume(tid, 0)),
            Phase::Farewell => self.go(Phase::Waiting, Action::Wait),
            _ => self.abort(Fatal::Protocol),
        }
    }

    /// The supervisor after `reply` to the action it is waiting for, and the
    /// next action.
    ///
    /// After the end of the session every reply gives the last action
    /// again. A reply of a kind that does not answer the action is fatal.
    pub open spec fn spec_step(self, reply: Reply) -> (TracerModel, Action) {
        match self.phase {
            Phase::Finished => (self, Action::Exit),
            Phase::Aborted(fatal) => (self, Action::Abort(fatal)),
            Phase::Installing(injector) => self.on_handoff(injector, reply),
            _ => match reply {
                Reply::Error(errno) => self.on_error(errno),
                Reply::Spawned(tid) => self.on_spawned(tid),
                Reply::Status(status) => self.on_status(status),
                Reply::Regs(regs) => self.on_regs(regs),
                Reply::Maps(entries) => self.on_maps(entries@),
                Reply::Done => self.on_done(),
                _ => self.abort(Fatal::Protocol),
            },
        }
    }
}

/// The supervisor of one tracing session.
pub struct Tracer {
    command: Vec<String>,
    tracees: HashMap<u64, TraceeState>,
    phase: Phase,
    pending: Vec<MappedRegion>,
    cursor: usize,
}

impl View for Tracer {
    type V = TracerModel;

    closed spec fn view(&self) -> TracerModel {
        TracerModel {
            tracees: self.tracees@,
            phase: self.phase,
            pending: self.pending@,
            cursor: self.cursor as nat,
        }
    }
}

impl Tracer {
    /// The command that the session runs: the program, then its arguments.
    pub closed spec fn spec_command(&self) -> Seq<String> {
        self.command@
    }

    /// The state is one that a session can be in.
    pub open spec fn inv(&self) -> bool {
        self@.wf()
    }

    /// Sets up a session from a command line: the first word is the
    /// tracer's own name, the words that follow are the command to run.
    /// Without a command there is no session.
    pub fn new(args: Vec<String>) -> (result: Result<Tracer, Fatal>)
        ensures
            args@.len() < 2 ==> result == Err::<Tracer, Fatal>(Fatal::NoCommand),
            args@.len() >= 2 ==> result is Ok,
            result matches Ok(tracer) ==> {
                &&& tracer@ == TracerModel::initial()
                &&& tracer.inv()
                &&& tracer.spec_command() == args@.subrange(1, args@.len() as int)
            },
    {
        if args.len() < 2 {
            return Err(Fatal::NoCommand);
        }
        let mut command: Vec<String> = args;
        let _name: String = command.remove(0);
        assert(command@ =~= args@.subrange(1, args@.len() as int));
        Ok(
            Tracer {
                command,
                tracees: HashMap::new(),
                phase: Phase::Spawning,
                pending: Vec::new(),
                cursor: 0,
            },
        )
    }

    /// The command that the driver spawns.
    pub fn command(&self) -> (command: &Vec<String>)
        ensures
            command@ == self.spec_command(),
    {
        &self.command
    }

    /// What the supervisor is waiting for.
    pub fn phase(&self) -> (phase: Phase)
        ensures
            phase == self@.phase,
    {
        self.phase
    }

    /// What is known of `tid`, if it is a known tracee.
    pub fn tracee(&self, tid: TraceeId) -> (state: Option<TraceeState>)
        ensures
            state == (if self@.tracees.contains_key(tid.0) {
                Some(self@.tracees[tid.0])
            } else {
                None
            }),
    {
        match self.tracees.get(&tid.0) {
            Some(state) => Some(*state),
            None => None,
        }
    }

    fn state_of(&self, tid: TraceeId) -> (state: TraceeState)
        ensures
            state == self@.state_of(tid),
    {
        match self.tracees.get(&tid.0) {
            Some(state) => *state,
            None => TraceeState::new(),
        }
    }

    fn go(&mut self, phase: Phase, action: Action) -> (next: Action)
        ensures
            (final(self)@, next) == old(self)@.go(phase, action),
            final(self).command@ == old(self).command@,
    {
        self.phase = phase;
        action
    }

    fn abort(&mut self, fatal: Fatal) -> (next: Action)
        ensures
            (final(self)@, next) == old(self)@.abort(fatal),
            final(self).command@ == old(self).command@,
    {
        self.go(Phase::Aborted(fatal), Action::Abort(fatal))
    }

    fn dispatch(&mut self, status: &WaitStatus) -> (next: Action)
        ensures
            (final(self)@, next) == old(self)@.dispatch(*status),
            final(self).command@ == old(self).command@,
    {
        match status {
            WaitStatus::Stopped(tid, signal) => {
                let forwarded: i32 = if *signal == SIGTRAP || *signal == SIGSTOP {
                    0
                } else {
                    *signal
                };
                self.go(Phase::Resuming, Action::Resume(*tid, forwarded))
            },
            WaitStatus::Exited(tid, _) => {
                let _gone: Option<TraceeState> = self.tracees.remove(&tid.0);
                self.go(Phase::Farewell, Action::Emit(*tid, TraceeEvent::Exit))
            },
            WaitStatus::Signaled(tid, _, _) => {
                let _gone: Option<TraceeState> = self.tracees.remove(&tid.0);
                self.go(Phase::Farewell, Action::Emit(*tid, TraceeEvent::Exit))
            },
            WaitStatus::PtraceSyscall(tid) => {
                let before: TraceeState = self.state_of(*tid);
                let mut toggled: TraceeState = before;
                toggled.in_syscall = !before.in_syscall;
                let _previous: Option<TraceeState> = self.tracees.insert(tid.0, toggled);
                if before.in_syscall {
                    self.go(Phase::ReadingRegs(*tid), Action::GetRegs(*tid))
                } else {
                    self.go(Phase::Resuming, Action::Resume(*tid, 0))
                }
            },
            WaitStatus::PtraceEvent(tid, _, _) => self.go(
                Phase::Resuming,
                Action::Resume(*tid, 0),
            ),
            _ => self.abort(Fatal::UnexpectedStatus),
        }
    }

    fn conclude(&mut self, tid: TraceeId, regs: Registers) -> (next: Action)
        ensures
            (final(self)@, next) == old(self)@.conclude(tid, regs),
            final(self).command@ == old(self).command@,
    {
        let mut state: TraceeState = self.state_of(tid);
        let observation: Observation = state.observe(&regs);
        let _previous: Option<TraceeState> = self.tracees.insert(tid.0, state);
        match observation {
            Observation::Execve => self.go(
                Phase::Reporting(tid),
                Action::Emit(tid, TraceeEvent::Execve),
            ),
            Observation::Mapped(region) => self.go(
                Phase::Publishing(tid),
                Action::Emit(tid, TraceeEvent::Mapped(region)),
            ),
            Observation::Nothing => self.go(Phase::Resuming, Action::Resume(tid, 0)),
        }
    }

    fn announce(&mut self, tid: TraceeId, regs: Registers) -> (next: Action)
        ensures
            (final(self)@, next) == old(self)@.announce(tid, regs),
            final(self).command@ == old(self).command@,
    {
        if self.cursor < self.pending.len() {
            let region: MappedRegion = self.pending[self.cursor];
            self.go(Phase::Announcing(tid, regs), Action::Emit(tid, TraceeEvent::Mapped(region)))
        } else {
            self.pending = Vec::new();
            self.cursor = 0;
            self.conclude(tid, regs)
        }
    }

    fn on_error(&mut self, errno: i32) -> (next: Action)
        ensures
            (final(self)@, next) == old(self)@.on_error(errno),
            final(self).command@ == old(self).command@,
    {
        let waiting: bool = match self.phase {
            Phase::Waiting => true,
            _ => false,
        };
        let tolerant: bool = match self.phase {
            Phase::Configuring(_) => true,
            Phase::Resuming => true,
            Phase::ReadingRegs(_) => true,
            _ => false,
        };
        if waiting && errno == ECHILD {
            self.go(Phase::Finished, Action::Exit)
        } else if errno == ESRCH && tolerant {
            self.go(Phase::Waiting, Action::Wait)
        } else {
            self.abort(Fatal::Os(errno))
        }
    }

    fn on_handoff(&mut self, injector: Injector, reply: &Reply) -> (next: Action)
        requires
            injector.wf(),
        ensures
            (final(self)@, next) == old(self)@.on_handoff(injector, *reply),
            final(self).command@ == old(self).command@,
            final(self)@.phase matches Phase::Installing(advanced) ==> advanced.wf(),
    {
        let mut advanced: Injector = injector;
        match advanced.advance(reply) {
            Progress::Continue(action) => self.go(Phase::Installing(advanced), action),
            Progress::Finished => {
                let mut state: TraceeState = self.state_of(injector.tid);
                state.uffd_installed = true;
                let _previous: Option<TraceeState> = self.tracees.insert(injector.tid.0, state);
                self.go(
                    Phase::ListingMaps(injector.tid, injector.saved),
                    Action::ReadMaps(injector.tid),
                )
            },
            Progress::Gone => self.go(Phase::Waiting, Action::Wait),
            Progress::Failed(fatal) => self.abort(fatal),
        }
    }

    fn on_spawned(&mut self, tid: TraceeId) -> (next: Action)
        ensures
            (final(self)@, next) == old(self)@.on_spawned(tid),
            final(self).command@ == old(self).command@,
    {
        match self.phase {
            Phase::Spawning => self.go(Phase::Attaching(tid), Action::WaitFor(tid)),
            _ => self.abort(Fatal::Protocol),
        }
    }

    fn on_status(&mut self, status: &WaitStatus) -> (next: Action)
        ensures
            (final(self)@, next) == old(self)@.on_status(*status),
            final(self).command@ == old(self).command@,
    {
        match self.phase {
            Phase::Attaching(tid) => self.go(
                Phase::Configuring(tid),
                Action::SetOptions(tid, TRACE_OPTIONS),
            ),
            Phase::Waiting => self.dispatch(status),
            _ => self.abort(Fatal::Protocol),
        }
    }

    fn on_regs(&mut self, regs: &Registers) -> (next: Action)
        ensures
            (final(self)@, next) == old(self)@.on_regs(*regs),
            final(self).command@ == old(self).command@,
    {
        match self.phase {
            Phase::ReadingRegs(tid) => {
                if self.state_of(tid).needs_install(regs) {
                    let injector: Injector = Injector::new(tid, *regs);
                    let first: Action = injector.current();
                    self.go(Phase::Installing(injector), first)
                } else {
                    self.conclude(tid, *regs)
                }
            },
            _ => self.abort(Fatal::Protocol),
        }
    }

    fn on_maps(&mut self, entries: &Vec<MapEntry>) -> (next: Action)
        ensures
            (final(self)@, next) == old(self)@.on_maps(entries@),
            final(self).command@ == old(self).command@,
    {
        match self.phase {
            Phase::ListingMaps(tid, regs) => {
                self.pending = collect_anonymous(entries);
                self.cursor = 0;
                self.announce(tid, regs)
            },
            _ => self.abort(Fatal::Protocol),
        }
    }

    fn on_done(&mut self) -> (next: Action)
        requires
            old(self)@.wf(),
        ensures
            (final(self)@, next) == old(self)@.on_done(),
            final(self).command@ == old(self).command@,
    {
        match self.phase {
            Phase::Configuring(tid) => self.go(Phase::Resuming, Action::Resume(tid, 0)),
            Phase::Resuming => self.go(Phase::Waiting, Action::Wait),
            Phase::Announcing(tid, regs) => self.go(
                Phase::AnnouncingToken(tid, regs),
                Action::AwaitToken,
            ),
            Phase::AnnouncingToken(tid, regs) => {
                let len: usize = self.pending.len();
                assert(self.cursor < len);
                self.cursor = self.cursor + 1;
                self.announce(tid, regs)
            },
            Phase::Publishing(tid) => self.go(Phase::PublishingToken(tid), Action::AwaitToken),
            Phase::PublishingToken(tid) => self.go(Phase::Resuming, Action::Resume(tid, 0)),
            Phase::Reporting(tid) => self.go(Phase::Resuming, Action::Resume(tid, 0)),
            Phase::Farewell => self.go(Phase::Waiting, Action::Wait),
            _ => self.abort(Fatal::Protocol),
        }
    }

    /// Takes the reply to the action that the supervisor is waiting for and
    /// gives the action that the driver performs next.
    pub fn step(&mut self, reply: &Reply) -> (next: Action)
        requires
            old(self).inv(),
        ensures
            (final(self)@, next) == old(self)@.spec_step(*reply),
            final(self).inv(),
            final(self).spec_command() == old(self).spec_command(),
    {
        proof {
            lemma_step_keeps_wf(self@, *reply);
        }
        match self.phase {
            Phase::Finished => {
                return Action::Exit;
            },
            Phase::Aborted(fatal) => {
                return Action::Abort(fatal);
            },
            Phase::Installing(injector) => {
                return self.on_handoff(injector, reply);
            },
            _ => {},
        }
        match reply {
            Reply::Error(errno) => self.on_error(*errno),
            Reply::Spawned(tid) => self.on_spawned(*tid),
            Reply::Status(status) => self.on_status(status),
            Reply::Regs(regs) => self.on_regs(regs),
            Reply::Maps(entries) => self.on_maps(entries),
            Reply::Done => self.on_done(),
            _ => self.abort(Fatal::Protocol),
        }
    }
}

/// A step leads from a state that a session can be in to another.
pub proof fn lemma_step_keeps_wf(model: TracerModel, reply: Reply)
    requires
        model.wf(),
    ensures
        model.spec_step(reply).0.wf(),
{
    match model.phase {
        Phase::Installing(injector) => {
            lemma_advance_keeps_wf(injector, reply);
        },
        _ => {},
    }
}

/// Only a system call stop flips a tracee's phase flag: the stop of `tid`
/// flips the flag of `tid`, and no other reply changes the flag of a tracee
/// that stays known.
pub proof fn lemma_flag_flips_on_syscall_stops_only(
    model: TracerModel,
    reply: Reply,
    tid: TraceeId,
)
    ensures
        ({
            let next = model.spec_step(reply).0;
            if model.phase is Waiting && reply == Reply::Status(WaitStatus::PtraceSyscall(tid)) {
                next.state_of(tid).in_syscall == !model.state_of(tid).in_syscall
            } else {
                next.tracees.contains_key(tid.0) ==> next.state_of(tid).in_syscall
                    == model.state_of(tid).in_syscall
            }
        }),
{
}

/// A handoff begins only at a system call exit of a tracee without a
/// `userfaultfd`, after a call that is not too early, and with the
/// registers read at that exit.
pub proof fn lemma_handoff_begins_when_needed(model: TracerModel, reply: Reply)
    requires
        !(model.phase is Installing),
        model.spec_step(reply).0.phase is Installing,
    ensures
        ({
            let next = model.spec_step(reply).0;
            &&& model.phase matches Phase::ReadingRegs(tid)
            &&& reply matches Reply::Regs(regs)
            &&& model.state_of(tid).spec_needs_install(regs)
            &&& !model.state_of(tid).uffd_installed
            &&& next.phase == Phase::Installing(Injector::spec_new(tid, regs))
        }),
{
}

/// When a handoff is complete its tracee counts as installed, and the
/// exit at which the handoff began is concluded with the registers that
/// were read at it.
pub proof fn lemma_completed_handoff_installs(
    model: TracerModel,
    injector: Injector,
    reply: Reply,
)
    requires
        model.phase == Phase::Installing(injector),
        injector.spec_advance(reply).1 is Finished,
    ensures
        model.spec_step(reply).0.state_of(injector.tid).uffd_installed,
        model.spec_step(reply).0.phase == Phase::ListingMaps(injector.tid, injector.saved),
        model.spec_step(reply).1 == Action::ReadMaps(injector.tid),
{
}

/// A tracee that counts as installed stays so while it is known, until
/// its `Execve` is reported.
pub proof fn lemma_installed_until_reported(model: TracerModel, reply: Reply, tid: TraceeId)
    requires
        model.state_of(tid).uffd_installed,
        model.spec_step(reply).0.tracees.contains_key(tid.0),
    ensures
        model.spec_step(reply).0.state_of(tid).uffd_installed || model.spec_step(reply).1
            == Action::Emit(tid, TraceeEvent::Execve),
{
    match model.phase {
        Phase::ReadingRegs(exiting) => {
            if let Reply::Regs(regs) = reply {
                if exiting == tid {
                    crate::observer::lemma_installed_until_execve(model.state_of(tid), regs);
                }
            }
        },
        Phase::ListingMaps(exiting, regs) => {
            if exiting == tid {
                crate::observer::lemma_installed_until_execve(model.state_of(tid), regs);
            }
        },
        Phase::AnnouncingToken(exiting, regs) => {
            if exiting == tid {
                crate::observer::lemma_installed_until_execve(model.state_of(tid), regs);
            }
        },
        _ => {},
    }
}

/// The action sends a region.
pub open spec fn sends_region(action: Action) -> bool {
    action matches Action::Emit(_, event) && event is Mapped
}

/// The phase is one in which a region has been sent and its token is not
/// yet awaited.
pub open spec fn region_sent(phase: Phase) -> bool {
    phase is Publishing || phase is Announcing
}

/// The phase is one in which the token of a region is awaited.
pub open spec fn token_awaited(phase: Phase) -> bool {
    phase is PublishingToken || phase is AnnouncingToken
}

/// After a region is sent no tracee is resumed until the consumer has
/// dropped its token: the action that follows the sending is the wait for
/// the token, and only the end of that wait lets the session go on. A
/// token is awaited for regions only.
pub proof fn lemma_region_pauses_tracee(model: TracerModel, reply: Reply)
    ensures
        sends_region(model.spec_step(reply).1) ==> region_sent(model.spec_step(reply).0.phase),
        region_sent(model.phase) ==> model.spec_step(reply).1 is AwaitToken || model.spec_step(
            reply,
        ).1 is Abort,
        region_sent(model.phase) && reply is Done ==> token_awaited(
            model.spec_step(reply).0.phase,
        ),
        token_awaited(model.phase) && !(reply is Done) ==> model.spec_step(reply).1 is Abort,
        model.spec_step(reply).1 is AwaitToken ==> region_sent(model.phase),
{
    match model.phase {
        Phase::Installing(injector) => {
            crate::injector::lemma_handoff_sends_nothing(injector, reply);
        },
        _ => {},
    }
}

/// The step begins a handoff for `tid`.
pub open spec fn begins_handoff(model: TracerModel, reply: Reply, tid: TraceeId) -> bool {
    &&& !(model.phase is Installing)
    &&& model.spec_step(reply).0.phase matches Phase::Installing(injector)
    &&& injector.tid == tid
}

/// The step gives up a handoff for `tid` because the tracee is gone.
pub open spec fn abandons_handoff(model: TracerModel, reply: Reply, tid: TraceeId) -> bool {
    &&& model.phase matches Phase::Installing(injector)
    &&& injector.tid == tid
    &&& injector.spec_advance(reply).1 is Gone
}

/// The step reports the exit of `tid` and forgets the tracee.
pub open spec fn forgets(model: TracerModel, reply: Reply, tid: TraceeId) -> bool {
    &&& model.phase is Waiting
    &&& reply matches Reply::Status(status)
    &&& (status == WaitStatus::Exited(tid, status->Exited_1) || status == WaitStatus::Signaled(
        tid,
        status->Signaled_1,
        status->Signaled_2,
    ))
}

/// How many handoffs are begun for `tid` over a sequence of replies.
pub open spec fn handoffs_begun(model: TracerModel, replies: Seq<Reply>, tid: TraceeId) -> nat
    decreases replies.len(),
{
    if replies.len() == 0 {
        0
    } else {
        (if begins_handoff(model, replies[0], tid) {
            1nat
        } else {
            0nat
        }) + handoffs_begun(model.spec_step(replies[0]).0, replies.drop_first(), tid)
    }
}

/// Over the replies, no `Execve` of `tid` is reported, no handoff for `tid`
/// is given up, and `tid` is not forgotten.
pub open spec fn undisturbed(model: TracerModel, replies: Seq<Reply>, tid: TraceeId) -> bool
    decreases replies.len(),
{
    replies.len() == 0 || (model.spec_step(replies[0]).1 != Action::Emit(tid, TraceeEvent::Execve)
        && !abandons_handoff(model, replies[0], tid) && !forgets(model, replies[0], tid)
        && undisturbed(model.spec_step(replies[0]).0, replies.drop_first(), tid))
}

/// Nothing is left to install for `tid`: its handoff is under way or done,
/// or the session has ended.
pub open spec fn settled(model: TracerModel, tid: TraceeId) -> bool {
    ||| model.phase matches Phase::Installing(injector) && injector.tid == tid
    ||| model.state_of(tid).uffd_installed
    ||| model.phase is Aborted
    ||| model.phase is Finished
}

/// Between two reports of `Execve` at most one handoff is begun for a
/// tracee: over replies that report no `Execve` of the tracee, that do not
/// give up its handoff and do not see it exit, one handoff is begun at
/// most, and none once a handoff is under way or done.
pub proof fn lemma_one_handoff_between_execves(
    model: TracerModel,
    replies: Seq<Reply>,
    tid: TraceeId,
)
    requires
        undisturbed(model, replies, tid),
    ensures
        handoffs_begun(model, replies, tid) <= 1,
        settled(model, tid) ==> handoffs_begun(model, replies, tid) == 0,
    decreases replies.len(),
{
    if replies.len() > 0 {
        let reply = replies[0];
        let next = model.spec_step(reply).0;
        lemma_one_handoff_between_execves(next, replies.drop_first(), tid);
        if begins_handoff(model, reply, tid) {
            lemma_handoff_begins_when_needed(model, reply);
            assert(settled(next, tid));
            assert(!settled(model, tid));
        } else if settled(model, tid) {
            match model.phase {
                Phase::Installing(injector) => {
                    crate::injector::lemma_handoff_stays_with_tracee(injector, reply);
                    if injector.tid != tid {
                        assert(next.state_of(tid).uffd_installed);
                    }
                },
                Phase::Aborted(_) => {},
                Phase::Finished => {},
                _ => {
                    assert(model.tracees.contains_key(tid.0));
                    assert(next.tracees.contains_key(tid.0));
                    lemma_installed_until_reported(model, reply, tid);
                },
            }
            assert(settled(next, tid));
        }
    }
}

/// The registers are those of an `mmap` of no length.
pub open spec fn empty_mmap(regs: Registers) -> bool {
    regs.orig_rax == crate::abi::SYS_MMAP && regs.rsi == 0
}

/// The registers of the system call exit that the phase belongs to, where
/// the phase holds them.
pub open spec fn exit_registers(phase: Phase) -> Option<Registers> {
    match phase {
        Phase::Installing(injector) => Some(injector.saved),
        Phase::ListingMaps(_, regs) => Some(regs),
        Phase::Announcing(_, regs) => Some(regs),
        Phase::AnnouncingToken(_, regs) => Some(regs),
        _ => None,
    }
}

/// No region of the listing that is being announced is empty or inverted,
/// and the exit that is being handled is not that of an `mmap` of no
/// length.
pub open spec fn regions_sound(model: TracerModel) -> bool {
    &&& forall|i: int| 0 <= i < model.pending.len() ==> (#[trigger] model.pending[i]).nonempty()
    &&& exit_registers(model.phase) matches Some(regs) ==> !empty_mmap(regs)
}

/// No region is sent empty or inverted, as long as no memory map listing
/// holds an empty line and no tracee calls `mmap` with no length: those
/// two give the empty regions that they stand for.
pub proof fn lemma_sent_regions_nonempty(model: TracerModel, reply: Reply)
    requires
        model.wf(),
        regions_sound(model),
        reply matches Reply::Maps(entries) ==> forall|i: int|
            0 <= i < entries@.len() ==> (#[trigger] entries@[i]).size > 0,
        reply matches Reply::Regs(regs) ==> !empty_mmap(regs),
    ensures
        regions_sound(model.spec_step(reply).0),
        model.spec_step(reply).1 matches Action::Emit(_, TraceeEvent::Mapped(region))
            ==> region.nonempty(),
{
    let next = model.spec_step(reply).0;
    match model.phase {
        Phase::Installing(injector) => {
            crate::injector::lemma_handoff_stays_with_tracee(injector, reply);
            crate::injector::lemma_handoff_sends_nothing(injector, reply);
        },
        Phase::ListingMaps(tid, regs) => {
            if let Reply::Maps(entries) = reply {
                crate::maps::lemma_listed_regions_nonempty(entries@);
                crate::observer::lemma_regions_nonempty(model.state_of(tid), regs);
            }
        },
        Phase::AnnouncingToken(tid, regs) => {
            crate::observer::lemma_regions_nonempty(model.state_of(tid), regs);
        },
        Phase::ReadingRegs(tid) => {
            if let Reply::Regs(regs) = reply {
                crate::observer::lemma_regions_nonempty(model.state_of(tid), regs);
            }
        },
        _ => {},
    }
}

} // verus!
