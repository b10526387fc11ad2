use mevi::abi;
use mevi::injector::{Injector, Progress, Stage, StageKind, UffdioApi, ADDRESS_MAX};
use mevi::protocol::{Action, Fatal, Reply, TraceeId, WaitStatus};
use mevi::regs::Registers;

const STAGING: u64 = 0x7f12_3456_7000;
const UFFD: u64 = 3;
const SOCK: u64 = 4;

fn exit_snapshot() -> Registers {
    let mut regs = Registers::zeroed();
    regs.orig_rax = abi::SYS_BRK;
    regs.rax = 0x5555_0000_1000;
    regs.rip = 0x7f00_0000_4242;
    regs.rdi = 0;
    regs.rsi = 0x1111;
    regs.rdx = 0x2222;
    regs.r10 = 0x3333;
    regs.r8 = 0x4444;
    regs.r9 = 0x5555;
    regs.rsp = 0x7ffd_0000_0000;
    regs
}

fn returned(ret: u64) -> Reply {
    let mut regs = Registers::zeroed();
    regs.rax = ret;
    Reply::Regs(regs)
}

/// Steps the injector through one call that returns `ret`; gives the call's
/// frame and how the handoff goes on.
fn perform_call(injector: &mut Injector, ret: u64) -> (Registers, Progress) {
    let tid = injector.tid;
    let frame = match injector.current() {
        Action::SetRegs(t, frame) => {
            assert_eq!(t, tid);
            frame
        }
        other => panic!("a call begins by writing registers, not {:?}", other),
    };
    assert_eq!(injector.advance(&Reply::Done), Progress::Continue(Action::Resume(tid, 0)));
    assert_eq!(injector.advance(&Reply::Done), Progress::Continue(Action::WaitFor(tid)));
    assert_eq!(
        injector.advance(&Reply::Status(WaitStatus::PtraceSyscall(tid))),
        Progress::Continue(Action::Resume(tid, 0))
    );
    assert_eq!(injector.advance(&Reply::Done), Progress::Continue(Action::WaitFor(tid)));
    assert_eq!(
        injector.advance(&Reply::Status(WaitStatus::PtraceSyscall(tid))),
        Progress::Continue(Action::GetRegs(tid))
    );
    let progress = injector.advance(&returned(ret));
    (frame, progress)
}

/// Answers the pokes of a write stage; gives the words by address.
fn perform_write(injector: &mut Injector, count: usize) -> Vec<(u64, u64)> {
    let mut pokes: Vec<(u64, u64)> = Vec::new();
    for _ in 0..count {
        match injector.current() {
            Action::Poke(t, addr, word) => {
                assert_eq!(t, injector.tid);
                pokes.push((addr, word));
            }
            other => panic!("a write stage pokes, not {:?}", other),
        }
        let progress = injector.advance(&Reply::Done);
        assert!(matches!(progress, Progress::Continue(_)));
    }
    pokes
}

fn assert_call(frame: &Registers, saved: &Registers, nr: u64, args: &[u64]) {
    assert_eq!(frame.rax, nr);
    assert_eq!(frame.rip, saved.rip - 2);
    let given = [frame.rdi, frame.rsi, frame.rdx, frame.r10, frame.r8, frame.r9];
    let kept = [saved.rdi, saved.rsi, saved.rdx, saved.r10, saved.r8, saved.r9];
    for i in 0..6 {
        if i < args.len() {
            assert_eq!(given[i], args[i], "argument {} of call {}", i, nr);
        } else {
            assert_eq!(given[i], kept[i], "register {} of call {}", i, nr);
        }
    }
    assert_eq!(frame.rsp, saved.rsp);
    assert_eq!(frame.orig_rax, saved.orig_rax);
}

/// Runs the handoff up to the start of `stage` with the usual results.
fn injector_at(stage: Stage) -> Injector {
    let mut injector = Injector::new(TraceeId(4242), exit_snapshot());
    while injector.stage != stage {
        match injector.stage.kind() {
            StageKind::Call => {
                let ret = match injector.stage {
                    Stage::MapStaging => STAGING,
                    Stage::OpenUffd => UFFD,
                    Stage::OpenSocket => SOCK,
                    Stage::SendPid => 8,
                    Stage::SendDescriptor => 4,
                    _ => 0,
                };
                let (_, progress) = perform_call(&mut injector, ret);
                assert!(matches!(progress, Progress::Continue(_)));
            }
            StageKind::Write => {
                let count = injector.stage.steps() as usize;
                perform_write(&mut injector, count);
            }
            StageKind::Read => {
                for word in [0xAA_u64, 0x4c, 0x1c] {
                    assert!(matches!(injector.current(), Action::Peek(_, _)));
                    let progress = injector.advance(&Reply::Word(word));
                    assert!(matches!(progress, Progress::Continue(_)));
                }
            }
            StageKind::Restore => unreachable!(),
        }
    }
    injector
}

#[test]
fn handoff_runs_the_whole_sequence_in_order() {
    let tid = TraceeId(4242);
    let saved = exit_snapshot();
    let mut injector = Injector::new(tid, saved);
    assert_eq!(injector.stage, Stage::MapStaging);

    let (frame, _) = perform_call(&mut injector, STAGING);
    assert_call(&frame, &saved, abi::SYS_MMAP, &[0, 0x1000, 3, 0x22, u64::MAX, 0]);
    assert_eq!(injector.staging, STAGING);

    assert_eq!(injector.stage, Stage::OpenUffd);
    let (frame, _) = perform_call(&mut injector, UFFD);
    assert_call(&frame, &saved, abi::SYS_USERFAULTFD, &[0]);
    assert_eq!(injector.uffd as u64, UFFD);

    assert_eq!(injector.stage, Stage::WriteApi);
    assert_eq!(
        perform_write(&mut injector, 3),
        vec![(STAGING, 0xAA), (STAGING + 8, 0x4c), (STAGING + 16, 0)]
    );

    assert_eq!(injector.stage, Stage::Handshake);
    let (frame, _) = perform_call(&mut injector, 0);
    assert_call(&frame, &saved, abi::SYS_IOCTL, &[UFFD, 0xc018_aa3f, STAGING]);

    assert_eq!(injector.stage, Stage::ReadApi);
    assert_eq!(injector.current(), Action::Peek(tid, STAGING));
    assert_eq!(
        injector.advance(&Reply::Word(0xAA)),
        Progress::Continue(Action::Peek(tid, STAGING + 8))
    );
    assert_eq!(
        injector.advance(&Reply::Word(0x4c)),
        Progress::Continue(Action::Peek(tid, STAGING + 16))
    );
    assert!(matches!(injector.advance(&Reply::Word(0x1c)), Progress::Continue(_)));
    assert_eq!(injector.granted, UffdioApi { api: 0xAA, features: 0x4c, ioctls: 0x1c });

    assert_eq!(injector.stage, Stage::OpenSocket);
    let (frame, _) = perform_call(&mut injector, SOCK);
    assert_call(&frame, &saved, abi::SYS_SOCKET, &[1, 0x8_0001, 0]);
    assert_eq!(injector.sock as u64, SOCK);

    assert_eq!(injector.stage, Stage::WriteAddress);
    let pokes = perform_write(&mut injector, 13);
    assert_eq!(pokes[0], (STAGING, 0x6d2f_706d_742f_0001));
    assert_eq!(pokes[1], (STAGING + 8, 0x6b63_6f73_2e69_7665));
    for (i, (addr, word)) in pokes.iter().enumerate().skip(2) {
        assert_eq!((*addr, *word), (STAGING + 8 * i as u64, 0));
    }

    assert_eq!(injector.stage, Stage::Connect);
    let (frame, _) = perform_call(&mut injector, 0);
    assert_call(&frame, &saved, abi::SYS_CONNECT, &[SOCK, STAGING, 17]);

    assert_eq!(injector.stage, Stage::WritePid);
    assert_eq!(perform_write(&mut injector, 1), vec![(STAGING, 4242)]);

    assert_eq!(injector.stage, Stage::SendPid);
    let (frame, _) = perform_call(&mut injector, 8);
    assert_call(&frame, &saved, abi::SYS_WRITE, &[SOCK, STAGING, 8]);

    assert_eq!(injector.stage, Stage::WritePayload);
    assert_eq!(perform_write(&mut injector, 1), vec![(STAGING + 0x100, 0)]);

    assert_eq!(injector.stage, Stage::WriteIovec);
    assert_eq!(
        perform_write(&mut injector, 2),
        vec![(STAGING + 0x200, STAGING + 0x100), (STAGING + 0x208, 4)]
    );

    assert_eq!(injector.stage, Stage::WriteControl);
    assert_eq!(
        perform_write(&mut injector, 3),
        vec![
            (STAGING + 0x300, 20),
            (STAGING + 0x308, 0x0000_0001_0000_0001),
            (STAGING + 0x310, UFFD),
        ]
    );

    assert_eq!(injector.stage, Stage::WriteHeader);
    assert_eq!(
        perform_write(&mut injector, 7),
        vec![
            (STAGING, 0),
            (STAGING + 8, 0),
            (STAGING + 16, STAGING + 0x200),
            (STAGING + 24, 1),
            (STAGING + 32, STAGING + 0x300),
            (STAGING + 40, 24),
            (STAGING + 48, 0),
        ]
    );

    assert_eq!(injector.stage, Stage::SendDescriptor);
    let (frame, _) = perform_call(&mut injector, 4);
    assert_call(&frame, &saved, abi::SYS_SENDMSG, &[SOCK, STAGING, 0]);

    assert_eq!(injector.stage, Stage::CloseSocket);
    let (frame, _) = perform_call(&mut injector, 0);
    assert_call(&frame, &saved, abi::SYS_CLOSE, &[SOCK]);

    assert_eq!(injector.stage, Stage::CloseUffd);
    let (frame, _) = perform_call(&mut injector, 0);
    assert_call(&frame, &saved, abi::SYS_CLOSE, &[UFFD]);

    assert_eq!(injector.stage, Stage::Unmap);
    let (frame, progress) = perform_call(&mut injector, 0);
    assert_call(&frame, &saved, abi::SYS_MUNMAP, &[STAGING, 0x1000]);

    // the registers of the interrupted exit come back exactly
    assert_eq!(injector.stage, Stage::Restore);
    assert_eq!(progress, Progress::Continue(Action::SetRegs(tid, saved)));
    assert_eq!(injector.current(), Action::SetRegs(tid, saved));
    assert_eq!(injector.advance(&Reply::Done), Progress::Finished);
    assert_eq!(injector.saved, saved);
    assert_eq!(injector.tid, tid);
}

#[test]
fn stages_follow_each_other_and_have_their_kinds() {
    let order = [
        (Stage::MapStaging, StageKind::Call, 6),
        (Stage::OpenUffd, StageKind::Call, 6),
        (Stage::WriteApi, StageKind::Write, 3),
        (Stage::Handshake, StageKind::Call, 6),
        (Stage::ReadApi, StageKind::Read, 3),
        (Stage::OpenSocket, StageKind::Call, 6),
        (Stage::WriteAddress, StageKind::Write, 13),
        (Stage::Connect, StageKind::Call, 6),
        (Stage::WritePid, StageKind::Write, 1),
        (Stage::SendPid, StageKind::Call, 6),
        (Stage::WritePayload, StageKind::Write, 1),
        (Stage::WriteIovec, StageKind::Write, 2),
        (Stage::WriteControl, StageKind::Write, 3),
        (Stage::WriteHeader, StageKind::Write, 7),
        (Stage::SendDescriptor, StageKind::Call, 6),
        (Stage::CloseSocket, StageKind::Call, 6),
        (Stage::CloseUffd, StageKind::Call, 6),
        (Stage::Unmap, StageKind::Call, 6),
        (Stage::Restore, StageKind::Restore, 1),
    ];
    for (i, (stage, kind, steps)) in order.iter().enumerate() {
        assert_eq!(stage.kind(), *kind);
        assert_eq!(stage.steps(), *steps);
        let next = if i + 1 < order.len() { order[i + 1].0 } else { Stage::Restore };
        assert_eq!(stage.next(), next);
    }
    assert_eq!(Stage::WritePayload.offset(), 0x100);
    assert_eq!(Stage::WriteIovec.offset(), 0x200);
    assert_eq!(Stage::WriteControl.offset(), 0x300);
    assert_eq!(Stage::WriteHeader.offset(), 0);
    assert_eq!(Stage::ReadApi.offset(), 0);
}

#[test]
fn staging_map_failure_is_reported_as_such() {
    let mut injector = Injector::new(TraceeId(1), exit_snapshot());
    let (_, progress) = perform_call(&mut injector, abi::MAP_FAILED);
    assert_eq!(progress, Progress::Failed(Fatal::StagingFailed));
}

#[test]
fn negative_address_from_the_staging_map_is_fatal() {
    let mut injector = Injector::new(TraceeId(1), exit_snapshot());
    let enomem = (-12_i64) as u64;
    let (_, progress) = perform_call(&mut injector, enomem);
    assert_eq!(progress, Progress::Failed(Fatal::CallFailed(abi::SYS_MMAP, enomem)));

    let mut injector = Injector::new(TraceeId(1), exit_snapshot());
    let (_, progress) = perform_call(&mut injector, ADDRESS_MAX + 1);
    assert_eq!(progress, Progress::Failed(Fatal::CallFailed(abi::SYS_MMAP, ADDRESS_MAX + 1)));

    let mut injector = Injector::new(TraceeId(1), exit_snapshot());
    let (_, progress) = perform_call(&mut injector, ADDRESS_MAX);
    assert!(matches!(progress, Progress::Continue(_)));
    assert_eq!(injector.staging, ADDRESS_MAX);
}

#[test]
fn negative_return_of_a_required_call_is_fatal() {
    let eperm = (-1_i64) as u64;
    for (stage, nr) in [
        (Stage::OpenUffd, abi::SYS_USERFAULTFD),
        (Stage::Handshake, abi::SYS_IOCTL),
        (Stage::OpenSocket, abi::SYS_SOCKET),
        (Stage::Connect, abi::SYS_CONNECT),
        (Stage::SendPid, abi::SYS_WRITE),
        (Stage::SendDescriptor, abi::SYS_SENDMSG),
    ] {
        let mut injector = injector_at(stage);
        let (_, progress) = perform_call(&mut injector, eperm);
        assert_eq!(progress, Progress::Failed(Fatal::CallFailed(nr, eperm)));
        // the sign is that of the low half, as for a C int
        let mut injector = injector_at(stage);
        let (_, progress) = perform_call(&mut injector, 0x8000_0000);
        assert_eq!(progress, Progress::Failed(Fatal::CallFailed(nr, 0x8000_0000)));
        let mut injector = injector_at(stage);
        let (_, progress) = perform_call(&mut injector, 0x7fff_ffff);
        assert!(matches!(progress, Progress::Continue(_)));
    }
}

#[test]
fn closes_and_unmap_are_not_examined() {
    let ebadf = (-9_i64) as u64;
    for stage in [Stage::CloseSocket, Stage::CloseUffd, Stage::Unmap] {
        let mut injector = injector_at(stage);
        let (_, progress) = perform_call(&mut injector, ebadf);
        assert!(matches!(progress, Progress::Continue(_)));
        assert_eq!(injector.stage, stage.next());
    }
}

#[test]
fn descriptors_are_the_low_half_of_what_the_call_returned() {
    let mut injector = injector_at(Stage::OpenUffd);
    let (_, progress) = perform_call(&mut injector, 0xabcd_0000_0007);
    assert!(matches!(progress, Progress::Continue(_)));
    assert_eq!(injector.uffd, 7);
}

#[test]
fn a_vanished_tracee_ends_the_handoff_quietly() {
    for stage in [Stage::MapStaging, Stage::WriteApi, Stage::ReadApi, Stage::Restore] {
        let mut injector = injector_at(stage);
        let before = injector;
        assert_eq!(injector.advance(&Reply::Error(abi::ESRCH)), Progress::Gone);
        assert_eq!(injector, before);
    }
}

#[test]
fn another_error_is_fatal() {
    let eio = 5;
    for stage in [Stage::MapStaging, Stage::WriteAddress, Stage::ReadApi, Stage::Restore] {
        let mut injector = injector_at(stage);
        assert_eq!(injector.advance(&Reply::Error(eio)), Progress::Failed(Fatal::Os(eio)));
    }
}

#[test]
fn a_stop_that_is_no_syscall_stop_loses_synchronisation() {
    let tid = TraceeId(4242);
    for status in [
        WaitStatus::Stopped(tid, 11),
        WaitStatus::Exited(tid, 0),
        WaitStatus::Signaled(tid, 9, false),
        WaitStatus::PtraceEvent(tid, 5, 1),
        WaitStatus::Continued(tid),
        WaitStatus::StillAlive,
    ] {
        // at the entry stop
        let mut injector = Injector::new(tid, exit_snapshot());
        injector.advance(&Reply::Done);
        injector.advance(&Reply::Done);
        assert_eq!(injector.advance(&Reply::Status(status)), Progress::Failed(Fatal::LostSync));
        // at the exit stop
        let mut injector = Injector::new(tid, exit_snapshot());
        injector.advance(&Reply::Done);
        injector.advance(&Reply::Done);
        injector.advance(&Reply::Status(WaitStatus::PtraceSyscall(tid)));
        injector.advance(&Reply::Done);
        assert_eq!(injector.advance(&Reply::Status(status)), Progress::Failed(Fatal::LostSync));
    }
}

#[test]
fn a_reply_of_the_wrong_kind_is_a_protocol_error() {
    let tid = TraceeId(4242);
    let protocol = Progress::Failed(Fatal::Protocol);
    // a register write is answered by Done only
    let mut injector = Injector::new(tid, exit_snapshot());
    assert_eq!(injector.advance(&Reply::Word(1)), protocol);
    assert_eq!(injector.advance(&returned(1)), protocol);
    assert_eq!(injector.advance(&Reply::Status(WaitStatus::PtraceSyscall(tid))), protocol);
    assert_eq!(injector.advance(&Reply::Spawned(tid)), protocol);
    assert_eq!(injector.advance(&Reply::Maps(vec![])), protocol);
    // a wait is answered by a status only
    injector.advance(&Reply::Done);
    injector.advance(&Reply::Done);
    assert_eq!(injector.current(), Action::WaitFor(tid));
    assert_eq!(injector.advance(&Reply::Done), protocol);
    // a poke by Done, a peek by a word, the restore by Done
    let mut injector = injector_at(Stage::WriteApi);
    assert_eq!(injector.advance(&Reply::Word(0)), protocol);
    let mut injector = injector_at(Stage::ReadApi);
    assert_eq!(injector.advance(&Reply::Done), protocol);
    assert_eq!(injector.advance(&returned(0)), protocol);
    let mut injector = injector_at(Stage::Restore);
    assert_eq!(injector.advance(&Reply::Word(0)), protocol);
    assert_eq!(injector.advance(&Reply::Status(WaitStatus::StillAlive)), protocol);
}

#[test]
fn the_identifier_sent_is_that_of_the_driven_tracee() {
    for pid in [1_u64, 4242, 0x7fff_ffff] {
        let mut injector = Injector::new(TraceeId(pid), exit_snapshot());
        let mut actions: Vec<Action> = vec![injector.current()];
        let mut pid_word: Option<u64> = None;
        let mut fd_word: Option<u64> = None;
        loop {
            let stage = injector.stage;
            let step = injector.step;
            let action = *actions.last().unwrap();
            if let Action::Poke(_, _, word) = action {
                if stage == Stage::WritePid {
                    pid_word = Some(word);
                }
                if stage == Stage::WriteControl && step == 2 {
                    fd_word = Some(word);
                }
            }
            let reply = match action {
                Action::SetRegs(_, _) | Action::Resume(_, _) | Action::Poke(_, _, _) => Reply::Done,
                Action::WaitFor(t) => Reply::Status(WaitStatus::PtraceSyscall(t)),
                Action::GetRegs(_) => returned(match stage {
                    Stage::MapStaging => STAGING,
                    Stage::OpenUffd => 9,
                    Stage::OpenSocket => 10,
                    _ => 0,
                }),
                Action::Peek(_, _) => Reply::Word(0),
                other => panic!("not an action of a handoff: {:?}", other),
            };
            match injector.advance(&reply) {
                Progress::Continue(next) => actions.push(next),
                Progress::Finished => break,
                other => panic!("the handoff stopped: {:?}", other),
            }
        }
        assert_eq!(pid_word, Some(pid));
        assert_eq!(fd_word, Some(9));
        // every action is on this tracee
        for action in &actions {
            let on = match action {
                Action::SetRegs(t, _)
                | Action::Resume(t, _)
                | Action::WaitFor(t)
                | Action::GetRegs(t)
                | Action::Poke(t, _, _)
                | Action::Peek(t, _) => *t,
                other => panic!("not an action of a handoff: {:?}", other),
            };
            assert_eq!(on, TraceeId(pid));
        }
        // 10 calls of 6 actions, 30 pokes, 3 peeks, 1 restore
        assert_eq!(actions.len(), 10 * 6 + 30 + 3 + 1);
    }
}
