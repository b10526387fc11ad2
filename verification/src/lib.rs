//! A memory-residency tracer for Linux processes, as a machine that decides
//! and leaves the system calls to its driver.
//!
//! The tracer follows a command and its descendants through their system
//! calls, installs a `userfaultfd` in each address space and hands it to a
//! consumer, and reports the regions that appear. All of that takes
//! operations on other processes; this library decides which operation
//! comes next and what its result means, and a driver performs them.

use vstd::prelude::*;

pub mod abi;
pub mod injector;
pub mod maps;
pub mod observer;
pub mod protocol;
pub mod regs;
pub mod staging;
pub mod supervisor;

use crate::protocol::{Action, Fatal, Reply};
use crate::supervisor::{Tracer, TracerModel};

verus! {

/// The actions that follow from `replies`, each the answer to the action
/// before it, up to and including the action that ends the session.
pub open spec fn actions_from(model: TracerModel, replies: Seq<Reply>) -> Seq<Action>
    decreases replies.len(),
{
    if replies.len() == 0 {
        Seq::empty()
    } else {
        let (next, action) = model.spec_step(replies[0]);
        if action.terminal() {
            seq![action]
        } else {
            seq![action] + actions_from(next, replies.drop_first())
        }
    }
}

/// The actions of a whole session: without a command the session is
/// aborted at once; else it begins with the spawning of the command, and
/// each reply gives the next action.
pub open spec fn session(args: Seq<String>, replies: Seq<Reply>) -> Seq<Action> {
    if args.len() < 2 {
        seq![Action::Abort(Fatal::NoCommand)]
    } else {
        seq![Action::Spawn] + actions_from(TracerModel::initial(), replies)
    }
}

/// Runs a session over recorded replies: `args` is the command line, and
/// `replies` are the driver's answers in order. Gives the actions that the
/// tracer asks for, the first of them before any reply. Replies after the
/// end of the session are not looked at.
pub fn run(args: Vec<String>, replies: &Vec<Reply>) -> (actions: Vec<Action>)
    ensures
        actions@ == session(args@, replies@),
{
    let ghost line = args@;
    let mut actions: Vec<Action> = Vec::new();
    let mut tracer: Tracer = match Tracer::new(args) {
        Ok(tracer) => tracer,
        Err(fatal) => {
            actions.push(Action::Abort(fatal));
            assert(actions@ =~= session(line, replies@));
            return actions;
        },
    };
    actions.push(Action::Spawn);
    let mut i: usize = 0;
    assert(replies@.skip(0) =~= replies@);
    while i < replies.len()
        invariant
            i <= replies@.len(),
            line == args@,
            line.len() >= 2,
            tracer.inv(),
            actions@ + actions_from(tracer@, replies@.skip(i as int)) == session(line, replies@),
        decreases replies@.len() - i,
    {
        let ghost before = tracer@;
        let ghost sent = actions@;
        let ghost rest = replies@.skip(i as int);
        assert(rest[0] == replies@[i as int]);
        assert(rest.drop_first() =~= replies@.skip(i + 1));
        let action: Action = tracer.step(&replies[i]);
        actions.push(action);
        let ended: bool = match action {
            Action::Exit => true,
            Action::Abort(_) => true,
            _ => false,
        };
        if ended {
            assert(actions@ =~= sent + actions_from(before, rest));
            return actions;
        }
        assert(actions@ + actions_from(tracer@, replies@.skip(i + 1)) =~= sent + actions_from(
            before,
            rest,
        ));
        i = i + 1;
    }
    assert(actions@ + actions_from(tracer@, replies@.skip(i as int)) =~= actions@);
    actions
}

} // verus!
