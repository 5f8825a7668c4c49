//! The command that resets a target's non-volatile configuration to its factory default.
//!
//! This is a different operation from erasing, not a deeper one. It restores the configuration the
//! device boots with, which on some targets decides whether the device can be debugged at all, so it
//! needs its own permission rather than the one for erasing everything.
use vstd::prelude::*;

use crate::sequence::{Next, Operation, Reply, Sequence};

verus! {

/// What the user is told when the device was reset.
///
/// The device is left with nothing to run, so saying "done" on its own would be misleading: the
/// next thing to touch it will find a part that faults as soon as it is released.
pub const COMPLETE: &'static str = "Factory reset complete. The device has no program on it — flash one before disconnecting, or it may not be reachable again.";

/// One operation of the command.
#[derive(Debug, Clone, Copy)]
pub enum CmdAction {
    /// Open a session on the probe, with the arguments of the command.
    AttachProbe,
    /// Reset the target of that session, disregarding the progress it reports.
    FactoryReset,
    /// Print a line for the user.
    Print { line: &'static str },
}

/// The command. `O` stands for the options that select and set up the probe.
#[derive(Debug)]
pub struct Cmd<O> {
    pub common: O,
}

/// What a probe is attached with. `A` stands for what can be handed over besides the options.
#[derive(Debug)]
pub struct AttachArguments<O, A> {
    /// The options that select and set up the probe.
    pub common: O,
    /// What is handed over besides them.
    pub addition: Option<A>,
    /// Whether the target is resumed once it is attached to.
    pub resume_target: bool,
}

impl<O> Cmd<O> {
    /// Runs the command: what to attach the probe with, and the course of the command. The probe is
    /// attached with the options alone, and the target is not resumed.
    pub fn run<A>(self) -> (run: (AttachArguments<O, A>, Run))
        ensures
            run.0.common == self.common,
            run.0.addition is None,
            !run.0.resume_target,
            run.1 == Run::AttachProbe,
            run.1.valid(),
    {
        let arguments = AttachArguments {
            common: self.common,
            addition: None,
            resume_target: false,
        };
        (arguments, Run::AttachProbe)
    }
}

/// A run of the command in progress.
#[derive(Debug, Clone, Copy, PartialEq, Eq, Structural)]
pub enum Run {
    /// Attaching the probe.
    AttachProbe,
    /// Resetting the target.
    FactoryReset,
    /// Telling the user.
    Report,
}

impl Operation for Run {
    type Action = CmdAction;

    open spec fn valid(self) -> bool {
        true
    }

    open spec fn awaited(self) -> CmdAction {
        match self {
            Run::AttachProbe => CmdAction::AttachProbe,
            Run::FactoryReset => CmdAction::FactoryReset,
            Run::Report => CmdAction::Print { line: COMPLETE },
        }
    }

    fn action(&self) -> (action: CmdAction) {
        match self {
            Run::AttachProbe => CmdAction::AttachProbe,
            Run::FactoryReset => CmdAction::FactoryReset,
            Run::Report => CmdAction::Print { line: COMPLETE },
        }
    }
}

impl<E> Sequence<E> for Run {
    type Output = Result<(), E>;

    open spec fn admits(self, reply: Reply<E>) -> bool {
        reply is Done || reply is Failed && !(self is Report)
    }

    open spec fn after(self, reply: Reply<E>) -> Next<Run, Result<(), E>> {
        match (self, reply) {
            (Run::Report, _) => Next::Finish(Ok(())),
            (_, Reply::Failed(error)) => Next::Finish(Err(error)),
            (Run::AttachProbe, _) => Next::Continue(Run::FactoryReset),
            (Run::FactoryReset, _) => Next::Continue(Run::Report),
        }
    }

    fn next(self, reply: Reply<E>) -> (next: Next<Run, Result<(), E>>) {
        match (self, reply) {
            (Run::Report, _) => Next::Finish(Ok(())),
            (_, Reply::Failed(error)) => Next::Finish(Err(error)),
            (Run::AttachProbe, _) => Next::Continue(Run::FactoryReset),
            (Run::FactoryReset, _) => Next::Continue(Run::Report),
        }
    }
}

} // verus!
